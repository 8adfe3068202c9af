//! Inventory management domain: SKUs, money, stock levels and movements,
//! the rules the storage layer applies, and the terminal front end's state machine.

pub mod money;
pub mod number;
pub mod text;
pub mod error;
pub use error::{CoreError, ValidationError};
pub mod sku;
pub mod ids;
pub mod import;
pub mod category;
pub mod config;
pub mod warehouse;
pub mod seed;
pub mod item;
pub mod stock;
pub mod storage;
pub mod tui;
