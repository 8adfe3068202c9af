//! The terminal front end's state machine: keys, forms, screens, and the decisions
//! taken on each key press and each storage reply.

pub mod filter;
pub mod input;
pub mod keys;
pub mod lists;
pub mod state;
pub mod submit;
pub mod handle;
pub mod update;
pub mod view;
pub mod laws;
