//! The storage layer's rules: its errors, the inputs of its operations, and the
//! decisions it makes around the database.

pub mod error;
pub mod inputs;
pub mod query;
pub mod rules;
