//! Warehouses that hold stock.
use vstd::prelude::*;
use crate::category::name_length_ok;
use crate::error::ValidationError;
use crate::ids::WarehouseId;

verus! {

/// A validated warehouse name: 3 to 200 characters.
#[derive(Debug)]
pub struct WarehouseName(pub String);

impl WarehouseName {
    /// Parses a raw string into a warehouse name.
    ///
    /// Fails with `InvalidWarehouseNameLength` (carrying the character count) unless the
    /// name is between 3 and 200 characters long inclusive; the text is kept as given.
    pub fn parse(raw: &str) -> (res: Result<Self, ValidationError>)
        ensures
            res is Ok <==> name_length_ok(raw@),
            res matches Ok(n) ==> n.0@ == raw@,
            res matches Err(e) ==> e == ValidationError::InvalidWarehouseNameLength(raw@.len() as usize),
    {
        let len = raw.unicode_len();
        if len < 3 || len > 200 {
            return Err(ValidationError::InvalidWarehouseNameLength(len));
        }
        Ok(WarehouseName(raw.to_owned()))
    }
}

/// A warehouse.
#[derive(Debug)]
pub struct Warehouse {
    pub id: WarehouseId,
    pub name: WarehouseName,
    pub location: Option<String>,
}

} // verus!
