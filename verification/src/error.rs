//! Errors raised by the domain rules, with their user-facing texts.
use vstd::prelude::*;
use crate::text::{decimal, push_decimal, push_str};

verus! {

/// Errors that come from business-rule violations.
#[derive(Debug)]
pub enum CoreError {
    InvalidSku(String),
    InsufficientStock { requested: u32, available: u32 },
    QuantityOverflow,
    InvalidMovementKind(String),
}

/// Errors that come from input that does not pass validation.
#[derive(Debug)]
pub enum ValidationError {
    MissingField(&'static str),
    InvalidSkuFormat(String),
    InvalidSkuLength(usize),
    InvalidWarehouseNameLength(usize),
    InvalidCategoryNameLength(usize),
}

/// The short technical description of a core error.
pub open spec fn core_error_text(e: CoreError) -> Seq<char> {
    match e {
        CoreError::InvalidSku(s) => "invalid SKU: "@ + s@,
        CoreError::InsufficientStock { requested, available } =>
            "insufficient stock: requested "@ + decimal(requested as nat) + ", available "@
                + decimal(available as nat),
        CoreError::QuantityOverflow => "quantity overflow"@,
        CoreError::InvalidMovementKind(s) => "invalid movement kind: "@ + s@,
    }
}

/// The friendly sentence shown to a user for a core error.
pub open spec fn core_error_message(e: CoreError) -> Seq<char> {
    match e {
        CoreError::InvalidSku(s) => "'"@ + s@ + "' isn't a valid SKU."@,
        CoreError::InsufficientStock { requested, available } =>
            "Not enough stock: you asked for "@ + decimal(requested as nat) + " but only "@
                + decimal(available as nat) + " is available."@,
        CoreError::QuantityOverflow => "That quantity is too large."@,
        CoreError::InvalidMovementKind(_) => "Unrecognized stock movement type."@,
    }
}

/// The short technical description of a validation error.
pub open spec fn validation_error_text(e: ValidationError) -> Seq<char> {
    match e {
        ValidationError::MissingField(f) => "missing required field: "@ + f@,
        ValidationError::InvalidSkuFormat(s) => "invalid SKU format: "@ + s@,
        ValidationError::InvalidSkuLength(n) => "invalid SKU length: "@ + decimal(n as nat),
        ValidationError::InvalidWarehouseNameLength(n) =>
            "invalid warehouse name length: "@ + decimal(n as nat),
        ValidationError::InvalidCategoryNameLength(n) =>
            "invalid category name length: "@ + decimal(n as nat),
    }
}

/// The friendly sentence shown to a user for a validation error.
pub open spec fn validation_error_message(e: ValidationError) -> Seq<char> {
    match e {
        ValidationError::MissingField(f) => f@ + " is required."@,
        ValidationError::InvalidSkuFormat(_) =>
            "SKU can only contain letters, numbers, and hyphens."@,
        ValidationError::InvalidSkuLength(n) =>
            "SKU must be 3–20 characters (got "@ + decimal(n as nat) + ")."@,
        ValidationError::InvalidWarehouseNameLength(n) =>
            "Warehouse name must be 3–200 characters (got "@ + decimal(n as nat) + ")."@,
        ValidationError::InvalidCategoryNameLength(n) =>
            "Category name must be 3–200 characters (got "@ + decimal(n as nat) + ")."@,
    }
}

impl CoreError {
    /// A sentence that explains the error to the user.
    pub fn message(&self) -> (res: String)
        ensures
            res@ == core_error_message(*self),
    {
        let mut out = String::new();
        match self {
            CoreError::InvalidSku(s) => {
                push_str(&mut out, "'");
                push_str(&mut out, s.as_str());
                push_str(&mut out, "' isn't a valid SKU.");
            },
            CoreError::InsufficientStock { requested, available } => {
                push_str(&mut out, "Not enough stock: you asked for ");
                push_decimal(&mut out, *requested as u64);
                push_str(&mut out, " but only ");
                push_decimal(&mut out, *available as u64);
                push_str(&mut out, " is available.");
            },
            CoreError::QuantityOverflow => {
                push_str(&mut out, "That quantity is too large.");
            },
            CoreError::InvalidMovementKind(_) => {
                push_str(&mut out, "Unrecognized stock movement type.");
            },
        }
        out
    }

    /// The short technical description of the error.
    pub fn to_string(&self) -> (res: String)
        ensures
            res@ == core_error_text(*self),
    {
        let mut out = String::new();
        match self {
            CoreError::InvalidSku(s) => {
                push_str(&mut out, "invalid SKU: ");
                push_str(&mut out, s.as_str());
            },
            CoreError::InsufficientStock { requested, available } => {
                push_str(&mut out, "insufficient stock: requested ");
                push_decimal(&mut out, *requested as u64);
                push_str(&mut out, ", available ");
                push_decimal(&mut out, *available as u64);
            },
            CoreError::QuantityOverflow => {
                push_str(&mut out, "quantity overflow");
            },
            CoreError::InvalidMovementKind(s) => {
                push_str(&mut out, "invalid movement kind: ");
                push_str(&mut out, s.as_str());
            },
        }
        out
    }
}

impl ValidationError {
    /// A sentence that explains the error to the user.
    pub fn message(&self) -> (res: String)
        ensures
            res@ == validation_error_message(*self),
    {
        let mut out = String::new();
        match self {
            ValidationError::MissingField(f) => {
                push_str(&mut out, f);
                push_str(&mut out, " is required.");
            },
            ValidationError::InvalidSkuFormat(_) => {
                push_str(&mut out, "SKU can only contain letters, numbers, and hyphens.");
            },
            ValidationError::InvalidSkuLength(n) => {
                push_str(&mut out, "SKU must be 3–20 characters (got ");
                push_decimal(&mut out, *n as u64);
                push_str(&mut out, ").");
            },
            ValidationError::InvalidWarehouseNameLength(n) => {
                push_str(&mut out, "Warehouse name must be 3–200 characters (got ");
                push_decimal(&mut out, *n as u64);
                push_str(&mut out, ").");
            },
            ValidationError::InvalidCategoryNameLength(n) => {
                push_str(&mut out, "Category name must be 3–200 characters (got ");
                push_decimal(&mut out, *n as u64);
                push_str(&mut out, ").");
            },
        }
        out
    }

    /// The short technical description of the error.
    pub fn to_string(&self) -> (res: String)
        ensures
            res@ == validation_error_text(*self),
    {
        let mut out = String::new();
        match self {
            ValidationError::MissingField(f) => {
                push_str(&mut out, "missing required field: ");
                push_str(&mut out, f);
            },
            ValidationError::InvalidSkuFormat(s) => {
                push_str(&mut out, "invalid SKU format: ");
                push_str(&mut out, s.as_str());
            },
            ValidationError::InvalidSkuLength(n) => {
                push_str(&mut out, "invalid SKU length: ");
                push_decimal(&mut out, *n as u64);
            },
            ValidationError::InvalidWarehouseNameLength(n) => {
                push_str(&mut out, "invalid warehouse name length: ");
                push_decimal(&mut out, *n as u64);
            },
            ValidationError::InvalidCategoryNameLength(n) => {
                push_str(&mut out, "invalid category name length: ");
                push_decimal(&mut out, *n as u64);
            },
        }
        out
    }
}

} // verus!
