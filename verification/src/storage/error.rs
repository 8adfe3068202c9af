//! Errors surfaced by the storage layer, and the sentences shown for them.
use vstd::prelude::*;
use crate::error::{core_error_message, core_error_text, validation_error_message, validation_error_text};
use crate::ids::{uuid_hyphenated, CategoryId, ItemId, WarehouseId};
use crate::text::{has_substring, contains_str, push_str};
use crate::{CoreError, ValidationError};

verus! {

/// The kind of constraint a database refused a statement for.
#[derive(Debug, Clone, Copy, PartialEq, Eq, Structural)]
pub enum DbErrorKind {
    UniqueViolation,
    ForeignKeyViolation,
    NotNullViolation,
    CheckViolation,
    Other,
}

/// What went wrong in the database driver, as far as the messages need to know.
#[derive(Debug)]
pub enum DbFailure {
    /// The database refused a statement: the constraint kind and the database's own message.
    Refused { kind: DbErrorKind, message: String },
    /// No connection became free in time.
    PoolTimedOut,
    /// Any other failure (I/O, decoding, a missing row, ...).
    Other,
}

/// A database error: what went wrong, and the driver's own description of it.
#[derive(Debug)]
pub struct DatabaseError {
    pub failure: DbFailure,
    pub text: String,
}

/// Errors surfaced by repository implementations.
#[derive(Debug)]
pub enum StorageError {
    NotFound(ItemId),
    CategoryInUse(CategoryId),
    WarehouseInUse(WarehouseId),
    Database(DatabaseError),
    /// Setting up the schema failed; the text describes why.
    MigrateError(String),
    Core(CoreError),
    Validation(ValidationError),
}

/// The sentence for a unique-constraint violation, chosen by the column the
/// database's message names.
pub open spec fn unique_violation_text(raw: Seq<char>) -> Seq<char> {
    if has_substring(raw, "items.sku"@) {
        "That SKU is already in use. Choose a different one."@
    } else if has_substring(raw, "categories.name"@) {
        "A category with that name already exists."@
    } else if has_substring(raw, "warehouses.name"@) {
        "A warehouse with that name already exists."@
    } else {
        "That value is already in use."@
    }
}

/// The friendly sentence shown to a user for a storage error.
pub open spec fn storage_error_message(e: StorageError) -> Seq<char> {
    match e {
        StorageError::NotFound(_) => "That item does not exist or it may have been deleted."@,
        StorageError::CategoryInUse(_) =>
            "This category still has items in it. Move or delete those items first."@,
        StorageError::WarehouseInUse(_) =>
            "This warehouse still has stock in it. Clear its stock first."@,
        StorageError::Database(d) => match d.failure {
            DbFailure::Refused { kind, message } => match kind {
                DbErrorKind::UniqueViolation => unique_violation_text(message@),
                DbErrorKind::ForeignKeyViolation =>
                    "That references something that no longer exists (maybe a category or warehouse was deleted). Try refreshing."@,
                DbErrorKind::CheckViolation =>
                    "That value isn't allowed (e.g. stock can't go negative)."@,
                _ => "Something went wrong somewhere. Please try again."@,
            },
            DbFailure::PoolTimedOut => "The database is busy. Please try again in a moment."@,
            DbFailure::Other => "A database error occurred. Please try again."@,
        },
        StorageError::MigrateError(_) => "Failed to set up the database. Please restart the app."@,
        StorageError::Core(c) => core_error_message(c),
        StorageError::Validation(v) => validation_error_message(v),
    }
}

/// The short technical description of a storage error.
pub open spec fn storage_error_text(e: StorageError) -> Seq<char> {
    match e {
        StorageError::NotFound(id) => "item not found: ItemId("@ + uuid_hyphenated(id.0) + ")"@,
        StorageError::CategoryInUse(id) =>
            "Category is still in use: CategoryId("@ + uuid_hyphenated(id.0) + ")"@,
        StorageError::WarehouseInUse(id) =>
            "Warehouse still has items in it: WarehouseId("@ + uuid_hyphenated(id.0) + ")"@,
        StorageError::Database(d) => "database error: "@ + d.text@,
        StorageError::MigrateError(t) => "database migration error: "@ + t@,
        StorageError::Core(c) => core_error_text(c),
        StorageError::Validation(v) => validation_error_text(v),
    }
}

/// The sentence for a unique-constraint violation whose database message is `raw`.
pub fn unique_violation_message(raw: &str) -> (res: String)
    ensures
        res@ == unique_violation_text(raw@),
{
    let text = if contains_str(raw, "items.sku") {
        "That SKU is already in use. Choose a different one."
    } else if contains_str(raw, "categories.name") {
        "A category with that name already exists."
    } else if contains_str(raw, "warehouses.name") {
        "A warehouse with that name already exists."
    } else {
        "That value is already in use."
    };
    text.to_owned()
}

impl StorageError {
    /// A sentence that explains the error to the user.
    pub fn message(&self) -> (res: String)
        ensures
            res@ == storage_error_message(*self),
    {
        match self {
            StorageError::NotFound(_) =>
                "That item does not exist or it may have been deleted.".to_owned(),
            StorageError::CategoryInUse(_) =>
                "This category still has items in it. Move or delete those items first.".to_owned(),
            StorageError::WarehouseInUse(_) =>
                "This warehouse still has stock in it. Clear its stock first.".to_owned(),
            StorageError::Database(d) => match &d.failure {
                DbFailure::Refused { kind, message } => match kind {
                    DbErrorKind::UniqueViolation => unique_violation_message(message.as_str()),
                    DbErrorKind::ForeignKeyViolation =>
                        "That references something that no longer exists (maybe a category or warehouse was deleted). Try refreshing.".to_owned(),
                    DbErrorKind::CheckViolation =>
                        "That value isn't allowed (e.g. stock can't go negative).".to_owned(),
                    _ => "Something went wrong somewhere. Please try again.".to_owned(),
                },
                DbFailure::PoolTimedOut =>
                    "The database is busy. Please try again in a moment.".to_owned(),
                DbFailure::Other => "A database error occurred. Please try again.".to_owned(),
            },
            StorageError::MigrateError(_) =>
                "Failed to set up the database. Please restart the app.".to_owned(),
            StorageError::Core(c) => c.message(),
            StorageError::Validation(v) => v.message(),
        }
    }

    /// The short technical description of the error.
    pub fn to_string(&self) -> (res: String)
        ensures
            res@ == storage_error_text(*self),
    {
        let mut out = String::new();
        match self {
            StorageError::NotFound(id) => {
                push_str(&mut out, "item not found: ItemId(");
                push_str(&mut out, id.to_string().as_str());
                push_str(&mut out, ")");
            },
            StorageError::CategoryInUse(id) => {
                push_str(&mut out, "Category is still in use: CategoryId(");
                push_str(&mut out, id.to_string().as_str());
                push_str(&mut out, ")");
            },
            StorageError::WarehouseInUse(id) => {
                push_str(&mut out, "Warehouse still has items in it: WarehouseId(");
                push_str(&mut out, id.to_string().as_str());
                push_str(&mut out, ")");
            },
            StorageError::Database(d) => {
                push_str(&mut out, "database error: ");
                push_str(&mut out, d.text.as_str());
            },
            StorageError::MigrateError(t) => {
                push_str(&mut out, "database migration error: ");
                push_str(&mut out, t.as_str());
            },
            StorageError::Core(c) => {
                out = c.to_string();
            },
            StorageError::Validation(v) => {
                out = v.to_string();
            },
        }
        out
    }
}

} // verus!
