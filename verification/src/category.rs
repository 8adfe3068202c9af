//! Categories that items are filed under.
use vstd::prelude::*;
use crate::error::ValidationError;
use crate::ids::CategoryId;

verus! {

/// A category (or warehouse) name is 3 to 200 characters long.
pub open spec fn name_length_ok(raw: Seq<char>) -> bool {
    3 <= raw.len() && raw.len() <= 200
}

/// A validated category name: 3 to 200 characters.
#[derive(Debug)]
pub struct CategoryName(pub String);

impl CategoryName {
    /// Parses a raw string into a category name.
    ///
    /// Fails with `InvalidCategoryNameLength` (carrying the character count) unless the
    /// name is between 3 and 200 characters long inclusive; the text is kept as given.
    pub fn parse(raw: &str) -> (res: Result<Self, ValidationError>)
        ensures
            res is Ok <==> name_length_ok(raw@),
            res matches Ok(n) ==> n.0@ == raw@,
            res matches Err(e) ==> e == ValidationError::InvalidCategoryNameLength(raw@.len() as usize),
    {
        let len = raw.unicode_len();
        if len < 3 || len > 200 {
            return Err(ValidationError::InvalidCategoryNameLength(len));
        }
        Ok(CategoryName(raw.to_owned()))
    }
}

/// A category. `created_at` is the creation time in seconds since the Unix epoch.
#[derive(Debug)]
pub struct Category {
    pub id: CategoryId,
    pub name: CategoryName,
    pub description: Option<String>,
    pub created_at: i64,
}

} // verus!
