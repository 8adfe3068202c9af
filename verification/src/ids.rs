//! Identifiers of items, categories, warehouses and stock movements.
//!
//! Each identifier is a random (version 4) UUID, held as its 128-bit value.
use vstd::prelude::*;

verus! {

/// The lower-case hexadecimal digit for `d < 16`.
pub open spec fn hex_char(d: nat) -> char {
    if d < 10 { crate::text::digit_char(d) }
    else if d == 10 { 'a' }
    else if d == 11 { 'b' }
    else if d == 12 { 'c' }
    else if d == 13 { 'd' }
    else if d == 14 { 'e' }
    else { 'f' }
}

/// The `n` lowest hexadecimal digits of `v`, most significant first.
pub open spec fn hex_digits(v: nat, n: nat) -> Seq<char>
    decreases n,
{
    if n == 0 {
        seq![]
    } else {
        hex_digits(v / 16, (n - 1) as nat).push(hex_char(v % 16))
    }
}

/// The hyphenated lower-case form of a UUID: 8-4-4-4-12 hexadecimal digits.
pub open spec fn uuid_hyphenated(v: u128) -> Seq<char> {
    let h = hex_digits(v as nat, 32);
    h.subrange(0, 8) + seq!['-'] + h.subrange(8, 12) + seq!['-'] + h.subrange(12, 16)
        + seq!['-'] + h.subrange(16, 20) + seq!['-'] + h.subrange(20, 32)
}

/// What `uuid::Uuid::parse_str` gives for a text: the UUID's 128-bit value, or `None`
/// where it reports an error.
pub uninterp spec fn uuid_parse(s: Seq<char>) -> Option<u128>;

#[verifier::external_type_specification]
#[verifier::external_body]
pub struct ExUuidError(uuid::Error);

/// A random (version 4) UUID of the RFC 9562 variant: its version field, bits 76 to 79,
/// holds 4, and its variant field, bits 62 and 63, holds binary 10.
pub open spec fn is_random_uuid(v: u128) -> bool {
    (v >> 76u128) & 0xfu128 == 4u128 && (v >> 62u128) & 0x3u128 == 2u128
}

/// `uuid::Uuid::new_v4`: a fresh random UUID, as its 128-bit value. Claims only that it
/// is a version 4 UUID of the RFC 9562 variant (the crate masks those bits into the
/// random number); the other 122 bits come from the random number generator and are
/// not stated.
#[verifier::external_body]
fn random_uuid() -> (res: u128)
    ensures
        is_random_uuid(res),
{
    uuid::Uuid::new_v4().as_u128()
}

/// `Uuid::to_string` (its `Display`, lower-case hyphenated) of the UUID with value `v`.
/// Claims the exact text, and that `Uuid::parse_str` reads that text back to `v`.
#[verifier::external_body]
fn uuid_to_text(v: u128) -> (res: String)
    ensures
        res@ == uuid_hyphenated(v),
        uuid_parse(res@) == Some(v),
{
    uuid::Uuid::from_u128(v).to_string()
}

/// `uuid::Uuid::parse_str`: the 128-bit value of the UUID written in `s`, or its error.
/// Which texts it accepts is left to the name `uuid_parse`.
#[verifier::external_body]
fn uuid_from_text(s: &str) -> (res: Result<u128, uuid::Error>)
    ensures
        match res {
            Ok(v) => uuid_parse(s@) == Some(v),
            Err(_) => uuid_parse(s@) is None,
        },
{
    match uuid::Uuid::parse_str(s) {
        Ok(u) => Ok(u.as_u128()),
        Err(e) => Err(e),
    }
}

/// The text given is not a UUID.
#[derive(Debug, Clone, Copy, PartialEq, Eq)]
pub struct IdParseError;

/// The identifier of an item.
#[derive(Debug, Clone, Copy, PartialEq, Eq, Hash, Structural)]
pub struct ItemId(pub u128);

impl ItemId {
    /// A fresh random identifier: a version 4 UUID.
    pub fn new() -> (id: Self)
        ensures
            is_random_uuid(id.0),
    {
        ItemId(random_uuid())
    }

    /// The lower-case hyphenated text of the identifier.
    pub fn to_string(&self) -> (res: String)
        ensures
            res@ == uuid_hyphenated(self.0),
            uuid_parse(res@) == Some(self.0),
    {
        uuid_to_text(self.0)
    }

    /// Reads an identifier back from its text.
    pub fn try_from(s: String) -> (res: Result<Self, IdParseError>)
        ensures
            match res {
                Ok(id) => uuid_parse(s@) == Some(id.0),
                Err(_) => uuid_parse(s@) is None,
            },
    {
        match uuid_from_text(s.as_str()) {
            Ok(v) => Ok(ItemId(v)),
            Err(_) => Err(IdParseError),
        }
    }
}

/// The identifier of a category.
#[derive(Debug, Clone, Copy, PartialEq, Eq, Hash, Structural)]
pub struct CategoryId(pub u128);

impl CategoryId {
    /// A fresh random identifier: a version 4 UUID.
    pub fn new() -> (id: Self)
        ensures
            is_random_uuid(id.0),
    {
        CategoryId(random_uuid())
    }

    /// The lower-case hyphenated text of the identifier.
    pub fn to_string(&self) -> (res: String)
        ensures
            res@ == uuid_hyphenated(self.0),
            uuid_parse(res@) == Some(self.0),
    {
        uuid_to_text(self.0)
    }

    /// Reads an identifier back from its text.
    pub fn try_from(s: String) -> (res: Result<Self, IdParseError>)
        ensures
            match res {
                Ok(id) => uuid_parse(s@) == Some(id.0),
                Err(_) => uuid_parse(s@) is None,
            },
    {
        match uuid_from_text(s.as_str()) {
            Ok(v) => Ok(CategoryId(v)),
            Err(_) => Err(IdParseError),
        }
    }
}

/// The identifier of a warehouse.
#[derive(Debug, Clone, Copy, PartialEq, Eq, Hash, Structural)]
pub struct WarehouseId(pub u128);

impl WarehouseId {
    /// A fresh random identifier: a version 4 UUID.
    pub fn new() -> (id: Self)
        ensures
            is_random_uuid(id.0),
    {
        WarehouseId(random_uuid())
    }

    /// The lower-case hyphenated text of the identifier.
    pub fn to_string(&self) -> (res: String)
        ensures
            res@ == uuid_hyphenated(self.0),
            uuid_parse(res@) == Some(self.0),
    {
        uuid_to_text(self.0)
    }

    /// Reads an identifier back from its text.
    pub fn try_from(s: String) -> (res: Result<Self, IdParseError>)
        ensures
            match res {
                Ok(id) => uuid_parse(s@) == Some(id.0),
                Err(_) => uuid_parse(s@) is None,
            },
    {
        match uuid_from_text(s.as_str()) {
            Ok(v) => Ok(WarehouseId(v)),
            Err(_) => Err(IdParseError),
        }
    }
}

/// The identifier of a recorded stock movement.
#[derive(Debug, Clone, Copy, PartialEq, Eq, Hash, Structural)]
pub struct MovementId(pub u128);

impl MovementId {
    /// A fresh random identifier: a version 4 UUID.
    pub fn new() -> (id: Self)
        ensures
            is_random_uuid(id.0),
    {
        MovementId(random_uuid())
    }

    /// The lower-case hyphenated text of the identifier.
    pub fn to_string(&self) -> (res: String)
        ensures
            res@ == uuid_hyphenated(self.0),
            uuid_parse(res@) == Some(self.0),
    {
        uuid_to_text(self.0)
    }

    /// Reads an identifier back from its text.
    pub fn try_from(s: String) -> (res: Result<Self, IdParseError>)
        ensures
            match res {
                Ok(id) => uuid_parse(s@) == Some(id.0),
                Err(_) => uuid_parse(s@) is None,
            },
    {
        match uuid_from_text(s.as_str()) {
            Ok(v) => Ok(MovementId(v)),
            Err(_) => Err(IdParseError),
        }
    }
}

} // verus!
