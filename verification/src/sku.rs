//! Stock keeping units: validated, upper-cased product codes.
use vstd::prelude::*;
use crate::error::ValidationError;
use crate::text::{ascii_upper, push_char, to_ascii_upper, utf8_len};

verus! {

/// A character allowed in a SKU: an ASCII letter, an ASCII digit or a hyphen.
pub open spec fn is_sku_char(c: char) -> bool {
    ('0' <= c && c <= '9') || ('a' <= c && c <= 'z') || ('A' <= c && c <= 'Z') || c == '-'
}

/// Every character of `s` is allowed in a SKU.
pub open spec fn all_sku_chars(s: Seq<char>) -> bool {
    forall|i: int| 0 <= i < s.len() ==> is_sku_char(#[trigger] s[i])
}

/// The raw text passes both SKU rules: allowed characters, and 3 to 20 bytes.
pub open spec fn sku_accepts(raw: Seq<char>) -> bool {
    all_sku_chars(raw) && 3 <= utf8_len(raw) && utf8_len(raw) <= 20
}

/// The stored form of an accepted SKU: its ASCII upper-case.
pub open spec fn sku_normal(raw: Seq<char>) -> Seq<char> {
    raw.map_values(|c: char| ascii_upper(c))
}

/// A product code. Built through `Sku::parse`, so it only holds upper-case
/// ASCII letters, digits and hyphens, 3 to 20 of them.
#[derive(Debug)]
pub struct Sku(pub String);

impl Sku {
    /// The stored code is in normal form: accepted, and upper-case.
    pub open spec fn wf(&self) -> bool {
        sku_accepts(self.0@) && sku_normal(self.0@) == self.0@
    }

    /// Parses a raw string into a SKU.
    ///
    /// Fails with `InvalidSkuFormat` if a character is not an ASCII letter, digit or hyphen,
    /// else with `InvalidSkuLength` if the byte length is not between 3 and 20 inclusive.
    /// On success the code is stored upper-cased.
    pub fn parse(raw: &str) -> (res: Result<Self, ValidationError>)
        ensures
            res is Ok <==> sku_accepts(raw@),
            res matches Ok(sku) ==> sku.0@ == sku_normal(raw@) && sku.wf(),
            res matches Err(e) ==> (if all_sku_chars(raw@) {
                e == ValidationError::InvalidSkuLength(utf8_len(raw@) as usize)
            } else {
                e matches ValidationError::InvalidSkuFormat(s) && s@ == raw@
            }),
    {
        let n = raw.unicode_len();
        let mut i: usize = 0;
        while i < n
            invariant
                n == raw@.len(),
                i <= n,
                forall|k: int| 0 <= k < i ==> is_sku_char(#[trigger] raw@[k]),
            decreases n - i,
        {
            let c = raw.get_char(i);
            if !(('0' <= c && c <= '9') || ('a' <= c && c <= 'z') || ('A' <= c && c <= 'Z') || c == '-') {
                return Err(ValidationError::InvalidSkuFormat(raw.to_owned()));
            }
            i = i + 1;
        }
        proof {
            lemma_sku_chars_ascii(raw@);
        }
        let len = raw.len();
        if len < 3 || len > 20 {
            return Err(ValidationError::InvalidSkuLength(len));
        }
        let mut out = String::new();
        let mut j: usize = 0;
        while j < n
            invariant
                n == raw@.len(),
                j <= n,
                out@ == raw@.subrange(0, j as int).map_values(|c: char| ascii_upper(c)),
            decreases n - j,
        {
            let c = raw.get_char(j);
            push_char(&mut out, to_ascii_upper(c));
            proof {
                assert(raw@.subrange(0, j + 1).map_values(|c: char| ascii_upper(c)) =~=
                    raw@.subrange(0, j as int).map_values(|c: char| ascii_upper(c)).push(ascii_upper(c)));
            }
            j = j + 1;
        }
        proof {
            assert(raw@.subrange(0, n as int) =~= raw@);
            lemma_sku_normal_idempotent(raw@);
        }
        Ok(Sku(out))
    }
}

/// SKU characters are ASCII, so their byte length is their character count.
pub proof fn lemma_sku_chars_ascii(s: Seq<char>)
    requires
        all_sku_chars(s),
    ensures
        vstd::utf8::is_ascii_chars(s),
        utf8_len(s) == s.len(),
{
    assert(vstd::utf8::is_ascii_chars(s));
    vstd::utf8::is_ascii_chars_encode_utf8(s);
}

/// Normalising an accepted SKU gives an accepted SKU that normalising keeps as it is.
pub proof fn lemma_sku_normal_idempotent(raw: Seq<char>)
    requires
        sku_accepts(raw),
    ensures
        sku_accepts(sku_normal(raw)),
        sku_normal(sku_normal(raw)) == sku_normal(raw),
{
    let up = sku_normal(raw);
    assert forall|i: int| 0 <= i < up.len() implies is_sku_char(#[trigger] up[i]) by {
        assert(is_sku_char(raw[i]));
    }
    lemma_sku_chars_ascii(raw);
    lemma_sku_chars_ascii(up);
    assert(sku_normal(up) =~= up);
}

/// Parsing is idempotent: the code that `parse` stores is accepted again, unchanged.
pub proof fn law_sku_parse_idempotent(raw: Seq<char>)
    requires
        sku_accepts(raw),
    ensures
        sku_accepts(sku_normal(raw)),
        sku_normal(sku_normal(raw)) == sku_normal(raw),
{
    lemma_sku_normal_idempotent(raw);
}

} // verus!
