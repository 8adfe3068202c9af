//! Reading whole numbers typed by a user, as Rust's `str::parse` reads them for
//! the integer types.
use vstd::prelude::*;

verus! {

/// An ASCII decimal digit.
pub open spec fn is_digit(c: char) -> bool {
    '0' <= c && c <= '9'
}

/// Every character is an ASCII decimal digit.
pub open spec fn all_digits(s: Seq<char>) -> bool {
    forall|i: int| 0 <= i < s.len() ==> is_digit(#[trigger] s[i])
}

/// The value of a run of decimal digits.
pub open spec fn digits_value(s: Seq<char>) -> nat
    decreases s.len(),
{
    if s.len() == 0 {
        0
    } else {
        digits_value(s.drop_last()) * 10 + ((s.last() as u32) - ('0' as u32)) as nat
    }
}

/// The integer written in `s`: an optional `+` (or, where `signed`, `-`) and then at
/// least one decimal digit, nothing else. `None` for any other text.
pub open spec fn written_integer(s: Seq<char>, signed: bool) -> Option<int> {
    if s.len() == 0 {
        None
    } else if s[0] == '+' || (signed && s[0] == '-') {
        let rest = s.drop_first();
        if rest.len() > 0 && all_digits(rest) {
            if s[0] == '-' { Some(-(digits_value(rest) as int)) } else { Some(digits_value(rest) as int) }
        } else {
            None
        }
    } else if all_digits(s) {
        Some(digits_value(s) as int)
    } else {
        None
    }
}

/// The value read from `s` when it lies in `lo..=hi`, as `str::parse` into an integer
/// type with that range gives it; `None` otherwise.
pub open spec fn parsed_in_range(s: Seq<char>, signed: bool, lo: int, hi: int) -> Option<int> {
    match written_integer(s, signed) {
        Some(v) => if lo <= v <= hi { Some(v) } else { None },
        None => None,
    }
}

/// A longer run of digits has a value at least that of its prefix.
proof fn lemma_prefix_value_le(s: Seq<char>, k: int)
    requires
        0 <= k <= s.len(),
        all_digits(s),
    ensures
        digits_value(s.take(k)) <= digits_value(s),
    decreases s.len() - k,
{
    if k < s.len() {
        lemma_prefix_value_le(s, k + 1);
        assert(s.take(k + 1).drop_last() =~= s.take(k));
    } else {
        assert(s.take(k) =~= s);
    }
}

/// Reads the digits of `s` from index `start` on, giving their value while it stays
/// at most `bound`; `None` when some character is not a digit or the value exceeds it.
fn read_digits(s: &str, start: usize, bound: u64) -> (res: Option<u64>)
    requires
        start <= s@.len(),
    ensures
        ({
            let d = s@.skip(start as int);
            match res {
                Some(v) => all_digits(d) && v == digits_value(d) && v <= bound,
                None => !all_digits(d) || digits_value(d) > bound,
            }
        }),
{
    let n = s.unicode_len();
    let ghost d = s@.skip(start as int);
    let mut acc: u64 = 0;
    let mut i: usize = start;
    while i < n
        invariant
            n == s@.len(),
            start <= i <= n,
            d == s@.skip(start as int),
            all_digits(d.take(i - start)),
            acc == digits_value(d.take(i - start)),
            acc <= bound,
        decreases n - i,
    {
        let c = s.get_char(i);
        proof {
            assert(d[i - start] == c);
        }
        if !('0' <= c && c <= '9') {
            return None;
        }
        let dv: u64 = (c as u32 - '0' as u32) as u64;
        proof {
            assert(d.take(i - start + 1).drop_last() =~= d.take(i - start));
            assert(d.take(i - start + 1).last() == c);
        }
        if dv > bound || acc > (bound - dv) / 10 {
            proof {
                if dv <= bound {
                    assert(acc * 10 + dv > bound) by (nonlinear_arith)
                        requires acc > (bound - dv) / 10, dv <= bound;
                }
                assert(all_digits(d.take(i - start + 1)) ==> digits_value(d.take(i - start + 1)) > bound);
                if all_digits(d) {
                    lemma_prefix_value_le(d, i - start + 1);
                }
            }
            return None;
        }
        proof {
            assert(acc * 10 + dv <= bound) by (nonlinear_arith)
                requires acc <= (bound - dv) / 10, dv <= bound;
        }
        acc = acc * 10 + dv;
        i = i + 1;
    }
    proof {
        assert(d.take(i - start) =~= d);
    }
    Some(acc)
}

/// Reads an integer the way `str::parse` does for an integer type whose range is
/// `-(neg_bound)..=pos_bound` (with `signed` telling whether a `-` sign is allowed).
pub fn parse_integer(s: &str, signed: bool, neg_bound: u64, pos_bound: u64) -> (res: Option<i128>)
    ensures
        res matches Some(v) ==> parsed_in_range(s@, signed, -(neg_bound as int), pos_bound as int) == Some(v as int),
        res is None ==> parsed_in_range(s@, signed, -(neg_bound as int), pos_bound as int) is None,
{
    let n = s.unicode_len();
    if n == 0 {
        return None;
    }
    let first = s.get_char(0);
    if first == '+' || (signed && first == '-') {
        if n == 1 {
            return None;
        }
        let negative = first == '-';
        let bound = if negative { neg_bound } else { pos_bound };
        proof {
            assert(s@.drop_first() =~= s@.skip(1));
        }
        match read_digits(s, 1, bound) {
            Some(v) => {
                if negative { Some(-(v as i128)) } else { Some(v as i128) }
            },
            None => None,
        }
    } else {
        proof {
            assert(s@.skip(0) =~= s@);
        }
        match read_digits(s, 0, pos_bound) {
            Some(v) => Some(v as i128),
            None => None,
        }
    }
}

/// `str::parse::<i64>`.
pub fn parse_i64(s: &str) -> (res: Option<i64>)
    ensures
        res matches Some(v) ==> parsed_in_range(s@, true, i64::MIN as int, i64::MAX as int) == Some(v as int),
        res is None ==> parsed_in_range(s@, true, i64::MIN as int, i64::MAX as int) is None,
{
    match parse_integer(s, true, 9223372036854775808u64, 9223372036854775807u64) {
        Some(v) => Some(v as i64),
        None => None,
    }
}

/// `str::parse::<i32>`.
pub fn parse_i32(s: &str) -> (res: Option<i32>)
    ensures
        res matches Some(v) ==> parsed_in_range(s@, true, i32::MIN as int, i32::MAX as int) == Some(v as int),
        res is None ==> parsed_in_range(s@, true, i32::MIN as int, i32::MAX as int) is None,
{
    match parse_integer(s, true, 2147483648u64, 2147483647u64) {
        Some(v) => Some(v as i32),
        None => None,
    }
}

/// `str::parse::<u32>`.
pub fn parse_u32(s: &str) -> (res: Option<u32>)
    ensures
        res matches Some(v) ==> parsed_in_range(s@, false, 0, u32::MAX as int) == Some(v as int),
        res is None ==> parsed_in_range(s@, false, 0, u32::MAX as int) is None,
{
    match parse_integer(s, false, 0u64, 4294967295u64) {
        Some(v) => Some(v as u32),
        None => None,
    }
}

} // verus!
