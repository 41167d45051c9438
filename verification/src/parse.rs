//! Verified decimal parsing for smart-contract parameters, together
//! with character-wise string comparison.

use vstd::prelude::*;

verus! {

/// Is `c` a decimal digit?
pub open spec fn is_digit(c: char) -> bool {
    48 <= c as u32 <= 57
}

/// Numeric value of a digit character.
pub open spec fn digit_val(c: char) -> nat {
    (c as u32 - 48) as nat
}

/// Every character of `s` is a decimal digit.
pub open spec fn all_digits(s: Seq<char>) -> bool {
    forall|i: int| 0 <= i < s.len() ==> is_digit(#[trigger] s[i])
}

/// The value of a digit string read in base ten.
pub open spec fn dec_val(s: Seq<char>) -> nat
    decreases s.len(),
{
    if s.len() == 0 {
        0
    } else {
        dec_val(s.drop_last()) * 10 + digit_val(s.last())
    }
}

/// The digit part of an unsigned decimal literal: an optional leading
/// `+` is allowed, as `str::parse` for unsigned integers allows it.
pub open spec fn unsigned_digits(s: Seq<char>) -> Seq<char> {
    if s.len() > 0 && s[0] == '+' {
        s.drop_first()
    } else {
        s
    }
}

/// What `str::parse::<u32>` returns on `s`: the base-ten value of the
/// digits when the shape is right and the value fits, `None` otherwise.
pub open spec fn parse_u32_v(s: Seq<char>) -> Option<u32> {
    let d = unsigned_digits(s);
    if d.len() > 0 && all_digits(d) && dec_val(d) <= u32::MAX {
        Some(dec_val(d) as u32)
    } else {
        None
    }
}

/// What `str::parse::<i32>` returns on `s`.
pub open spec fn parse_i32_v(s: Seq<char>) -> Option<i32> {
    if s.len() > 0 && s[0] == '-' {
        let d = s.drop_first();
        if d.len() > 0 && all_digits(d) && dec_val(d) <= 0x8000_0000 {
            Some((0 - dec_val(d)) as i32)
        } else {
            None
        }
    } else {
        let d = unsigned_digits(s);
        if d.len() > 0 && all_digits(d) && dec_val(d) <= i32::MAX {
            Some(dec_val(d) as i32)
        } else {
            None
        }
    }
}

/// A digit string's value only grows as more digits are appended.
proof fn lemma_dec_val_prefix(s: Seq<char>, j: int)
    requires
        0 <= j <= s.len(),
        all_digits(s),
    ensures
        dec_val(s) >= dec_val(s.take(j)),
    decreases s.len() - j,
{
    if j < s.len() {
        assert(s.take(j + 1).drop_last() =~= s.take(j));
        assert(s.take(j + 1).last() == s[j]);
        assert(dec_val(s.take(j + 1)) == dec_val(s.take(j)) * 10 + digit_val(s[j]));
        lemma_dec_val_prefix(s, j + 1);
    } else {
        assert(s.take(j) =~= s);
    }
}

/// Parse the digits of `s` from position `start` on, refusing values
/// above `limit`.  Mirrors the digit loop of `str::parse`.
fn parse_digits(s: &str, start: usize, limit: u32) -> (r: Option<u32>)
    requires
        start <= s@.len(),
    ensures
        ({
            let d = s@.skip(start as int);
            match r {
                Some(v) => d.len() > 0 && all_digits(d) && dec_val(d) == v && v <= limit,
                None => !(d.len() > 0 && all_digits(d) && dec_val(d) <= limit),
            }
        }),
{
    let ghost d = s@.skip(start as int);
    let n = s.unicode_len();
    if start >= n {
        return None;
    }
    let mut acc: u32 = 0;
    let mut i: usize = start;
    while i < n
        invariant
            start <= i <= n,
            n == s@.len(),
            d == s@.skip(start as int),
            all_digits(d.take(i - start)),
            acc == dec_val(d.take(i - start)),
            acc <= limit,
        decreases n - i,
    {
        let c = s.get_char(i);
        let cv = c as u32;
        proof {
            assert(d[i - start] == s@[i as int]);
            assert(d.take(i - start + 1).drop_last() =~= d.take(i - start));
            assert(d.take(i - start + 1).last() == d[i - start]);
        }
        if cv < 48 || cv > 57 {
            return None;
        }
        let dv = cv - 48;
        let next: u64 = 10 * (acc as u64) + (dv as u64);
        if next > limit as u64 {
            // The value read so far already exceeds the limit once this
            // digit is appended; any further digits only increase it.
            proof {
                assert(dec_val(d.take(i - start + 1)) == acc * 10 + dv);
                assert(dec_val(d.take(i - start + 1)) > limit);
                if all_digits(d) {
                    lemma_dec_val_prefix(d, i - start + 1);
                }
            }
            return None;
        }
        acc = next as u32;
        i += 1;
    }
    proof {
        assert(d.take(i - start) =~= d);
    }
    Some(acc)
}

/// What `str::parse::<u32>` does, written out and proved.
pub fn parse_u32(s: &str) -> (r: Option<u32>)
    ensures
        r == parse_u32_v(s@),
{
    let n = s.unicode_len();
    let start: usize = if n > 0 && s.get_char(0) == '+' {
        1
    } else {
        0
    };
    proof {
        assert(s@.skip(start as int) =~= unsigned_digits(s@));
    }
    parse_digits(s, start, u32::MAX)
}

/// What `str::parse::<i32>` does, written out and proved.
pub fn parse_i32(s: &str) -> (r: Option<i32>)
    ensures
        r == parse_i32_v(s@),
{
    let n = s.unicode_len();
    if n > 0 && s.get_char(0) == '-' {
        proof {
            assert(s@.skip(1) =~= s@.drop_first());
        }
        match parse_digits(s, 1, 0x8000_0000) {
            Some(m) => {
                if m == 0x8000_0000 {
                    Some(i32::MIN)
                } else {
                    Some(-(m as i32))
                }
            },
            None => None,
        }
    } else {
        let start: usize = if n > 0 && s.get_char(0) == '+' {
            1
        } else {
            0
        };
        proof {
            assert(s@.skip(start as int) =~= unsigned_digits(s@));
        }
        match parse_digits(s, start, i32::MAX as u32) {
            Some(m) => Some(m as i32),
            None => None,
        }
    }
}

/// Character-wise string equality, with the equality of the views in
/// its contract.
pub fn str_eq(a: &str, b: &str) -> (r: bool)
    ensures
        r == (a@ == b@),
{
    let na = a.unicode_len();
    let nb = b.unicode_len();
    if na != nb {
        return false;
    }
    let mut i: usize = 0;
    while i < na
        invariant
            0 <= i <= na,
            na == a@.len(),
            nb == b@.len(),
            na == nb,
            forall|j: int| 0 <= j < i ==> a@[j] == b@[j],
        decreases na - i,
    {
        if a.get_char(i) != b.get_char(i) {
            return false;
        }
        i += 1;
    }
    proof {
        assert(a@ =~= b@);
    }
    true
}

} // verus!
