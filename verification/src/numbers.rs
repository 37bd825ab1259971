//! Verified decimal parsing of signed and unsigned 32-bit integers,
//! with the grammar of the standard library: an optional sign followed
//! by one or more digits, rejecting values out of range.

use vstd::prelude::*;

use crate::strutil::chars_of;

verus! {

/// True for an ASCII decimal digit.
pub open spec fn spec_is_digit(c: char) -> bool {
    '0' <= c && c <= '9'
}

/// True when every character is a digit.
pub open spec fn spec_all_digits(s: Seq<char>) -> bool {
    forall|j: int| 0 <= j < s.len() ==> spec_is_digit(s[j])
}

/// The numeric value of one digit.
pub open spec fn spec_digit_val(c: char) -> int {
    c as int - '0' as int
}

/// The numeric value of a digit string.
pub open spec fn spec_digits_val(s: Seq<char>) -> int
    decreases s.len(),
{
    if s.len() == 0 {
        0
    } else {
        spec_digits_val(s.drop_last()) * 10 + spec_digit_val(s.last())
    }
}

/// A digit string's value is nonnegative and at least every prefix's
/// value.
pub proof fn lemma_digits_val_lower(s: Seq<char>, k: int)
    requires
        0 <= k <= s.len(),
        spec_all_digits(s),
    ensures
        spec_digits_val(s) >= spec_digits_val(s.take(k)),
        spec_digits_val(s) >= 0,
    decreases s.len(),
{
    if s.len() == 0 {
        assert(s.take(k) =~= s);
    } else if k == s.len() {
        assert(s.take(k) =~= s);
        assert(spec_all_digits(s.drop_last()));
        lemma_digits_val_lower(s.drop_last(), s.len() - 1);
    } else {
        assert(spec_all_digits(s.drop_last()));
        lemma_digits_val_lower(s.drop_last(), k);
        assert(s.drop_last().take(k) =~= s.take(k));
    }
}

/// The value of a well-formed digit string, bounded by `bound`; `None`
/// when empty, not all digits, or over the bound.
pub open spec fn spec_digits_opt(ds: Seq<char>, bound: int) -> Option<int> {
    if ds.len() == 0 {
        None
    } else if !spec_all_digits(ds) {
        None
    } else if spec_digits_val(ds) <= bound {
        Some(spec_digits_val(ds))
    } else {
        None
    }
}

/// The signed-32-bit reading of a string: an optional `+` or `-`
/// followed by digits, `None` when malformed or out of range.
pub open spec fn spec_parse_i32(s: Seq<char>) -> Option<int> {
    if s.len() > 0 && s[0] == '-' {
        match spec_digits_opt(s.skip(1), 0x8000_0000) {
            Some(v) => Some(-v),
            None => None,
        }
    } else if s.len() > 0 && s[0] == '+' {
        spec_digits_opt(s.skip(1), 0x7fff_ffff)
    } else {
        spec_digits_opt(s, 0x7fff_ffff)
    }
}

/// The unsigned-32-bit reading of a string: an optional `+` followed by
/// digits, `None` when malformed or out of range.
pub open spec fn spec_parse_u32(s: Seq<char>) -> Option<int> {
    if s.len() > 0 && s[0] == '+' {
        spec_digits_opt(s.skip(1), 0xffff_ffff)
    } else {
        spec_digits_opt(s, 0xffff_ffff)
    }
}

/// Accumulates the digits of `cs` from position `i` on, up to `bound`.
fn digits_value(cs: &Vec<char>, i: usize, bound: u64) -> (r: Option<u64>)
    requires
        i <= cs@.len(),
        bound <= 0x1_0000_0000,
    ensures
        ({
            let ds = cs@.skip(i as int);
            match r {
                Some(m) => spec_digits_opt(ds, bound as int) == Some(m as int),
                None => spec_digits_opt(ds, bound as int) is None,
            }
        }),
{
    let ghost ds = cs@.skip(i as int);
    let n = cs.len();
    if i >= n {
        return None;
    }
    let mut m: u64 = 0;
    let mut j: usize = i;
    proof {
        assert(ds.take(0) =~= Seq::<char>::empty());
    }
    while j < n
        invariant
            i <= j <= n,
            n == cs@.len(),
            ds == cs@.skip(i as int),
            bound <= 0x1_0000_0000,
            forall|k: int| 0 <= k < j - i ==> spec_is_digit(ds[k]),
            m == spec_digits_val(ds.take(j - i)),
            m <= bound,
        decreases n - j,
    {
        let c = cs[j];
        if !('0' <= c && c <= '9') {
            proof {
                assert(!spec_is_digit(ds[j - i]));
                assert(!spec_all_digits(ds));
            }
            return None;
        }
        let d: u64 = (c as u64) - 48;
        proof {
            assert(ds.take(j - i + 1).drop_last() =~= ds.take(j - i));
            assert(ds.take(j - i + 1).last() == ds[j - i]);
            assert(spec_digit_val(ds[j - i]) == d as int);
        }
        m = m * 10 + d;
        j = j + 1;
        if m > bound {
            proof {
                if spec_all_digits(ds) {
                    lemma_digits_val_lower(ds, j - i);
                }
            }
            return None;
        }
    }
    proof {
        assert(ds.take(n - i) =~= ds);
        assert(spec_all_digits(ds));
    }
    Some(m)
}

/// Parses a signed 32-bit integer as the standard library reads one.
pub fn parse_i32(s: &str) -> (r: Option<i32>)
    ensures
        match r {
            Some(v) => spec_parse_i32(s@) == Some(v as int),
            None => spec_parse_i32(s@) is None,
        },
{
    let cs = chars_of(s);
    let n = cs.len();
    if n > 0 && cs[0] == '-' {
        proof {
            assert(cs@.skip(1) =~= s@.skip(1));
        }
        match digits_value(&cs, 1, 0x8000_0000) {
            Some(m) => {
                let v: i64 = -(m as i64);
                Some(v as i32)
            },
            None => None,
        }
    } else if n > 0 && cs[0] == '+' {
        proof {
            assert(cs@.skip(1) =~= s@.skip(1));
        }
        match digits_value(&cs, 1, 0x7fff_ffff) {
            Some(m) => Some(m as i32),
            None => None,
        }
    } else {
        proof {
            assert(cs@.skip(0) =~= s@);
        }
        match digits_value(&cs, 0, 0x7fff_ffff) {
            Some(m) => Some(m as i32),
            None => None,
        }
    }
}

/// Parses an unsigned 32-bit integer as the standard library reads one.
pub fn parse_u32(s: &str) -> (r: Option<u32>)
    ensures
        match r {
            Some(v) => spec_parse_u32(s@) == Some(v as int),
            None => spec_parse_u32(s@) is None,
        },
{
    let cs = chars_of(s);
    let n = cs.len();
    if n > 0 && cs[0] == '+' {
        proof {
            assert(cs@.skip(1) =~= s@.skip(1));
        }
        match digits_value(&cs, 1, 0xffff_ffff) {
            Some(m) => Some(m as u32),
            None => None,
        }
    } else {
        proof {
            assert(cs@.skip(0) =~= s@);
        }
        match digits_value(&cs, 0, 0xffff_ffff) {
            Some(m) => Some(m as u32),
            None => None,
        }
    }
}

} // verus!
