//! Base-10 reading of the integer-valued argument tokens.
//!
//! Every numeric field of the command line — pid, sample rate, duration —
//! is a bare unsigned decimal: digits only, no sign, no unit suffix.
//! The spec functions here say which tokens denote a number and which
//! number they denote; the executable readers are proved against them.

use vstd::arithmetic::div_mod::lemma_fundamental_div_mod;
use vstd::arithmetic::mul::lemma_mul_inequality;
use vstd::prelude::*;

verus! {

/// The character is a base-10 digit.
pub open spec fn is_digit_char(c: char) -> bool {
    48 <= c as u32 && c as u32 <= 57
}

/// Numeric value of one digit character.
pub open spec fn digit_val(c: char) -> int {
    c as u32 - 48
}

/// Every character of the sequence is a base-10 digit.
pub open spec fn all_digits(s: Seq<char>) -> bool {
    forall|j: int| 0 <= j < s.len() ==> is_digit_char(#[trigger] s[j])
}

/// Value of a digit sequence read in base 10.
pub open spec fn digits_val(s: Seq<char>) -> int
    decreases s.len(),
{
    if s.len() == 0 {
        0
    } else {
        digits_val(s.drop_last()) * 10 + digit_val(s.last())
    }
}

/// The unsigned integer a token denotes: `None` on an empty token,
/// on any non-digit content, and on overflow past `u64::MAX`.
pub open spec fn u64_of(s: Seq<char>) -> Option<u64> {
    if s.len() > 0 && all_digits(s) && digits_val(s) <= u64::MAX {
        Some(digits_val(s) as u64)
    } else {
        None
    }
}

/// The pid a token denotes: a positive integer that fits the pid type.
pub open spec fn pid_of(s: Seq<char>) -> Option<i32> {
    if s.len() > 0 && all_digits(s) && 1 <= digits_val(s) && digits_val(s) <= i32::MAX {
        Some(digits_val(s) as i32)
    } else {
        None
    }
}

/// The sample rate a token denotes: a positive integer that fits `u32`.
pub open spec fn rate_of(s: Seq<char>) -> Option<u32> {
    if s.len() > 0 && all_digits(s) && 1 <= digits_val(s) && digits_val(s) <= u32::MAX {
        Some(digits_val(s) as u32)
    } else {
        None
    }
}

proof fn lemma_digits_val_nonneg(s: Seq<char>)
    requires
        all_digits(s),
    ensures
        digits_val(s) >= 0,
    decreases s.len(),
{
    if s.len() > 0 {
        assert(all_digits(s.drop_last()));
        lemma_digits_val_nonneg(s.drop_last());
    }
}

/// A digit prefix never denotes more than the whole digit sequence.
proof fn lemma_digits_prefix_le(s: Seq<char>, i: int)
    requires
        all_digits(s),
        0 <= i <= s.len(),
    ensures
        digits_val(s.take(i)) <= digits_val(s),
    decreases s.len() - i,
{
    if i < s.len() {
        assert(s.take(i + 1).drop_last() =~= s.take(i));
        assert(s.take(i + 1).last() == s[i]);
        assert(all_digits(s.take(i)));
        lemma_digits_val_nonneg(s.take(i));
        assert(digits_val(s.take(i + 1)) == digits_val(s.take(i)) * 10 + digit_val(s[i]));
        lemma_digits_prefix_le(s, i + 1);
    } else {
        assert(s.take(i) =~= s);
    }
}

/// Read a token as a base-10 unsigned integer, exactly as `u64_of` says.
pub fn parse_u64_token(s: &str) -> (r: Option<u64>)
    ensures
        r == u64_of(s@),
{
    let n = s.unicode_len();
    if n == 0 {
        return None;
    }
    let mut acc: u64 = 0;
    let mut i: usize = 0;
    while i < n
        invariant
            i <= n,
            n == s@.len(),
            all_digits(s@.take(i as int)),
            acc == digits_val(s@.take(i as int)),
        decreases n - i,
    {
        let c = s.get_char(i);
        let u = c as u32;
        if u < 48 || u > 57 {
            proof {
                assert(!is_digit_char(s@[i as int]));
            }
            return None;
        }
        let d: u64 = (u - 48) as u64;
        proof {
            assert(s@.take(i as int + 1).drop_last() =~= s@.take(i as int));
            assert(s@.take(i as int + 1).last() == s@[i as int]);
            assert(digits_val(s@.take(i as int + 1)) == acc * 10 + d);
            lemma_fundamental_div_mod(u64::MAX - d, 10);
        }
        if acc > (u64::MAX - d) / 10 {
            proof {
                // `acc * 10 + d` would exceed `u64::MAX`, so the whole token
                // does too, wherever its remaining characters are digits.
                lemma_mul_inequality(((u64::MAX - d) / 10) as int + 1, acc as int, 10);
                assert(digits_val(s@.take(i as int + 1)) > u64::MAX);
                if all_digits(s@) {
                    lemma_digits_prefix_le(s@, i as int + 1);
                }
            }
            return None;
        }
        proof {
            lemma_mul_inequality(acc as int, ((u64::MAX - d) / 10) as int, 10);
            assert(acc * 10 + d <= u64::MAX);
        }
        acc = acc * 10 + d;
        i = i + 1;
    }
    proof {
        assert(s@.take(n as int) =~= s@);
    }
    Some(acc)
}

/// Read a pid token, exactly as `pid_of` says.
pub fn parse_pid_token(s: &str) -> (r: Option<i32>)
    ensures
        r == pid_of(s@),
{
    match parse_u64_token(s) {
        None => {
            proof {
                if s@.len() > 0 && all_digits(s@) {
                    assert(digits_val(s@) > u64::MAX);
                }
            }
            None
        },
        Some(v) => {
            proof {
                lemma_digits_val_nonneg(s@);
            }
            if 1 <= v && v <= i32::MAX as u64 {
                Some(v as i32)
            } else {
                None
            }
        },
    }
}

/// Read a sample-rate token, exactly as `rate_of` says.
pub fn parse_rate_token(s: &str) -> (r: Option<u32>)
    ensures
        r == rate_of(s@),
{
    match parse_u64_token(s) {
        None => {
            proof {
                if s@.len() > 0 && all_digits(s@) {
                    assert(digits_val(s@) > u64::MAX);
                }
            }
            None
        },
        Some(v) => {
            proof {
                lemma_digits_val_nonneg(s@);
            }
            if 1 <= v && v <= u32::MAX as u64 {
                Some(v as u32)
            } else {
                None
            }
        },
    }
}

} // verus!
