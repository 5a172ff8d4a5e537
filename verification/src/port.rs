//! Resolving the listening port from an optional environment string: absent
//! means the default port, a decimal number in range means that port, and
//! anything else is rejected so that startup can fail fast.

use vstd::prelude::*;
use vstd::string::StrSliceExecFns;
use crate::digits::digit_val;
use crate::digits::is_digit;

verus! {

/// The port used when the environment names none.
pub const DEFAULT_PORT: u16 = 8080;

/// Every character of `s` is a decimal digit.
pub open spec fn all_digits(s: Seq<char>) -> bool {
    forall|k: int| 0 <= k < s.len() ==> is_digit(#[trigger] s[k])
}

/// The value of `s` read as a decimal number.
pub open spec fn dec_val(s: Seq<char>) -> int
    decreases s.len(),
{
    if s.len() == 0 {
        0
    } else {
        10 * dec_val(s.drop_last()) + digit_val(s.last())
    }
}

/// What a port string resolves to: its decimal value, if `s` is one or more
/// digits naming a number up to 65535; nothing otherwise.
pub open spec fn spec_parse_port(s: Seq<char>) -> Option<u16> {
    if s.len() > 0 && all_digits(s) && dec_val(s) <= 65535 {
        Some(dec_val(s) as u16)
    } else {
        None
    }
}

proof fn lemma_dec_val_grows(s: Seq<char>, i: int)
    requires
        0 <= i <= s.len(),
        forall|k: int| i <= k < s.len() ==> is_digit(#[trigger] s[k]),
        dec_val(s.take(i)) >= 0,
    ensures
        dec_val(s.take(i)) <= dec_val(s),
        dec_val(s) >= 0,
    decreases s.len() - i,
{
    if i == s.len() {
        assert(s.take(i) =~= s);
    } else {
        let s2 = s.drop_last();
        assert(s.take(i) =~= s2.take(i));
        lemma_dec_val_grows(s2, i);
        assert(is_digit(s[s.len() - 1]));
    }
}

/// The port named by `s`, exactly as `spec_parse_port` states: the decimal
/// value of a digit string that fits a 16-bit port, or nothing.
pub fn parse_port(s: &str) -> (r: Option<u16>)
    ensures
        r == spec_parse_port(s@),
{
    let n = s.unicode_len();
    if n == 0 {
        return None;
    }
    let mut i: usize = 0;
    let mut val: u32 = 0;
    while i < n
        invariant
            i <= n,
            n == s@.len(),
            val == dec_val(s@.take(i as int)),
            val <= 65535,
            forall|k: int| 0 <= k < i ==> is_digit(#[trigger] s@[k]),
        decreases n - i,
    {
        let c = s.get_char(i);
        let u = c as u32;
        if !(48 <= u && u <= 57) {
            assert(!all_digits(s@));
            return None;
        }
        let d = u - 48;
        let next: u32 = 10 * val + d;
        assert(s@.take(i + 1).drop_last() =~= s@.take(i as int));
        assert(s@.take(i + 1).last() == s@[i as int]);
        if next > 65535 {
            proof {
                if all_digits(s@) {
                    lemma_dec_val_grows(s@, i + 1);
                }
            }
            return None;
        }
        val = next;
        i = i + 1;
    }
    assert(s@.take(n as int) =~= s@);
    Some(val as u16)
}

/// The port the server should use, given the optional environment value:
/// the default port when the variable is absent, the named port when the
/// value is a decimal number in range, and nothing — startup must fail —
/// when the value is malformed.
pub fn resolve_port(env_value: Option<&str>) -> (r: Option<u16>)
    ensures
        env_value is None ==> r == Some(DEFAULT_PORT),
        env_value matches Some(s) ==> r == spec_parse_port(s@),
{
    match env_value {
        None => Some(DEFAULT_PORT),
        Some(s) => parse_port(s),
    }
}

} // verus!
