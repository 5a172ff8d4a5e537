//! RFC 3339 date-time strings: the grammar `full-date "T" full-time`, with a
//! real calendar date, a time of day, an optional fraction of a second, and a
//! numeric offset or `Z` — and an executable checker for it.

use vstd::prelude::*;
use vstd::string::StrSliceExecFns;
use crate::digits::digit_at;
use crate::digits::digits_at;
use crate::digits::digits_in;
use crate::digits::four_digit;
use crate::digits::four_digit_val;
use crate::digits::is_digit;
use crate::digits::two_digit;
use crate::digits::two_digit_val;

verus! {

/// `y` is a leap year of the proleptic Gregorian calendar.
pub open spec fn is_leap_year(y: int) -> bool {
    (y % 4 == 0 && y % 100 != 0) || y % 400 == 0
}

/// The number of days of month `m` (1-based) in year `y`.
pub open spec fn days_in_month(y: int, m: int) -> int {
    if m == 2 {
        if is_leap_year(y) {
            29
        } else {
            28
        }
    } else if m == 4 || m == 6 || m == 9 || m == 11 {
        30
    } else {
        31
    }
}

/// Positions 0 through 9 of `s` hold `YYYY-MM-DD`, a real calendar date.
pub open spec fn is_full_date(s: Seq<char>) -> bool {
    &&& digits_at(s, 0, 4)
    &&& s[4] == '-'
    &&& digits_at(s, 5, 2)
    &&& s[7] == '-'
    &&& digits_at(s, 8, 2)
    &&& 1 <= two_digit(s, 5) <= 12
    &&& 1 <= two_digit(s, 8) <= days_in_month(four_digit(s, 0), two_digit(s, 5))
}

/// Positions 11 through 18 of `s` hold `HH:MM:SS`, a time of day
/// (a second of 60 stands for a leap second).
pub open spec fn is_partial_time(s: Seq<char>) -> bool {
    &&& digits_at(s, 11, 2)
    &&& s[13] == ':'
    &&& digits_at(s, 14, 2)
    &&& s[16] == ':'
    &&& digits_at(s, 17, 2)
    &&& two_digit(s, 11) <= 23
    &&& two_digit(s, 14) <= 59
    &&& two_digit(s, 17) <= 60
}

/// Position `i` of `s` starts an offset that ends the string: `Z`, or a sign
/// followed by `HH:MM` with an hour up to 23 and a minute up to 59.
pub open spec fn is_offset_at(s: Seq<char>, i: int) -> bool {
    ||| (i + 1 == s.len() && (s[i] == 'Z' || s[i] == 'z'))
    ||| (i + 6 == s.len() && (s[i] == '+' || s[i] == '-') && digits_at(s, i + 1, 2) && s[i + 3]
        == ':' && digits_at(s, i + 4, 2) && two_digit(s, i + 1) <= 23 && two_digit(s, i + 4) <= 59)
}

/// From position 19 on, `s` holds an optional fraction of a second (`.` then
/// one or more digits) followed by an offset that ends the string.
pub open spec fn is_frac_and_offset(s: Seq<char>) -> bool {
    ||| is_offset_at(s, 19)
    ||| (s[19] == '.' && exists|f: int|
        21 <= f <= s.len() && digits_at(s, 20, f - 20) && #[trigger] is_offset_at(s, f))
}

/// `s` is an RFC 3339 date-time: a calendar date, `T` or `t`, a time of day,
/// an optional fraction of a second, and an offset.
pub open spec fn is_rfc3339(s: Seq<char>) -> bool {
    &&& s.len() >= 20
    &&& is_full_date(s)
    &&& (s[10] == 'T' || s[10] == 't')
    &&& is_partial_time(s)
    &&& is_frac_and_offset(s)
}

/// The number of days of month `m` (1-based) in year `y`.
pub fn days_in_month_of(y: u32, m: u32) -> (d: u32)
    requires
        1 <= m <= 12,
    ensures
        d == days_in_month(y as int, m as int),
{
    if m == 2 {
        if (y % 4 == 0 && y % 100 != 0) || y % 400 == 0 {
            29
        } else {
            28
        }
    } else if m == 4 || m == 6 || m == 9 || m == 11 {
        30
    } else {
        31
    }
}

/// Whether position `i` of `s` starts an offset that ends the string.
fn check_offset(s: &str, i: usize, n: usize) -> (r: bool)
    requires
        i < s@.len(),
        n == s@.len(),
    ensures
        r == is_offset_at(s@, i as int),
{
    let c = s.get_char(i);
    if c == 'Z' || c == 'z' {
        return i + 1 == n;
    }
    if !(c == '+' || c == '-') {
        return false;
    }
    if n - i != 6 {
        return false;
    }
    if !digits_in(s, i + 1, 2) {
        return false;
    }
    if s.get_char(i + 3) != ':' {
        return false;
    }
    if !digits_in(s, i + 4, 2) {
        return false;
    }
    two_digit_val(s, i + 1) <= 23 && two_digit_val(s, i + 4) <= 59
}

/// Whether `s` is an RFC 3339 date-time, exactly as `is_rfc3339` states.
pub fn check_rfc3339(s: &str) -> (r: bool)
    ensures
        r == is_rfc3339(s@),
{
    let n = s.unicode_len();
    if n < 20 {
        return false;
    }
    if !digits_in(s, 0, 4) {
        return false;
    }
    if s.get_char(4) != '-' {
        return false;
    }
    if !digits_in(s, 5, 2) {
        return false;
    }
    if s.get_char(7) != '-' {
        return false;
    }
    if !digits_in(s, 8, 2) {
        return false;
    }
    let year = four_digit_val(s, 0);
    let month = two_digit_val(s, 5);
    if month < 1 || month > 12 {
        return false;
    }
    let day = two_digit_val(s, 8);
    if day < 1 || day > days_in_month_of(year, month) {
        return false;
    }
    let t = s.get_char(10);
    if !(t == 'T' || t == 't') {
        return false;
    }
    if !digits_in(s, 11, 2) {
        return false;
    }
    if s.get_char(13) != ':' {
        return false;
    }
    if !digits_in(s, 14, 2) {
        return false;
    }
    if s.get_char(16) != ':' {
        return false;
    }
    if !digits_in(s, 17, 2) {
        return false;
    }
    if two_digit_val(s, 11) > 23 {
        return false;
    }
    if two_digit_val(s, 14) > 59 {
        return false;
    }
    if two_digit_val(s, 17) > 60 {
        return false;
    }
    let c19 = s.get_char(19);
    if !(c19 == '.') {
        return check_offset(s, 19, n);
    }
    if n < 22 || !digit_at(s, 20) {
        assert(!is_frac_and_offset(s@)) by {
            assert forall|f: int|
                21 <= f <= s@.len() && digits_at(s@, 20, f - 20) implies !is_offset_at(
                s@,
                f,
            ) by {
                assert(is_digit(s@[20]));
            }
        }
        return false;
    }
    let mut f: usize = 21;
    while f < n && digit_at(s, f)
        invariant
            21 <= f <= n,
            n == s@.len(),
            digits_at(s@, 20, f - 20),
        decreases n - f,
    {
        f = f + 1;
    }
    if f == n {
        assert(!is_frac_and_offset(s@)) by {
            assert forall|f2: int|
                21 <= f2 <= s@.len() && digits_at(s@, 20, f2 - 20) implies !is_offset_at(
                s@,
                f2,
            ) by {
                if f2 < s@.len() {
                    assert(is_digit(s@[f2]));
                }
            }
        }
        return false;
    }
    let off = check_offset(s, f, n);
    if off {
        assert(is_frac_and_offset(s@));
        return true;
    }
    assert(!is_frac_and_offset(s@)) by {
        assert forall|f2: int|
            21 <= f2 <= s@.len() && digits_at(s@, 20, f2 - 20) implies !is_offset_at(s@, f2) by {
            if f2 < f {
                assert(is_digit(s@[f2]));
            } else if f2 > f {
                assert(is_digit(s@[f as int]));
            }
        }
    }
    false
}

} // verus!
