//! ASCII decimal digits: recognizing them in a string and reading the small
//! fixed-width numbers that date-times and port values are written with.

use vstd::prelude::*;
use vstd::string::StrSliceExecFns;

verus! {

/// `c` is an ASCII decimal digit.
pub open spec fn is_digit(c: char) -> bool {
    48 <= c as int && c as int <= 57
}

/// The numeric value of an ASCII decimal digit.
pub open spec fn digit_val(c: char) -> int {
    c as int - 48
}

/// The `n` characters of `s` starting at position `i` are all digits.
pub open spec fn digits_at(s: Seq<char>, i: int, n: int) -> bool {
    forall|k: int| i <= k < i + n ==> is_digit(#[trigger] s[k])
}

/// The value of the two-digit number written at position `i` of `s`.
pub open spec fn two_digit(s: Seq<char>, i: int) -> int {
    10 * digit_val(s[i]) + digit_val(s[i + 1])
}

/// The value of the four-digit number written at position `i` of `s`.
pub open spec fn four_digit(s: Seq<char>, i: int) -> int {
    1000 * digit_val(s[i]) + 100 * digit_val(s[i + 1]) + 10 * digit_val(s[i + 2]) + digit_val(
        s[i + 3],
    )
}

/// Whether the character at position `i` of `s` is a digit.
pub fn digit_at(s: &str, i: usize) -> (r: bool)
    requires
        i < s@.len(),
    ensures
        r == is_digit(s@[i as int]),
{
    let c = s.get_char(i);
    let u = c as u32;
    48 <= u && u <= 57
}

/// Whether the `n` characters of `s` starting at position `i` are all digits.
pub fn digits_in(s: &str, i: usize, n: usize) -> (r: bool)
    requires
        i + n <= s@.len(),
        s@.len() <= usize::MAX,
    ensures
        r == digits_at(s@, i as int, n as int),
{
    let mut k: usize = 0;
    while k < n
        invariant
            k <= n,
            i + n <= s@.len(),
            s@.len() <= usize::MAX,
            forall|t: int| i <= t < i + k ==> is_digit(#[trigger] s@[t]),
        decreases n - k,
    {
        if !digit_at(s, i + k) {
            return false;
        }
        k = k + 1;
    }
    true
}

/// The value of the two-digit number at position `i` of `s`.
pub fn two_digit_val(s: &str, i: usize) -> (v: u32)
    requires
        i + 2 <= s@.len(),
        s@.len() <= usize::MAX,
        digits_at(s@, i as int, 2),
    ensures
        v == two_digit(s@, i as int),
        v <= 99,
{
    let a = s.get_char(i) as u32;
    let b = s.get_char(i + 1) as u32;
    assert(is_digit(s@[i as int]) && is_digit(s@[i + 1]));
    10 * (a - 48) + (b - 48)
}

/// The value of the four-digit number at position `i` of `s`.
pub fn four_digit_val(s: &str, i: usize) -> (v: u32)
    requires
        i + 4 <= s@.len(),
        s@.len() <= usize::MAX,
        digits_at(s@, i as int, 4),
    ensures
        v == four_digit(s@, i as int),
        v <= 9999,
{
    let a = s.get_char(i) as u32;
    let b = s.get_char(i + 1) as u32;
    let c = s.get_char(i + 2) as u32;
    let d = s.get_char(i + 3) as u32;
    assert(is_digit(s@[i as int]) && is_digit(s@[i + 1]) && is_digit(s@[i + 2]) && is_digit(
        s@[i + 3],
    ));
    1000 * (a - 48) + 100 * (b - 48) + 10 * (c - 48) + (d - 48)
}

} // verus!
