//! Validation of RFC 3339 timestamps, as they appear in telemetry reports:
//! `YYYY-MM-DDTHH:MM:SS`, an optional fraction of a second, and an offset
//! (`Z` or `+HH:MM`/`-HH:MM`).  The calendar is checked, leap years included.

use vstd::prelude::*;

verus! {

/// A decimal digit.
pub open spec fn is_digit(c: char) -> bool {
    '0' <= c && c <= '9'
}

/// The value of a decimal digit.
pub open spec fn digit_val(c: char) -> int {
    c as int - '0' as int
}

/// The value of the two-digit group at `i`.
pub open spec fn two_digit_val(t: Seq<char>, i: int) -> int {
    digit_val(t[i]) * 10 + digit_val(t[i + 1])
}

/// Whether a year is a leap year: divisible by four, except centuries not
/// divisible by four hundred.
pub open spec fn is_leap_year(y: int) -> bool {
    y % 4 == 0 && (y % 100 != 0 || y % 400 == 0)
}

/// The number of days in a month of a year.
pub open spec fn days_in_month(y: int, m: int) -> int {
    if m == 1 || m == 3 || m == 5 || m == 7 || m == 8 || m == 10 || m == 12 {
        31
    } else if m == 4 || m == 6 || m == 9 || m == 11 {
        30
    } else if is_leap_year(y) {
        29
    } else {
        28
    }
}

/// The end of the run of digits starting at `i`: the first position at or
/// after `i` holding no digit.
pub open spec fn digit_run_end(t: Seq<char>, i: int) -> int
    decreases t.len() - i,
{
    if 0 <= i < t.len() && is_digit(t[i]) {
        digit_run_end(t, i + 1)
    } else {
        i
    }
}

/// Whether positions `i` and `i + 1` hold digits.
pub open spec fn two_digits_at(t: Seq<char>, i: int) -> bool {
    is_digit(t[i]) && is_digit(t[i + 1])
}

/// Whether the suffix of `t` starting at `j` is a valid offset ending the
/// timestamp: `Z` (either case) or a signed `HH:MM` within range.
pub open spec fn offset_valid(t: Seq<char>, j: int) -> bool {
    let n = t.len() as int;
    (j == n - 1 && (t[j] == 'Z' || t[j] == 'z')) || (j == n - 6 && (t[j] == '+' || t[j] == '-')
        && two_digits_at(t, j + 1) && t[j + 3] == ':' && two_digits_at(t, j + 4) && two_digit_val(
        t,
        j + 1,
    ) <= 23 && two_digit_val(t, j + 4) <= 59)
}

/// Whether `t` is a valid RFC 3339 timestamp: date, `T` (either case), time,
/// an optional non-empty fraction, and an offset; every field within its
/// calendar or clock range (seconds may be `60` for a leap second).
pub open spec fn rfc3339_valid(t: Seq<char>) -> bool {
    let n = t.len() as int;
    &&& n >= 20
    &&& is_digit(t[0]) && is_digit(t[1]) && is_digit(t[2]) && is_digit(t[3])
    &&& t[4] == '-' && two_digits_at(t, 5)
    &&& t[7] == '-' && two_digits_at(t, 8)
    &&& (t[10] == 'T' || t[10] == 't')
    &&& two_digits_at(t, 11) && t[13] == ':' && two_digits_at(t, 14) && t[16] == ':'
        && two_digits_at(t, 17)
    &&& {
        let year = digit_val(t[0]) * 1000 + digit_val(t[1]) * 100 + digit_val(t[2]) * 10
            + digit_val(t[3]);
        let month = two_digit_val(t, 5);
        let day = two_digit_val(t, 8);
        &&& 1 <= month <= 12
        &&& 1 <= day <= days_in_month(year, month)
        &&& two_digit_val(t, 11) <= 23
        &&& two_digit_val(t, 14) <= 59
        &&& two_digit_val(t, 17) <= 60
        &&& {
            let j = if t[19] == '.' {
                digit_run_end(t, 20)
            } else {
                19
            };
            &&& (t[19] == '.' ==> j > 20)
            &&& offset_valid(t, j)
        }
    }
}

/// Tests whether a character is a decimal digit.
fn digit(c: char) -> (r: bool)
    ensures
        r == is_digit(c),
{
    '0' <= c && c <= '9'
}

/// The value of the two-digit group at `i`.
fn two_digit(t: &[char], i: usize) -> (r: u32)
    requires
        i + 1 < t@.len(),
        two_digits_at(t@, i as int),
    ensures
        r == two_digit_val(t@, i as int),
        r <= 99,
{
    let d1 = t[i] as u32 - 48;
    let d2 = t[i + 1] as u32 - 48;
    d1 * 10 + d2
}

/// Checks a timestamp against the RFC 3339 grammar, exactly per
/// [`rfc3339_valid`].
pub fn validate_rfc3339(t: &[char]) -> (r: bool)
    ensures
        r == rfc3339_valid(t@),
{
    let n = t.len();
    if n < 20 {
        return false;
    }
    if !(digit(t[0]) && digit(t[1]) && digit(t[2]) && digit(t[3])) {
        return false;
    }
    if !(t[4] == '-' && digit(t[5]) && digit(t[6])) {
        return false;
    }
    if !(t[7] == '-' && digit(t[8]) && digit(t[9])) {
        return false;
    }
    if !(t[10] == 'T' || t[10] == 't') {
        return false;
    }
    if !(digit(t[11]) && digit(t[12]) && t[13] == ':' && digit(t[14]) && digit(t[15]) && t[16]
        == ':' && digit(t[17]) && digit(t[18])) {
        return false;
    }
    let year = (t[0] as u32 - 48) * 1000 + (t[1] as u32 - 48) * 100 + (t[2] as u32 - 48) * 10 + (
    t[3] as u32 - 48);
    let month = two_digit(t, 5);
    let day = two_digit(t, 8);
    if !(1 <= month && month <= 12) {
        return false;
    }
    let leap = year % 4 == 0 && (year % 100 != 0 || year % 400 == 0);
    let dim: u32 = if month == 1 || month == 3 || month == 5 || month == 7 || month == 8 || month
        == 10 || month == 12 {
        31
    } else if month == 4 || month == 6 || month == 9 || month == 11 {
        30
    } else if leap {
        29
    } else {
        28
    };
    assert(dim == days_in_month(year as int, month as int));
    if !(1 <= day && day <= dim) {
        return false;
    }
    if !(two_digit(t, 11) <= 23 && two_digit(t, 14) <= 59 && two_digit(t, 17) <= 60) {
        return false;
    }
    let j: usize = if t[19] == '.' {
        let mut k: usize = 20;
        while k < n && digit(t[k])
            invariant
                20 <= k <= n,
                n == t@.len(),
                digit_run_end(t@, 20) == digit_run_end(t@, k as int),
            decreases n - k,
        {
            k = k + 1;
        }
        assert(digit_run_end(t@, k as int) == k);
        if k == 20 {
            return false;
        }
        k
    } else {
        19
    };
    if j == n - 1 && (t[j] == 'Z' || t[j] == 'z') {
        return true;
    }
    if j == n - 6 && (t[j] == '+' || t[j] == '-') && digit(t[j + 1]) && digit(t[j + 2]) && t[j + 3]
        == ':' && digit(t[j + 4]) && digit(t[j + 5]) && two_digit(t, j + 1) <= 23 && two_digit(
        t,
        j + 4,
    ) <= 59 {
        return true;
    }
    false
}

} // verus!
