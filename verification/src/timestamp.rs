//! Parsing of timestamp text in the standard date-time format
//! `YYYY-MM-DDThh:mm:ss(.fff...)?(Z|+hh:mm|-hh:mm)` into microseconds
//! since the Unix epoch.  A column declared as a timestamp whose text
//! does not match is a fatal data error, not a null cell.

use vstd::prelude::*;
use vstd::string::*;

verus! {

pub open spec fn is_digit(c: char) -> bool {
    '0' <= c && c <= '9'
}

pub open spec fn digit_val(c: char) -> int {
    c as int - 48
}

/// All characters in `[i, j)` are decimal digits.
pub open spec fn digits_at(s: Seq<char>, i: int, j: int) -> bool {
    forall|k: int| i <= k < j ==> is_digit(s[k])
}

/// The number written in `[i, j)`, most significant digit first.
pub open spec fn num_at(s: Seq<char>, i: int, j: int) -> int
    decreases j - i,
{
    if j <= i {
        0
    } else {
        num_at(s, i, j - 1) * 10 + digit_val(s[j - 1])
    }
}

/// The value of a short digit span is non-negative and bounded by
/// its width.
pub proof fn lemma_num_at_bound(s: Seq<char>, i: int, j: int)
    requires
        i <= j,
        digits_at(s, i, j),
    ensures
        0 <= num_at(s, i, j),
        j - i == 0 ==> num_at(s, i, j) == 0,
        j - i == 1 ==> num_at(s, i, j) < 10,
        j - i == 2 ==> num_at(s, i, j) < 100,
        j - i == 3 ==> num_at(s, i, j) < 1000,
        j - i == 4 ==> num_at(s, i, j) < 10000,
    decreases j - i,
{
    if j > i {
        lemma_num_at_bound(s, i, j - 1);
    }
}

pub open spec fn is_leap(y: int) -> bool {
    y % 4 == 0 && (y % 100 != 0 || y % 400 == 0)
}

pub open spec fn days_in_month(y: int, m: int) -> int {
    if m == 2 {
        if is_leap(y) { 29 } else { 28 }
    } else if m == 4 || m == 6 || m == 9 || m == 11 {
        30
    } else {
        31
    }
}

/// Days from the Unix epoch to the civil date `y-m-d` (proleptic
/// Gregorian calendar, year 0 to 9999).
pub open spec fn days_from_civil(y: int, m: int, d: int) -> int {
    let z = y + 400;
    let zp = if m <= 2 { z - 1 } else { z };
    let era = zp / 400;
    let yoe = zp - era * 400;
    let doy = (153 * (if m > 2 { m - 3 } else { m + 9 }) + 2) / 5 + d - 1;
    let doe = yoe * 365 + yoe / 4 - yoe / 100 + doy;
    era * 146097 + doe - 719468 - 146097
}

/// The position after the last consecutive digit at or after `i`.
pub open spec fn digits_end(s: Seq<char>, i: int) -> int
    decreases s.len() - i,
{
    if i < s.len() && is_digit(s[i]) {
        digits_end(s, i + 1)
    } else {
        i
    }
}

/// The end of a digit run never lies before its start.
pub proof fn lemma_digits_end_ge(s: Seq<char>, i: int)
    ensures
        digits_end(s, i) >= i,
    decreases s.len() - i,
{
    if i < s.len() && is_digit(s[i]) {
        lemma_digits_end_ge(s, i + 1);
    }
}

/// Where the seconds fraction ends: just after position 19 when no
/// fraction is present.
pub open spec fn frac_end(s: Seq<char>) -> int {
    if s.len() > 19 && s[19] == '.' {
        digits_end(s, 20)
    } else {
        19
    }
}

/// The fraction digits `[i, end)` scaled to microseconds; `p` is the
/// weight of the digit at `i` and extra digits beyond it are dropped.
pub open spec fn frac_micros_at(s: Seq<char>, i: int, end: int, p: int) -> int
    decreases end - i,
{
    if i >= end || p == 0 {
        0
    } else {
        digit_val(s[i]) * p + frac_micros_at(s, i + 1, end, p / 10)
    }
}

/// A valid timezone suffix beginning at `i`: `Z` (or `z`), or a
/// signed `hh:mm` offset.
pub open spec fn offset_valid(s: Seq<char>, i: int) -> bool {
    (s.len() == i + 1 && (s[i] == 'Z' || s[i] == 'z')) || (s.len() == i + 6 && (s[i] == '+' || s[i]
        == '-') && digits_at(s, i + 1, i + 3) && s[i + 3] == ':' && digits_at(s, i + 4, i + 6)
        && num_at(s, i + 1, i + 3) <= 23 && num_at(s, i + 4, i + 6) <= 59)
}

/// The offset in seconds east of UTC of the timezone suffix at `i`.
pub open spec fn offset_seconds(s: Seq<char>, i: int) -> int {
    if s.len() == i + 1 {
        0
    } else {
        let mag = num_at(s, i + 1, i + 3) * 3600 + num_at(s, i + 4, i + 6) * 60;
        if s[i] == '-' { -mag } else { mag }
    }
}

/// The text is a well-formed date-time: correct punctuation, fields
/// in range, the day valid for the month, and a valid timezone.
pub open spec fn ts_valid(s: Seq<char>) -> bool {
    let fe = frac_end(s);
    s.len() >= 20 && digits_at(s, 0, 4) && s[4] == '-' && digits_at(s, 5, 7) && s[7] == '-'
        && digits_at(s, 8, 10) && (s[10] == 'T' || s[10] == 't') && digits_at(s, 11, 13) && s[13]
        == ':' && digits_at(s, 14, 16) && s[16] == ':' && digits_at(s, 17, 19) && 1 <= num_at(
        s,
        5,
        7,
    ) <= 12 && 1 <= num_at(s, 8, 10) <= days_in_month(num_at(s, 0, 4), num_at(s, 5, 7)) && num_at(
        s,
        11,
        13,
    ) <= 23 && num_at(s, 14, 16) <= 59 && num_at(s, 17, 19) <= 59 && (fe == 19 || fe > 20)
        && offset_valid(s, if fe == 19 { 19 } else { fe })
}

/// The instant named by a valid timestamp text, in microseconds since
/// the Unix epoch.
pub open spec fn ts_micros(s: Seq<char>) -> int {
    let fe = frac_end(s);
    let off = offset_seconds(s, if fe == 19 { 19 } else { fe });
    let days = days_from_civil(num_at(s, 0, 4), num_at(s, 5, 7), num_at(s, 8, 10));
    let secs = days * 86400 + num_at(s, 11, 13) * 3600 + num_at(s, 14, 16) * 60 + num_at(s, 17, 19)
        - off;
    secs * 1000000 + (if fe == 19 {
        0
    } else {
        frac_micros_at(s, 20, fe, 100000)
    })
}

/// Reads the number in `[i, j)`, or nothing when a character there is
/// not a digit.  The span is at most four characters.
fn read_num(s: &str, i: usize, j: usize) -> (r: Option<u64>)
    requires
        i <= j <= s@.len(),
        j - i <= 4,
    ensures
        match r {
            Some(v) => digits_at(s@, i as int, j as int) && v == num_at(s@, i as int, j as int)
                && v < 10000,
            None => !digits_at(s@, i as int, j as int),
        },
{
    let mut v: u64 = 0;
    let mut k = i;
    while k < j
        invariant
            i <= k <= j <= s@.len(),
            j - i <= 4,
            digits_at(s@, i as int, k as int),
            v == num_at(s@, i as int, k as int),
            v < 10000,
        decreases j - k,
    {
        let c = s.get_char(k);
        if c < '0' || c > '9' {
            return None;
        }
        let d = (c as u32) - 48;
        proof {
            lemma_num_at_bound(s@, i as int, k as int);
            assert(v < 1000);
        }
        v = v * 10 + (d as u64);
        k = k + 1;
        proof {
            assert(digits_at(s@, i as int, k as int));
            lemma_num_at_bound(s@, i as int, k as int);
        }
    }
    proof {
        lemma_num_at_bound(s@, i as int, j as int);
    }
    Some(v)
}

/// Days from the epoch to `y-m-d`, for in-range fields.
fn civil_days(y: u64, m: u64, d: u64) -> (r: i64)
    requires
        y <= 9999,
        1 <= m <= 12,
        1 <= d <= 31,
    ensures
        r == days_from_civil(y as int, m as int, d as int),
        -866000 <= r <= 3000000,
{
    let z: u64 = y + 400;
    let zp: u64 = if m <= 2 { z - 1 } else { z };
    let era: u64 = zp / 400;
    let yoe: u64 = zp - era * 400;
    let doy: u64 = (153 * (if m > 2 { m - 3 } else { m + 9 }) + 2) / 5 + d - 1;
    let doe: u64 = yoe * 365 + yoe / 4 - yoe / 100 + doy;
    proof {
        assert(era <= 25);
        assert(yoe <= 399);
        assert(doy <= 400);
        assert(doe <= 146420);
    }
    (era * 146097 + doe) as i64 - 719468 - 146097
}

/// Parses a timestamp text to microseconds since the epoch; a text
/// that is not a well-formed date-time yields nothing.
#[verifier::loop_isolation(false)]
pub fn parse_timestamp(s: &str) -> (r: Option<i64>)
    ensures
        match r {
            Some(m) => ts_valid(s@) && m == ts_micros(s@),
            None => !ts_valid(s@),
        },
{
    let n = s.unicode_len();
    if n < 20 {
        return None;
    }
    let year = match read_num(s, 0, 4) {
        Some(v) => v,
        None => { return None; },
    };
    if s.get_char(4) != '-' {
        return None;
    }
    let month = match read_num(s, 5, 7) {
        Some(v) => v,
        None => { return None; },
    };
    if s.get_char(7) != '-' {
        return None;
    }
    let day = match read_num(s, 8, 10) {
        Some(v) => v,
        None => { return None; },
    };
    let sep = s.get_char(10);
    if sep != 'T' && sep != 't' {
        return None;
    }
    let hour = match read_num(s, 11, 13) {
        Some(v) => v,
        None => { return None; },
    };
    if s.get_char(13) != ':' {
        return None;
    }
    let minute = match read_num(s, 14, 16) {
        Some(v) => v,
        None => { return None; },
    };
    if s.get_char(16) != ':' {
        return None;
    }
    let sec = match read_num(s, 17, 19) {
        Some(v) => v,
        None => { return None; },
    };
    if month < 1 || month > 12 {
        return None;
    }
    if day < 1 || day > days_in_month_exec(year, month) {
        return None;
    }
    if hour > 23 || minute > 59 || sec > 59 {
        return None;
    }

    // The seconds fraction, when present.
    let mut fr: u64 = 0;
    let mut fe: usize = 19;
    if s.get_char(19) == '.' {
        let mut i: usize = 20;
        let mut p: u64 = 100000;
        while i < n && is_digit_exec(s.get_char(i))
            invariant
                20 <= i <= n,
                n == s@.len(),
                digits_at(s@, 20, i as int),
                digits_end(s@, 20) == digits_end(s@, i as int),
                fr + frac_micros_at(s@, i as int, digits_end(s@, 20), p as int)
                    == frac_micros_at(s@, 20, digits_end(s@, 20), 100000),
                fr + 10 * p <= 1000000,
                fr < 1000000,
            decreases n - i,
        {
            let c = s.get_char(i);
            let d = ((c as u32) - 48) as u64;
            proof {
                lemma_digits_end_ge(s@, i + 1);
                assert(is_digit(s@[i as int]));
                assert(digits_end(s@, i as int) == digits_end(s@, i + 1));
                assert(i < digits_end(s@, 20));
                assert(d <= 9);
            }
            if p > 0 {
                proof {
                    assert(10 * p <= 1000000);
                    assert(d * p <= 9 * p) by (nonlinear_arith)
                        requires
                            d <= 9,
                            p >= 0,
                    ;
                }
                fr = fr + d * p;
                proof {
                    assert(p == 10 * (p / 10) + p % 10);
                }
                p = p / 10;
            }
            i = i + 1;
        }
        proof {
            assert(digits_end(s@, i as int) == i);
        }
        if i == 20 {
            return None;
        }
        fe = i;
        proof {
            assert(frac_end(s@) == fe);
        }
    } else {
        proof {
            assert(frac_end(s@) == 19);
        }
    }

    // The timezone suffix.
    let off_idx = fe;
    if off_idx >= n {
        return None;
    }
    let oc = s.get_char(off_idx);
    let off_secs: i64;
    if oc == 'Z' || oc == 'z' {
        if n - off_idx != 1 {
            return None;
        }
        off_secs = 0;
    } else if oc == '+' || oc == '-' {
        if n - off_idx != 6 {
            return None;
        }
        let oh = match read_num(s, off_idx + 1, off_idx + 3) {
            Some(v) => v,
            None => { return None; },
        };
        if s.get_char(off_idx + 3) != ':' {
            return None;
        }
        let om = match read_num(s, off_idx + 4, off_idx + 6) {
            Some(v) => v,
            None => { return None; },
        };
        if oh > 23 || om > 59 {
            return None;
        }
        let mag = (oh * 3600 + om * 60) as i64;
        off_secs = if oc == '-' { -mag } else { mag };
    } else {
        return None;
    }

    let days = civil_days(year, month, day);
    let secs: i64 = days * 86400 + (hour * 3600 + minute * 60 + sec) as i64 - off_secs;
    proof {
        assert(ts_valid(s@));
        assert(-1000000 <= days <= 3000000);
    }
    Some(secs * 1000000 + fr as i64)
}

/// The number of days in a month, for in-range fields.
fn days_in_month_exec(y: u64, m: u64) -> (r: u64)
    requires
        1 <= m <= 12,
    ensures
        r == days_in_month(y as int, m as int),
{
    if m == 2 {
        if (y % 4 == 0 && y % 100 != 0) || y % 400 == 0 {
            29
        } else {
            28
        }
    } else if m == 4 || m == 6 || m == 9 || m == 11 {
        30
    } else {
        31
    }
}

/// Whether a character is a decimal digit.
fn is_digit_exec(c: char) -> (r: bool)
    ensures
        r == is_digit(c),
{
    '0' <= c && c <= '9'
}

} // verus!
