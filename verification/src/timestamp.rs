//! A minimal RFC 3339 / ISO-8601 timestamp reader for `updated_at` stamps
//! such as `2024-03-05T12:30:00Z`, or plain Unix seconds.
use vstd::prelude::*;

use crate::text::{
    self, chars_of, find_char_exec, parse_i64_exec, parse_u64_exec, slice_chars,
    trim_chars, trim_end_matches_exec,
};

verus! {

/// The `n`-th piece of `s` split on `c` (`str::split(c).nth(n)`).
pub open spec fn nth_piece(s: Seq<char>, c: char, n: nat) -> Option<Seq<char>>
    decreases n,
{
    match text::split_once(s, c) {
        Some(parts) => if n == 0 {
            Some(parts.0)
        } else {
            nth_piece(parts.1, c, (n - 1) as nat)
        },
        None => if n == 0 {
            Some(s)
        } else {
            None
        },
    }
}

pub open spec fn is_seconds_end(c: char) -> bool {
    c == '.' || c == '+' || c == '-'
}

/// Index of the first `.`, `+` or `-` at or after `i` (or the length).
pub open spec fn seconds_end(s: Seq<char>, i: int) -> int
    decreases s.len() - i,
{
    if i < 0 || i >= s.len() {
        s.len() as int
    } else if is_seconds_end(s[i]) {
        i
    } else {
        seconds_end(s, i + 1)
    }
}

/// Days since 1970-01-01 of a proleptic Gregorian date (civil-from-days
/// inverse, with March as the first month of the computational year).
pub open spec fn civil_days(year: int, month: int, day: int) -> int {
    let y = if month <= 2 {
        year - 1
    } else {
        year
    };
    let era = y / 400;
    let yoe = y - era * 400;
    let mp = if month > 2 {
        month - 3
    } else {
        month + 9
    };
    let doy = (153 * mp + 2) / 5 + day - 1;
    let doe = yoe * 365 + yoe / 4 - yoe / 100 + doy;
    era * 146097 + doe - 719468
}

pub struct StampFields {
    pub year: i64,
    pub month: u64,
    pub day: u64,
    pub hour: u64,
    pub minute: u64,
    pub second: u64,
}

pub open spec fn in_range(f: StampFields) -> bool {
    1 <= f.month <= 12 && 1 <= f.day <= 31 && f.hour <= 23 && f.minute <= 59 && f.second <= 59
}

/// The date and time fields of a `YYYY-MM-DDTHH:MM[:SS[.frac|offset]]`
/// stamp (trailing `Z`s dropped, extra `-`/`:` pieces ignored), when each
/// parses and lies in range.
pub open spec fn stamp_fields(value: Seq<char>) -> Option<StampFields> {
    let t = text::trim_end_matches(text::trim(value), "Z"@);
    match text::split_once(t, 'T') {
        None => None,
        Some(dt) => {
            let date = dt.0;
            let time = dt.1;
            let sec_str = match nth_piece(time, ':', 2) {
                Some(s) => s,
                None => "0"@,
            };
            match (
                nth_piece(date, '-', 0),
                nth_piece(date, '-', 1),
                nth_piece(date, '-', 2),
                nth_piece(time, ':', 0),
                nth_piece(time, ':', 1),
            ) {
                (Some(ys), Some(ms), Some(ds), Some(hs), Some(mins)) => match (
                    text::parse_i64(ys),
                    text::parse_u64(ms),
                    text::parse_u64(ds),
                    text::parse_u64(hs),
                    text::parse_u64(mins),
                    text::parse_u64(sec_str.subrange(0, seconds_end(sec_str, 0))),
                ) {
                    (Some(y), Some(mo), Some(d), Some(h), Some(mi), Some(s)) => {
                        let f = StampFields {
                            year: y,
                            month: mo,
                            day: d,
                            hour: h,
                            minute: mi,
                            second: s,
                        };
                        if in_range(f) {
                            Some(f)
                        } else {
                            None
                        }
                    },
                    _ => None,
                },
                _ => None,
            }
        },
    }
}

pub open spec fn stamp_days(f: StampFields) -> int {
    civil_days(f.year as int, f.month as int, f.day as int)
}

/// Seconds since the epoch, read as a `u64` (a date before 1970 wraps
/// around, as the `as u64` conversion does).
pub open spec fn stamp_seconds(f: StampFields) -> int {
    let total = stamp_days(f) * 86400 + f.hour * 3600 + f.minute * 60 + f.second;
    if total < 0 {
        total + 0x1_0000_0000_0000_0000
    } else {
        total
    }
}

/// Plain Unix seconds, or the seconds of a well-formed stamp.
pub open spec fn parse_timestamp_spec(value: Seq<char>) -> Option<u64> {
    match text::parse_u64(value) {
        Some(v) => Some(v),
        None => match stamp_fields(value) {
            Some(f) => Some(stamp_seconds(f) as u64),
            None => None,
        },
    }
}

/// The stamp's day count times 86400 fits in an `i64`; the computation
/// overflows otherwise.
pub open spec fn timestamp_fits(value: Seq<char>) -> bool {
    match text::parse_u64(value) {
        Some(_) => true,
        None => match stamp_fields(value) {
            Some(f) => i64::MIN <= stamp_days(f) * 86400 <= i64::MAX,
            None => true,
        },
    }
}

fn nth_piece_exec(s: &Vec<char>, c: char, n: usize) -> (r: Option<Vec<char>>)
    ensures
        r matches Some(v) ==> nth_piece(s@, c, n as nat) == Some(v@),
        r is None ==> nth_piece(s@, c, n as nat) is None,
{
    let mut cur = slice_chars(s, 0, s.len());
    assert(cur@ =~= s@);
    let mut k: usize = 0;
    while k < n
        invariant
            k <= n,
            nth_piece(s@, c, n as nat) == nth_piece(cur@, c, (n - k) as nat),
        decreases n - k,
    {
        match find_char_exec(&cur, c) {
            Some(i) => {
                cur = slice_chars(&cur, i + 1, cur.len());
            },
            None => {
                return None;
            },
        }
        k += 1;
    }
    match find_char_exec(&cur, c) {
        Some(i) => Some(slice_chars(&cur, 0, i)),
        None => Some(cur),
    }
}

fn seconds_prefix(s: &Vec<char>) -> (r: Vec<char>)
    ensures
        r@ == s@.subrange(0, seconds_end(s@, 0)),
{
    let mut i: usize = 0;
    while i < s.len() && !(s[i] == '.' || s[i] == '+' || s[i] == '-')
        invariant
            i <= s.len(),
            seconds_end(s@, 0) == seconds_end(s@, i as int),
        decreases s.len() - i,
    {
        i += 1;
    }
    slice_chars(s, 0, i)
}

proof fn lemma_first_piece_has_no_sep(s: Seq<char>, c: char)
    ensures
        nth_piece(s, c, 0) matches Some(p) ==> (p.len() == 0 || p[0] != c),
{
    text::lemma_find_char(s, c);
    if let Some(i) = text::find_char(s, c) {
        if i > 0 {
            assert(s.subrange(0, i)[0] == s[0]);
        }
    }
}

proof fn lemma_parse_i64_nonneg(s: Seq<char>)
    requires
        s.len() == 0 || s[0] != '-',
    ensures
        text::parse_i64(s) matches Some(v) ==> v >= 0,
{
}

fn stamp_fields_exec(value: &Vec<char>) -> (r: Option<StampFields>)
    ensures
        r == stamp_fields(value@),
        r matches Some(f) ==> f.year >= 0,
{
    let zed = chars_of("Z");
    proof {
        reveal_strlit("Z");
    }
    let t = trim_end_matches_exec(trim_chars(value), &zed);
    let k = match find_char_exec(&t, 'T') {
        Some(k) => k,
        None => return None,
    };
    let date = slice_chars(&t, 0, k);
    let time = slice_chars(&t, k + 1, t.len());
    let sec_str = match nth_piece_exec(&time, ':', 2) {
        Some(s) => s,
        None => chars_of("0"),
    };
    let ys = match nth_piece_exec(&date, '-', 0) {
        Some(p) => p,
        None => return None,
    };
    let ms = match nth_piece_exec(&date, '-', 1) {
        Some(p) => p,
        None => return None,
    };
    let ds = match nth_piece_exec(&date, '-', 2) {
        Some(p) => p,
        None => return None,
    };
    let hs = match nth_piece_exec(&time, ':', 0) {
        Some(p) => p,
        None => return None,
    };
    let mins = match nth_piece_exec(&time, ':', 1) {
        Some(p) => p,
        None => return None,
    };
    proof {
        lemma_first_piece_has_no_sep(date@, '-');
        lemma_parse_i64_nonneg(ys@);
    }
    let y = match parse_i64_exec(&ys) {
        Some(v) => v,
        None => return None,
    };
    let mo = match parse_u64_exec(&ms) {
        Some(v) => v,
        None => return None,
    };
    let d = match parse_u64_exec(&ds) {
        Some(v) => v,
        None => return None,
    };
    let h = match parse_u64_exec(&hs) {
        Some(v) => v,
        None => return None,
    };
    let mi = match parse_u64_exec(&mins) {
        Some(v) => v,
        None => return None,
    };
    let s = match parse_u64_exec(&seconds_prefix(&sec_str)) {
        Some(v) => v,
        None => return None,
    };
    if !(1 <= mo && mo <= 12 && 1 <= d && d <= 31 && h <= 23 && mi <= 59 && s <= 59) {
        return None;
    }
    Some(StampFields { year: y, month: mo, day: d, hour: h, minute: mi, second: s })
}

fn epoch_seconds(f: &StampFields) -> (r: u64)
    requires
        in_range(*f),
        f.year >= 0,
        i64::MIN <= stamp_days(*f) * 86400 <= i64::MAX,
    ensures
        r == stamp_seconds(*f),
{
    let year = f.year;
    let month = f.month;
    let day = f.day;
    let y: i64 = if month <= 2 {
        year - 1
    } else {
        year
    };
    let era: i64 = if y >= 0 {
        y / 400
    } else {
        -1
    };
    assert(era == y / 400);
    let yoe: i64 = y - era * 400;
    let mp: u64 = if month > 2 {
        month - 3
    } else {
        month + 9
    };
    let doy: u64 = (153 * mp + 2) / 5 + day - 1;
    let yoe_u: u64 = yoe as u64;
    let doe: u64 = yoe_u * 365 + yoe_u / 4 - yoe_u / 100 + doy;
    assert(stamp_days(*f) == era * 146097 + doe - 719468);
    let days: i64 = era * 146097 + doe as i64 - 719468;
    let t: i64 = days * 86400;
    let secs: u64 = f.hour * 3600 + f.minute * 60 + f.second;
    if t >= 0 {
        t as u64 + secs
    } else {
        let neg: u64 = (-t) as u64;
        u64::MAX - neg + 1 + secs
    }
}

fn stamp_days_wide(f: &StampFields) -> (r: i128)
    requires
        in_range(*f),
        f.year >= 0,
    ensures
        r == stamp_days(*f),
{
    let year = f.year as i128;
    let month = f.month as i128;
    let day = f.day as i128;
    let y: i128 = if month <= 2 {
        year - 1
    } else {
        year
    };
    let era: i128 = if y >= 0 {
        y / 400
    } else {
        -1
    };
    assert(era == y / 400);
    let yoe: i128 = y - era * 400;
    let mp: i128 = if month > 2 {
        month - 3
    } else {
        month + 9
    };
    let doy: i128 = (153 * mp + 2) / 5 + day - 1;
    let doe: i128 = yoe * 365 + yoe / 4 - yoe / 100 + doy;
    era * 146097 + doe - 719468
}

/// Whether `value` can be read without overflow: plain seconds, a stamp
/// whose day count times 86400 fits in an `i64`, or no stamp at all.
pub fn timestamp_fits_check(value: &str) -> (r: bool)
    ensures
        r == timestamp_fits(value@),
{
    let v = chars_of(value);
    match parse_u64_exec(&v) {
        Some(_) => return true,
        None => {},
    }
    match stamp_fields_exec(&v) {
        Some(f) => {
            let days = stamp_days_wide(&f);
            let lo: i128 = i64::MIN as i128;
            let hi: i128 = i64::MAX as i128;
            lo <= days * 86400 && days * 86400 <= hi
        },
        None => true,
    }
}

/// Plain Unix seconds, or the seconds since the epoch of a
/// `YYYY-MM-DDTHH:MM:SSZ` style stamp.
pub fn chrono_lite_parse_rfc3339(value: &str) -> (r: Result<u64, ()>)
    requires
        timestamp_fits(value@),
    ensures
        r matches Ok(v) ==> parse_timestamp_spec(value@) == Some(v),
        r is Err ==> parse_timestamp_spec(value@) is None,
{
    let v = chars_of(value);
    match parse_u64_exec(&v) {
        Some(n) => return Ok(n),
        None => {},
    }
    match stamp_fields_exec(&v) {
        Some(f) => Ok(epoch_seconds(&f)),
        None => Err(()),
    }
}

} // verus!
