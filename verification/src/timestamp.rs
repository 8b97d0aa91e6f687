//! Parsing of the fixed timestamp format `YYYY-MM-DD HH:MM:SS,fraction`.
//!
//! The grammar is exact: four year digits, two digits for each other field,
//! the literal separators `-`, ` `, `:` and `,`, and at least one fraction
//! digit.  The value of a well-formed text is the number of seconds since
//! the Unix epoch (proleptic Gregorian calendar, treated as UTC) plus the
//! fraction as nanoseconds, truncated to nanosecond precision.

use vstd::arithmetic::div_mod::lemma_div_nonincreasing;
use vstd::prelude::*;
use vstd::string::StrSliceExecFns;

use crate::error::DatabaseError;

verus! {

/// A point in time: seconds since the Unix epoch and nanoseconds within
/// that second, the shape the transcoder consumes.
#[derive(Clone, Copy, Debug, PartialEq, Eq, Structural)]
pub struct Timespec {
    pub sec: i64,
    pub nsec: i32,
}

/// Seconds since the epoch of the earliest parsable timestamp,
/// `0001-01-01 00:00:00`.
pub const MIN_EPOCH_SEC: i64 = -62_135_596_800;

/// A bound above the seconds of every parsable timestamp (the years stop
/// at four digits).
pub const MAX_EPOCH_SEC: i64 = 253_500_000_000;

impl Timespec {
    /// A timespec the parser can produce: the second lies in the range of
    /// four-digit years and the nanosecond part is a fraction of a second.
    pub open spec fn wf(self) -> bool {
        &&& MIN_EPOCH_SEC <= self.sec <= MAX_EPOCH_SEC
        &&& 0 <= self.nsec < 1_000_000_000
    }
}

pub open spec fn is_dec_digit(c: char) -> bool {
    48 <= c as u32 <= 57
}

pub open spec fn digit_val(c: char) -> int {
    c as u32 - 48
}

pub open spec fn all_digits(s: Seq<char>) -> bool {
    forall|i: int| 0 <= i < s.len() ==> is_dec_digit(#[trigger] s[i])
}

/// The value of a digit string read in base ten.
pub open spec fn digits_val(s: Seq<char>) -> int
    decreases s.len(),
{
    if s.len() == 0 {
        0
    } else {
        digits_val(s.drop_last()) * 10 + digit_val(s.last())
    }
}

pub open spec fn pow10(k: nat) -> int
    decreases k,
{
    if k == 0 {
        1
    } else {
        10 * pow10((k - 1) as nat)
    }
}

/// The literal layout of a timestamp text: digit runs and separators in
/// their fixed places, with one or more fraction digits at the end.
pub open spec fn timestamp_shape(s: Seq<char>) -> bool {
    &&& s.len() >= 21
    &&& all_digits(s.subrange(0, 4))
    &&& s[4] == '-'
    &&& all_digits(s.subrange(5, 7))
    &&& s[7] == '-'
    &&& all_digits(s.subrange(8, 10))
    &&& s[10] == ' '
    &&& all_digits(s.subrange(11, 13))
    &&& s[13] == ':'
    &&& all_digits(s.subrange(14, 16))
    &&& s[16] == ':'
    &&& all_digits(s.subrange(17, 19))
    &&& s[19] == ','
    &&& all_digits(s.subrange(20, s.len() as int))
}

pub open spec fn ts_year(s: Seq<char>) -> int {
    digits_val(s.subrange(0, 4))
}

pub open spec fn ts_month(s: Seq<char>) -> int {
    digits_val(s.subrange(5, 7))
}

pub open spec fn ts_day(s: Seq<char>) -> int {
    digits_val(s.subrange(8, 10))
}

pub open spec fn ts_hour(s: Seq<char>) -> int {
    digits_val(s.subrange(11, 13))
}

pub open spec fn ts_minute(s: Seq<char>) -> int {
    digits_val(s.subrange(14, 16))
}

pub open spec fn ts_second(s: Seq<char>) -> int {
    digits_val(s.subrange(17, 19))
}

pub open spec fn ts_frac(s: Seq<char>) -> Seq<char> {
    s.subrange(20, s.len() as int)
}

pub open spec fn is_leap_year(y: int) -> bool {
    y % 4 == 0 && (y % 100 != 0 || y % 400 == 0)
}

pub open spec fn days_in_month(y: int, m: int) -> int {
    if m == 2 {
        if is_leap_year(y) {
            29
        } else {
            28
        }
    } else if m == 4 || m == 6 || m == 9 || m == 11 {
        30
    } else {
        31
    }
}

/// The calendar fields a well-shaped text must satisfy to denote a day and
/// a time of day.
pub open spec fn fields_valid(s: Seq<char>) -> bool {
    &&& 1 <= ts_year(s)
    &&& 1 <= ts_month(s) <= 12
    &&& 1 <= ts_day(s) <= days_in_month(ts_year(s), ts_month(s))
    &&& ts_hour(s) <= 23
    &&& ts_minute(s) <= 59
    &&& ts_second(s) <= 59
}

/// A text the parser accepts: well shaped and denoting a real calendar day.
pub open spec fn valid_timestamp(s: Seq<char>) -> bool {
    timestamp_shape(s) && fields_valid(s)
}

/// Leap years among the years `1..=y`.
pub open spec fn leap_years_through(y: int) -> int {
    y / 4 - y / 100 + y / 400
}

/// Days from 0001-01-01 to the first day of year `y`.
pub open spec fn days_before_year(y: int) -> int {
    365 * (y - 1) + leap_years_through(y - 1)
}

/// Days of year `y` that lie before the first day of month `m`.
pub open spec fn days_before_month(y: int, m: int) -> int {
    let base: int = if m == 1 {
        0
    } else if m == 2 {
        31
    } else if m == 3 {
        59
    } else if m == 4 {
        90
    } else if m == 5 {
        120
    } else if m == 6 {
        151
    } else if m == 7 {
        181
    } else if m == 8 {
        212
    } else if m == 9 {
        243
    } else if m == 10 {
        273
    } else if m == 11 {
        304
    } else {
        334
    };
    if m > 2 && is_leap_year(y) {
        base + 1
    } else {
        base
    }
}

/// Days between the given day and the Unix epoch; 719162 is the number of
/// days from 0001-01-01 to 1970-01-01.
pub open spec fn days_from_epoch(y: int, m: int, d: int) -> int {
    days_before_year(y) + days_before_month(y, m) + (d - 1) - 719_162
}

/// The seconds-since-epoch value of a well-shaped timestamp text.
pub open spec fn ts_sec(s: Seq<char>) -> int {
    days_from_epoch(ts_year(s), ts_month(s), ts_day(s)) * 86_400 + ts_hour(s) * 3_600
        + ts_minute(s) * 60 + ts_second(s)
}

/// The fraction digits of a well-shaped timestamp text as nanoseconds:
/// digits past the ninth are cut off, shorter runs are scaled up.
pub open spec fn ts_nsec(s: Seq<char>) -> int {
    let fr = ts_frac(s);
    if fr.len() >= 9 {
        digits_val(fr.subrange(0, 9))
    } else {
        digits_val(fr) * pow10((9 - fr.len()) as nat)
    }
}

pub proof fn lemma_pow10_values()
    ensures
        pow10(0) == 1,
        pow10(1) == 10,
        pow10(2) == 100,
        pow10(3) == 1_000,
        pow10(4) == 10_000,
        pow10(5) == 100_000,
        pow10(6) == 1_000_000,
        pow10(7) == 10_000_000,
        pow10(8) == 100_000_000,
        pow10(9) == 1_000_000_000,
{
    reveal_with_fuel(pow10, 11);
}

/// A run of digits reads to a value below ten to the power of its length.
pub proof fn lemma_digits_val_bounds(s: Seq<char>)
    requires
        all_digits(s),
    ensures
        0 <= digits_val(s) < pow10(s.len()),
    decreases s.len(),
{
    if s.len() > 0 {
        assert(all_digits(s.drop_last())) by {
            assert(forall|i: int|
                0 <= i < s.len() - 1 ==> s.drop_last()[i] == #[trigger] s[i]);
        }
        lemma_digits_val_bounds(s.drop_last());
        assert(is_dec_digit(s.last()));
        assert(pow10(s.len()) == 10 * pow10((s.len() - 1) as nat));
    }
}

pub proof fn lemma_pow10_pos(k: nat)
    ensures
        pow10(k) >= 1,
    decreases k,
{
    if k > 0 {
        lemma_pow10_pos((k - 1) as nat);
    }
}

pub proof fn lemma_pow10_mono(a: nat, b: nat)
    requires
        a <= b,
    ensures
        pow10(a) <= pow10(b),
    decreases b,
{
    if a < b {
        lemma_pow10_mono(a, (b - 1) as nat);
        lemma_pow10_pos((b - 1) as nat);
    }
}

pub proof fn lemma_pow10_add(a: nat, b: nat)
    ensures
        pow10(a + b) == pow10(a) * pow10(b),
    decreases a,
{
    if a == 0 {
        lemma_pow10_pos(b);
    } else {
        lemma_pow10_add((a - 1) as nat, b);
        assert(pow10(a + b) == 10 * pow10((a - 1) as nat + b));
        assert(10 * (pow10((a - 1) as nat) * pow10(b)) == (10 * pow10((a - 1) as nat)) * pow10(
            b,
        )) by (nonlinear_arith);
    }
}

/// A fraction of fewer than nine digits, scaled up to nanoseconds, stays
/// below one second.
proof fn lemma_scaled_frac_bound(v: int, k: nat)
    requires
        0 <= v < pow10(k),
        k <= 9,
    ensures
        0 <= v * pow10((9 - k) as nat) < pow10(9),
{
    lemma_pow10_add(k, (9 - k) as nat);
    lemma_pow10_pos((9 - k) as nat);
    assert(0 <= v * pow10((9 - k) as nat) && v * pow10((9 - k) as nat) <= (pow10(k) - 1) * pow10(
        (9 - k) as nat,
    )) by (nonlinear_arith)
        requires
            0 <= v < pow10(k),
            pow10((9 - k) as nat) >= 1,
    ;
    assert((pow10(k) - 1) * pow10((9 - k) as nat) == pow10(k) * pow10((9 - k) as nat) - pow10(
        (9 - k) as nat,
    )) by (nonlinear_arith);
}

fn time_parse_err() -> (e: DatabaseError)
    ensures
        e is TimeParseError,
{
    DatabaseError::time_parse_error("invalid timestamp".to_owned())
}

/// Reads the digit run `s[start..end]` in base ten; `None` exactly when a
/// non-digit stands in that range.
fn parse_digits(s: &str, start: usize, end: usize) -> (r: Option<u64>)
    requires
        start <= end <= s@.len(),
        end - start <= 9,
    ensures
        r is Some <==> all_digits(s@.subrange(start as int, end as int)),
        r is Some ==> r->0 as int == digits_val(s@.subrange(start as int, end as int)),
        r is Some ==> (r->0 as int) < pow10((end - start) as nat),
{
    let mut acc: u64 = 0;
    let mut i: usize = start;
    while i < end
        invariant
            start <= i <= end <= s@.len(),
            end - start <= 9,
            all_digits(s@.subrange(start as int, i as int)),
            acc as int == digits_val(s@.subrange(start as int, i as int)),
            (acc as int) < pow10((i - start) as nat),
        decreases end - i,
    {
        let c = s.get_char(i);
        let u = c as u32;
        if u < 48 || u > 57 {
            proof {
                assert(s@.subrange(start as int, end as int)[i - start] == s@[i as int]);
            }
            return None;
        }
        proof {
            lemma_pow10_values();
            lemma_pow10_mono(((i - start) + 1) as nat, 9);
            let prev = s@.subrange(start as int, i as int);
            let d = s@[i as int];
            assert(s@.subrange(start as int, (i + 1) as int) =~= prev.push(d));
            assert(prev.push(d).drop_last() =~= prev);
            assert(prev.push(d).last() == d);
            assert(digits_val(prev.push(d)) == digits_val(prev) * 10 + digit_val(d));
            assert(pow10(((i - start) + 1) as nat) == 10 * pow10((i - start) as nat));
        }
        acc = acc * 10 + (u - 48) as u64;
        i = i + 1;
    }
    proof {
        assert(s@.subrange(start as int, i as int) =~= s@.subrange(start as int, end as int));
    }
    Some(acc)
}

fn pow10_exec(k: u64) -> (r: u64)
    requires
        k <= 9,
    ensures
        r as int == pow10(k as nat),
{
    proof {
        lemma_pow10_values();
    }
    if k == 0 {
        1
    } else if k == 1 {
        10
    } else if k == 2 {
        100
    } else if k == 3 {
        1_000
    } else if k == 4 {
        10_000
    } else if k == 5 {
        100_000
    } else if k == 6 {
        1_000_000
    } else if k == 7 {
        10_000_000
    } else if k == 8 {
        100_000_000
    } else {
        1_000_000_000
    }
}

fn is_leap_year_exec(y: u64) -> (r: bool)
    ensures
        r == is_leap_year(y as int),
{
    y % 4 == 0 && (y % 100 != 0 || y % 400 == 0)
}

fn days_in_month_exec(y: u64, m: u64) -> (r: u64)
    requires
        1 <= m <= 12,
    ensures
        r as int == days_in_month(y as int, m as int),
        r <= 31,
{
    if m == 2 {
        if is_leap_year_exec(y) {
            29
        } else {
            28
        }
    } else if m == 4 || m == 6 || m == 9 || m == 11 {
        30
    } else {
        31
    }
}

fn days_before_month_exec(y: u64, m: u64) -> (r: u64)
    requires
        1 <= m <= 12,
    ensures
        r as int == days_before_month(y as int, m as int),
        r <= 335,
{
    let base: u64 = if m == 1 {
        0
    } else if m == 2 {
        31
    } else if m == 3 {
        59
    } else if m == 4 {
        90
    } else if m == 5 {
        120
    } else if m == 6 {
        151
    } else if m == 7 {
        181
    } else if m == 8 {
        212
    } else if m == 9 {
        243
    } else if m == 10 {
        273
    } else if m == 11 {
        304
    } else {
        334
    };
    if m > 2 && is_leap_year_exec(y) {
        base + 1
    } else {
        base
    }
}

/// Parses a timestamp text against the fixed format and evaluates it.
/// Returns `Ok` exactly on the texts that `valid_timestamp` accepts, with
/// the value the calendar arithmetic assigns; every rejection is a
/// `TimeParseError`.
pub fn parse_timestamp(s: &str) -> (r: Result<Timespec, DatabaseError>)
    ensures
        r is Ok <==> valid_timestamp(s@),
        r is Ok ==> r->Ok_0.sec as int == ts_sec(s@),
        r is Ok ==> r->Ok_0.nsec as int == ts_nsec(s@),
        r is Ok ==> r->Ok_0.wf(),
        r is Err ==> r->Err_0 is TimeParseError,
{
    proof {
        lemma_pow10_values();
    }
    let len = s.unicode_len();
    if len < 21 {
        return Err(time_parse_err());
    }
    if s.get_char(4) != '-' || s.get_char(7) != '-' || s.get_char(10) != ' ' || s.get_char(13)
        != ':' || s.get_char(16) != ':' || s.get_char(19) != ',' {
        return Err(time_parse_err());
    }
    let year = match parse_digits(s, 0, 4) {
        Some(v) => v,
        None => { return Err(time_parse_err()) },
    };
    let month = match parse_digits(s, 5, 7) {
        Some(v) => v,
        None => { return Err(time_parse_err()) },
    };
    let day = match parse_digits(s, 8, 10) {
        Some(v) => v,
        None => { return Err(time_parse_err()) },
    };
    let hour = match parse_digits(s, 11, 13) {
        Some(v) => v,
        None => { return Err(time_parse_err()) },
    };
    let minute = match parse_digits(s, 14, 16) {
        Some(v) => v,
        None => { return Err(time_parse_err()) },
    };
    let second = match parse_digits(s, 17, 19) {
        Some(v) => v,
        None => { return Err(time_parse_err()) },
    };

    // Read at most nine fraction digits for the value; the rest only have
    // to be digits for the text to be well shaped.
    let frac_end: usize = if len - 20 > 9 {
        29
    } else {
        len
    };
    let frac = match parse_digits(s, 20, frac_end) {
        Some(v) => v,
        None => {
            proof {
                if all_digits(s@.subrange(20, len as int)) {
                    assert(forall|j: int|
                        0 <= j < frac_end - 20 ==> s@.subrange(20, frac_end as int)[j]
                            == #[trigger] s@.subrange(20, len as int)[j]);
                    assert(all_digits(s@.subrange(20, frac_end as int)));
                }
            }
            return Err(time_parse_err());
        },
    };
    let mut i: usize = frac_end;
    while i < len
        invariant
            20 <= frac_end <= i <= len,
            len == s@.len(),
            all_digits(s@.subrange(20, i as int)),
        decreases len - i,
    {
        let c = s.get_char(i);
        let u = c as u32;
        if u < 48 || u > 57 {
            proof {
                assert(s@.subrange(20, len as int)[i - 20] == s@[i as int]);
            }
            return Err(time_parse_err());
        }
        proof {
            assert(s@.subrange(20, (i + 1) as int) =~= s@.subrange(20, i as int).push(
                s@[i as int],
            ));
        }
        i = i + 1;
    }
    proof {
        assert(s@.subrange(20, i as int) =~= s@.subrange(20, len as int));
    }

    // The text is well shaped; now hold the fields to the calendar.
    if year < 1 {
        return Err(time_parse_err());
    }
    if month < 1 || month > 12 {
        return Err(time_parse_err());
    }
    if day < 1 || day > days_in_month_exec(year, month) {
        return Err(time_parse_err());
    }
    if hour > 23 || minute > 59 || second > 59 {
        return Err(time_parse_err());
    }

    // Days from 0001-01-01 to the parsed day, then seconds since the epoch.
    let ym1 = year - 1;
    let q4 = ym1 / 4;
    let q100 = ym1 / 100;
    let q400 = ym1 / 400;
    proof {
        lemma_div_nonincreasing(ym1 as int, 4);
        lemma_div_nonincreasing(ym1 as int, 100);
        lemma_div_nonincreasing(ym1 as int, 400);
        lemma_digits_val_bounds(s@.subrange(0, 4));
    }
    let dby = 365 * ym1 + q4 - q100 + q400;
    let dbm = days_before_month_exec(year, month);
    let dn = dby + dbm + (day - 1);
    let tod = hour * 3_600 + minute * 60 + second;
    let sec: i64 = (dn as i64 - 719_162) * 86_400 + tod as i64;

    let frac_len = frac_end - 20;
    let nsec_u: u64 = if frac_len >= 9 {
        frac
    } else {
        proof {
            lemma_scaled_frac_bound(frac as int, frac_len as nat);
        }
        frac * pow10_exec(9 - frac_len as u64)
    };
    proof {
        if frac_len >= 9 {
            assert(ts_frac(s@).subrange(0, 9) =~= s@.subrange(20, frac_end as int));
        } else {
            assert(ts_frac(s@) =~= s@.subrange(20, frac_end as int));
        }
    }
    Ok(Timespec { sec, nsec: nsec_u as i32 })
}

} // verus!

