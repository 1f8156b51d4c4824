use chrono::Datelike;
use vstd::prelude::*;
use vstd::string::StringExecFns;

verus! {

/// A moment in time as the pipeline reads it: the instant (seconds and
/// nanoseconds since the Unix epoch) and the local calendar date it falls on.
#[derive(Clone, Copy, Debug, PartialEq, Eq, Structural)]
pub struct Timestamp {
    pub secs: i64,
    /// Nanoseconds past `secs`; a leap second may take this past 999,999,999.
    pub nanos: u32,
    pub year: i32,
    pub month: u32,
    pub day: u32,
}

/// A leap year of the proleptic Gregorian calendar.
pub open spec fn is_leap(year: int) -> bool {
    (year % 4 == 0 && year % 100 != 0) || year % 400 == 0
}

/// The number of days in a month (`1..=12`) of a year.
pub open spec fn days_in_month(year: int, month: int) -> int {
    if month == 2 {
        if is_leap(year) {
            29
        } else {
            28
        }
    } else if month == 4 || month == 6 || month == 9 || month == 11 {
        30
    } else {
        31
    }
}

/// The number of days in a month of a year.
pub fn month_length(year: i32, month: u32) -> (n: u32)
    ensures
        n == days_in_month(year as int, month as int),
{
    if month == 2 {
        // shifting by a multiple of 400 years keeps leap years and makes the year non-negative
        let y: u64 = (year as i64 + 2_400_000_000i64) as u64;
        assert(is_leap(year as int) == is_leap(y as int)) by {
            assert(y as int == year as int + 400 * 6_000_000);
        }
        if (y % 4 == 0 && y % 100 != 0) || y % 400 == 0 {
            29
        } else {
            28
        }
    } else if month == 4 || month == 6 || month == 9 || month == 11 {
        30
    } else {
        31
    }
}

/// The start of the Unix epoch.
pub open spec fn unix_epoch() -> Timestamp {
    Timestamp { secs: 0, nanos: 0, year: 1970, month: 1, day: 1 }
}

impl Timestamp {
    pub open spec fn wf(self) -> bool {
        &&& 1 <= self.month <= 12
        &&& 1 <= self.day <= days_in_month(self.year as int, self.month as int)
        &&& self.nanos < 2_000_000_000
    }

    /// `self` lies strictly after `other`.
    pub open spec fn later(self, other: Timestamp) -> bool {
        self.secs > other.secs || (self.secs == other.secs && self.nanos > other.nanos)
    }

    /// `self` and `other` name the same instant.
    pub open spec fn same_instant(self, other: Timestamp) -> bool {
        self.secs == other.secs && self.nanos == other.nanos
    }

    pub fn is_later_than(&self, other: &Timestamp) -> (r: bool)
        ensures
            r == self.later(*other),
    {
        self.secs > other.secs || (self.secs == other.secs && self.nanos > other.nanos)
    }

    /// The start of the Unix epoch, 1970-01-01.
    pub fn epoch() -> (t: Timestamp)
        ensures
            t == unix_epoch(),
    {
        Timestamp { secs: 0, nanos: 0, year: 1970, month: 1, day: 1 }
    }

    pub fn is_valid(&self) -> (r: bool)
        ensures
            r == self.wf(),
    {
        1 <= self.month && self.month <= 12 && 1 <= self.day && self.day <= month_length(self.year, self.month)
            && self.nanos < 2_000_000_000
    }

    /// The current time, read from the system clock in the local time zone.
    pub fn now() -> (t: Timestamp)
        ensures
            t.wf(),
    {
        local_now()
    }
}

/// Relies on chrono's `Local::now` and its accessors: the date is a valid
/// date of the proleptic Gregorian calendar (`month` in 1..=12, `day` within
/// its month), and `timestamp_subsec_nanos` stays below 2,000,000,000.
/// chrono panics when the system clock is before 1970 or the local time-zone
/// data cannot be used; neither depends on an input.
#[verifier::external_body]
fn local_now() -> (t: Timestamp)
    ensures
        t.wf(),
{
    let now = chrono::Local::now();
    Timestamp {
        secs: now.timestamp(),
        nanos: now.timestamp_subsec_nanos(),
        year: now.year(),
        month: now.month(),
        day: now.day(),
    }
}

/// The decimal digit character for `d` in `0..10`.
pub open spec fn digit_char(d: int) -> char {
    seq!['0', '1', '2', '3', '4', '5', '6', '7', '8', '9'][d]
}

/// `n` in two decimal digits, zero-padded (`7` is `"07"`).
pub open spec fn two_digits_of(n: int) -> Seq<char> {
    seq![digit_char(n / 10), digit_char(n % 10)]
}

/// Formats `n` as two zero-padded decimal digits.
pub fn two_digits(n: u32) -> (s: String)
    requires
        n < 100,
    ensures
        s@ == two_digits_of(n as int),
{
    let digits = "0123456789";
    proof {
        reveal_strlit("0123456789");
        assert(digits@ =~= seq!['0', '1', '2', '3', '4', '5', '6', '7', '8', '9']);
    }
    let hi = (n / 10) as usize;
    let lo = (n % 10) as usize;
    let s = String::from_str(digits.substring_char(hi, hi + 1));
    let s = s.concat(digits.substring_char(lo, lo + 1));
    assert(s@ =~= two_digits_of(n as int));
    s
}

} // verus!
