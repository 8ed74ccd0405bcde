//! FILETIME values: 64-bit counts of 100-nanosecond ticks since
//! 1601-01-01T00:00:00Z, with a verified conversion to broken-down UTC
//! calendar time.

use vstd::prelude::*;

use vstd::arithmetic::div_mod::lemma_div_is_ordered;

verus! {

/// The proleptic Gregorian leap-year rule.
pub open spec fn is_leap_year(y: int) -> bool {
    y % 4 == 0 && (y % 100 != 0 || y % 400 == 0)
}

pub open spec fn days_in_year(y: int) -> int {
    if is_leap_year(y) {
        366
    } else {
        365
    }
}

/// Days from 1601-01-01 to the first day of year `y`.
pub open spec fn days_before_year(y: int) -> int
    decreases y - 1601,
{
    if y <= 1601 {
        0
    } else {
        days_before_year(y - 1) + days_in_year(y - 1)
    }
}

pub open spec fn days_in_month(y: int, m: int) -> int {
    if m == 2 {
        if is_leap_year(y) {
            29
        } else {
            28
        }
    } else if m == 4 || m == 6 || m == 9 || m == 11 {
        30
    } else if 1 <= m <= 12 {
        31
    } else {
        0
    }
}

/// Days from the first day of year `y` to the first day of its month `m`.
pub open spec fn days_before_month(y: int, m: int) -> int
    decreases m,
{
    if m <= 1 {
        0
    } else {
        days_before_month(y, m - 1) + days_in_month(y, m - 1)
    }
}

proof fn lemma_days_before_year_grows(y: int)
    requires
        1601 <= y,
    ensures
        days_before_year(y) >= y - 1601,
    decreases y - 1601,
{
    if y > 1601 {
        lemma_days_before_year_grows(y - 1);
    }
}

proof fn lemma_year_days(y: int)
    ensures
        days_before_month(y, 13) == days_in_year(y),
{
    reveal_with_fuel(days_before_month, 14);
}

/// A broken-down UTC calendar time.
#[derive(Clone, Copy, Debug, PartialEq, Eq, Structural)]
pub struct DateTime {
    pub year: u32,
    pub month: u8,
    pub day: u8,
    pub hour: u8,
    pub minute: u8,
    pub second: u8,
}

/// A 64-bit count of 100-ns intervals since 1601-01-01T00:00:00Z; zero
/// means the time is unset.
#[derive(Clone, Copy, Debug, PartialEq, Eq, Structural)]
pub struct FileTime {
    raw: u64,
}

impl View for FileTime {
    type V = u64;

    closed spec fn view(&self) -> u64 {
        self.raw
    }
}

impl Default for FileTime {
    /// The unset time, raw value zero.
    fn default() -> (r: Self)
        ensures
            r@ == 0,
    {
        FileTime { raw: 0 }
    }
}

fn days_in_year_exec(y: u32) -> (r: u64)
    ensures
        r == days_in_year(y as int),
{
    if y % 4 == 0 && (y % 100 != 0 || y % 400 == 0) {
        366
    } else {
        365
    }
}

fn days_in_month_exec(y: u32, m: u8) -> (r: u64)
    ensures
        r == days_in_month(y as int, m as int),
{
    if m == 2 {
        if y % 4 == 0 && (y % 100 != 0 || y % 400 == 0) {
            29
        } else {
            28
        }
    } else if m == 4 || m == 6 || m == 9 || m == 11 {
        30
    } else if 1 <= m && m <= 12 {
        31
    } else {
        0
    }
}

impl FileTime {
    /// Wraps a raw tick count.
    pub fn from_u64(raw: u64) -> (r: Self)
        ensures
            r@ == raw,
    {
        FileTime { raw }
    }

    /// The raw tick count back; together with `from_u64` this is the
    /// identity on every 64-bit value.
    pub fn to_u64(&self) -> (r: u64)
        ensures
            r == self@,
    {
        self.raw
    }

    /// The calendar time `1601-01-01T00:00:00Z + self@ * 100ns`, rounded
    /// down to whole seconds: the returned fields are the unique valid
    /// Gregorian date and time-of-day whose distance from the epoch equals
    /// the tick count's whole days and seconds.
    pub fn datetime(&self) -> (r: DateTime)
        ensures
            ({
                let total_secs = self@ as int / 10_000_000;
                let days = total_secs / 86400;
                let secs = total_secs % 86400;
                &&& 1601 <= r.year
                &&& 1 <= r.month <= 12
                &&& 1 <= r.day <= days_in_month(r.year as int, r.month as int)
                &&& days_before_year(r.year as int) + days_before_month(
                    r.year as int,
                    r.month as int,
                ) + (r.day - 1) == days
                &&& r.hour == secs / 3600
                &&& r.minute == (secs % 3600) / 60
                &&& r.second == secs % 60
            }),
    {
        let total_secs: u64 = self.raw / 10_000_000;
        let days: u64 = total_secs / 86400;
        let secs: u64 = total_secs % 86400;
        proof {
            lemma_div_is_ordered(total_secs as int, 1_844_674_407_370int, 86400);
            lemma_div_is_ordered(self.raw as int, u64::MAX as int, 10_000_000);
            assert(days <= 21_350_398);
        }
        let hour = (secs / 3600) as u8;
        let minute = ((secs % 3600) / 60) as u8;
        let second = (secs % 60) as u8;

        let mut y: u32 = 1601;
        let mut rem: u64 = days;
        loop
            invariant
                1601 <= y,
                days_before_year(y as int) + rem == days,
                days <= 21_350_398,
            ensures
                days_before_year(y as int) + rem == days,
                rem < days_in_year(y as int),
                1601 <= y,
            decreases rem,
        {
            proof {
                lemma_days_before_year_grows(y as int);
            }
            let dy = days_in_year_exec(y);
            if rem < dy {
                break ;
            }
            rem = rem - dy;
            y = y + 1;
        }

        let ghost rem0 = rem as int;
        let mut m: u8 = 1;
        loop
            invariant
                1 <= m <= 12,
                days_before_month(y as int, m as int) + rem == rem0,
                rem0 < days_in_year(y as int),
                rem0 <= 366,
            ensures
                1 <= m <= 12,
                days_before_month(y as int, m as int) + rem == rem0,
                rem < days_in_month(y as int, m as int),
            decreases 12 - m,
        {
            let dm = days_in_month_exec(y, m);
            if rem < dm {
                break ;
            }
            if m == 12 {
                proof {
                    lemma_year_days(y as int);
                    assert(days_before_month(y as int, 13) == days_before_month(y as int, 12)
                        + days_in_month(y as int, 12));
                    assert(false);
                }
            }
            rem = rem - dm;
            m = m + 1;
        }

        let day = (rem + 1) as u8;
        DateTime { year: y, month: m, day, hour, minute, second }
    }
}

} // verus!
