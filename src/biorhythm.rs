use vstd::prelude::*;

use crate::text::{decimal, decimal_string, parse_i32, parse_u32, parsed_i32, parsed_u32};
use vstd::arithmetic::div_mod::{lemma_fundamental_div_mod, lemma_fundamental_div_mod_converse};

verus! {

/// True when `year` is a leap year of the Gregorian calendar.
pub open spec fn is_leap_year(year: int) -> bool {
    (year % 4 == 0 && year % 100 != 0) || year % 400 == 0
}

/// Number of days in `month` (1 to 12) of `year`.
pub open spec fn month_length(year: int, month: int) -> int {
    if month == 2 {
        if is_leap_year(year) {
            29
        } else {
            28
        }
    } else if month == 4 || month == 6 || month == 9 || month == 11 {
        30
    } else {
        31
    }
}

/// Returns how many days `month` has in `year`.
pub fn days_in_month(year: i32, month: u32) -> (r: u32)
    ensures
        r == month_length(year as int, month as int),
{
    if month == 2 {
        if (year % 4 == 0 && year % 100 != 0) || year % 400 == 0 {
            29
        } else {
            28
        }
    } else if month == 4 || month == 6 || month == 9 || month == 11 {
        30
    } else {
        31
    }
}

/// The first rule that the date `year`-`month`-`day` breaks, as its message;
/// none when the date is valid.
pub open spec fn date_error(year: int, month: int, day: int) -> Option<Seq<char>> {
    if year < 1900 || year > 2100 {
        Some("Year must be between 1900 and 2100"@)
    } else if month < 1 || month > 12 {
        Some("Month must be between 1 and 12"@)
    } else if day < 1 || day > 31 {
        Some("Day must be between 1 and 31"@)
    } else if day > month_length(year, month) {
        Some(
            "Invalid day for month "@ + decimal(month as nat) + ". Maximum is "@ + decimal(
                month_length(year, month) as nat,
            ),
        )
    } else {
        None
    }
}

/// Checks a birth date; on failure returns the message of the first rule broken.
pub fn validate_date(year: i32, month: u32, day: u32) -> (r: Result<(), String>)
    ensures
        match r {
            Ok(()) => date_error(year as int, month as int, day as int) is None,
            Err(message) => date_error(year as int, month as int, day as int) == Some(message@),
        },
{
    if year < 1900 || year > 2100 {
        return Err(String::from_str("Year must be between 1900 and 2100"));
    }
    if month < 1 || month > 12 {
        return Err(String::from_str("Month must be between 1 and 12"));
    }
    if day < 1 || day > 31 {
        return Err(String::from_str("Day must be between 1 and 31"));
    }
    let max_days = days_in_month(year, month);
    if day > max_days {
        let mut message = String::from_str("Invalid day for month ");
        let m = decimal_string(month);
        message.append(m.as_str());
        message.append(". Maximum is ");
        let d = decimal_string(max_days);
        message.append(d.as_str());
        return Err(message);
    }
    Ok(())
}

/// A calendar date.
#[derive(Clone, Copy, Debug, PartialEq, Eq, Structural)]
pub struct CalendarDate {
    pub year: i32,
    pub month: u32,
    pub day: u32,
}

impl CalendarDate {
    /// The date's day number in the simplified calendar.
    pub open spec fn day_number(self) -> int {
        simple_day_number(self.year as int, self.month as int, self.day as int)
    }
}

/// Day number in a simplified calendar where every month has 30 days and
/// every year 365.
pub open spec fn simple_day_number(year: int, month: int, day: int) -> int {
    year * 365 + month * 30 + day
}

/// What parsing the three text fields of a date and checking it gives: the
/// date, or the message of the first problem found.
pub open spec fn date_fields_outcome(year: Seq<char>, month: Seq<char>, day: Seq<char>) -> Result<
    CalendarDate,
    Seq<char>,
> {
    match parsed_i32(year) {
        None => Err("Year must be a valid number"@),
        Some(y) => match parsed_u32(month) {
            None => Err("Month must be a valid number"@),
            Some(m) => match parsed_u32(day) {
                None => Err("Day must be a valid number"@),
                Some(d) => match date_error(y as int, m as int, d as int) {
                    Some(message) => Err(message),
                    None => Ok(CalendarDate { year: y, month: m, day: d }),
                },
            },
        },
    }
}

/// Reads a date from its three text fields and checks it, stopping at the
/// first problem.
pub fn validate_date_fields(year: &str, month: &str, day: &str) -> (r: Result<CalendarDate, String>)
    ensures
        match r {
            Ok(date) => date_fields_outcome(year@, month@, day@) == Ok::<CalendarDate, Seq<char>>(
                date,
            ),
            Err(message) => date_fields_outcome(year@, month@, day@) == Err::<
                CalendarDate,
                Seq<char>,
            >(message@),
        },
{
    let y = match parse_i32(year) {
        Some(v) => v,
        None => {
            return Err(String::from_str("Year must be a valid number"));
        },
    };
    let m = match parse_u32(month) {
        Some(v) => v,
        None => {
            return Err(String::from_str("Month must be a valid number"));
        },
    };
    let d = match parse_u32(day) {
        Some(v) => v,
        None => {
            return Err(String::from_str("Day must be a valid number"));
        },
    };
    match validate_date(y, m, d) {
        Ok(()) => Ok(CalendarDate { year: y, month: m, day: d }),
        Err(message) => Err(message),
    }
}

/// Days from `birth` to `reference` in the simplified calendar.
pub fn days_between(birth: CalendarDate, reference: CalendarDate) -> (r: i64)
    ensures
        r == reference.day_number() - birth.day_number(),
{
    let b = birth.year as i64 * 365 + birth.month as i64 * 30 + birth.day as i64;
    let t = reference.year as i64 * 365 + reference.month as i64 * 30 + reference.day as i64;
    t - b
}

/// The day the chart counts to: 1 November 2025.
pub fn reference_date() -> (r: CalendarDate)
    ensures
        r == (CalendarDate { year: 2025, month: 11, day: 1 }),
{
    CalendarDate { year: 2025, month: 11, day: 1 }
}

/// Days from the birth date `year`-`month`-`day` to the reference date.
pub fn days_between_dates(year: i32, month: u32, day: u32) -> (r: i32)
    requires
        i32::MIN <= simple_day_number(2025, 11, 1) - simple_day_number(
            year as int,
            month as int,
            day as int,
        ) <= i32::MAX,
    ensures
        r == simple_day_number(2025, 11, 1) - simple_day_number(year as int, month as int, day as int),
{
    let birth = CalendarDate { year, month, day };
    let d = days_between(birth, reference_date());
    d as i32
}

/// The three biorhythm cycles.
#[derive(Clone, Copy, Debug, PartialEq, Eq, Structural)]
pub enum Cycle {
    Physical,
    Emotional,
    Intellectual,
}

impl Cycle {
    /// Length of one period of the cycle, in days.
    pub open spec fn period(self) -> int {
        match self {
            Cycle::Physical => 23,
            Cycle::Emotional => 28,
            Cycle::Intellectual => 33,
        }
    }

    /// Returns the length of one period of the cycle, in days.
    pub fn period_days(&self) -> (r: u32)
        ensures
            r == self.period(),
    {
        match self {
            Cycle::Physical => 23,
            Cycle::Emotional => 28,
            Cycle::Intellectual => 33,
        }
    }
}

/// Days a chart shows: one period of the longest cycle.
pub const CHART_DAYS: u32 = 33;

/// How far into its current period a cycle of `period` days is on `day`:
/// 0 at the start of every period, whatever the sign of `day`.
pub open spec fn phase(day: int, period: int) -> int {
    day % period
}

/// Returns where `day` falls in a period of `cycle`. The cycle's value on
/// that day is the sine of `2 * pi * phase / period`.
pub fn cycle_phase(day: i64, cycle: Cycle) -> (r: u32)
    ensures
        r == phase(day as int, cycle.period()),
        r < cycle.period(),
{
    let p = cycle.period_days() as i64;
    if day >= 0 {
        (day % p) as u32
    } else {
        let a: i64 = -(day + 1);
        let rem = a % p;
        proof {
            lemma_fundamental_div_mod(a as int, p as int);
            let q = (a as int) / (p as int);
            assert(day as int == (-q - 1) * p + (p - 1 - rem)) by (nonlinear_arith)
                requires
                    a as int == p * q + rem,
                    day as int == -(a as int) - 1,
            ;
            lemma_fundamental_div_mod_converse(day as int, p as int, -q - 1, p - 1 - rem);
        }
        (p - 1 - rem) as u32
    }
}

/// Cycles repeat: a day and the day one period later are at the same phase.
pub proof fn lemma_phase_periodic(day: int, cycle: Cycle)
    ensures
        phase(day + cycle.period(), cycle.period()) == phase(day, cycle.period()),
        phase(0, cycle.period()) == 0,
{
    let p = cycle.period();
    lemma_fundamental_div_mod(day, p);
    let q = day / p;
    let r = day % p;
    assert(day + p == (q + 1) * p + r) by (nonlinear_arith)
        requires
            day == p * q + r,
    ;
    lemma_fundamental_div_mod_converse(day + p, p, q + 1, r);
    lemma_fundamental_div_mod_converse(0, p, 0, 0);
}

/// One day of a chart series.
#[derive(Clone, Copy, Debug, PartialEq, Eq, Structural)]
pub struct DaySample {
    /// Position in the series, from 0.
    pub offset: u32,
    /// Days since birth on this day.
    pub day: i64,
    /// Where the day falls in the cycle's period.
    pub phase: u32,
}

/// The `count` consecutive days of a cycle's chart series, starting at
/// `days_since_birth`.
pub fn sample_series(days_since_birth: i32, cycle: Cycle, count: u32) -> (r: Vec<DaySample>)
    ensures
        r@.len() == count,
        forall|i: int|
            0 <= i < count ==> {
                &&& (#[trigger] r@[i]).offset == i
                &&& r@[i].day == days_since_birth + i
                &&& r@[i].phase == phase(days_since_birth + i, cycle.period())
            },
{
    let mut samples: Vec<DaySample> = Vec::new();
    let mut i: u32 = 0;
    while i < count
        invariant
            i <= count,
            samples@.len() == i,
            forall|k: int|
                0 <= k < i ==> {
                    &&& (#[trigger] samples@[k]).offset == k
                    &&& samples@[k].day == days_since_birth + k
                    &&& samples@[k].phase == phase(days_since_birth + k, cycle.period())
                },
        decreases count - i,
    {
        let day = days_since_birth as i64 + i as i64;
        let ph = cycle_phase(day, cycle);
        samples.push(DaySample { offset: i, day, phase: ph });
        i = i + 1;
    }
    samples
}

} // verus!
