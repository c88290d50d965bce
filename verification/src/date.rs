use vstd::prelude::*;

verus! {

/// A day of the week.
#[derive(Clone, Copy, Debug, PartialEq, Eq, Structural, Hash)]
pub enum Weekday {
    Monday,
    Tuesday,
    Wednesday,
    Thursday,
    Friday,
    Saturday,
    Sunday,
}

/// A month of the year.
#[derive(Clone, Copy, Debug, PartialEq, Eq, Structural, Hash)]
pub enum Month {
    January,
    February,
    March,
    April,
    May,
    June,
    July,
    August,
    September,
    October,
    November,
    December,
}

/// A calendar day, held as its Julian day number.
///
/// Consecutive days have consecutive numbers, so the day `n` days before
/// `date` is the one numbered `date.julian_day - n`. Which year, month and
/// day of the month a number stands for is the `time` crate's business.
#[derive(Clone, Copy, Debug, PartialEq, Eq, Structural, Hash, PartialOrd, Ord)]
pub struct Date {
    pub julian_day: i32,
}

/// The Julian day number that the `time` crate gives to the proleptic
/// Gregorian date `year`-`month`-`day`, or `None` where it knows no such
/// date. `month` counts from 1.
pub uninterp spec fn julian_day_of(year: i32, month: u8, day: u8) -> Option<i32>;

/// The weekday of the day numbered `julian_day`: day 0 was a Monday.
pub open spec fn weekday_of(julian_day: int) -> Weekday {
    let r = julian_day % 7;
    if r == 0 {
        Weekday::Monday
    } else if r == 1 {
        Weekday::Tuesday
    } else if r == 2 {
        Weekday::Wednesday
    } else if r == 3 {
        Weekday::Thursday
    } else if r == 4 {
        Weekday::Friday
    } else if r == 5 {
        Weekday::Saturday
    } else {
        Weekday::Sunday
    }
}

/// The month numbered `number`, January being 1.
pub open spec fn month_of(number: int) -> Option<Month> {
    if number == 1 {
        Some(Month::January)
    } else if number == 2 {
        Some(Month::February)
    } else if number == 3 {
        Some(Month::March)
    } else if number == 4 {
        Some(Month::April)
    } else if number == 5 {
        Some(Month::May)
    } else if number == 6 {
        Some(Month::June)
    } else if number == 7 {
        Some(Month::July)
    } else if number == 8 {
        Some(Month::August)
    } else if number == 9 {
        Some(Month::September)
    } else if number == 10 {
        Some(Month::October)
    } else if number == 11 {
        Some(Month::November)
    } else if number == 12 {
        Some(Month::December)
    } else {
        None
    }
}

/// Builds a `time::Date` with `time::Month::try_from` and
/// `time::Date::from_calendar_date`, and reads its number with
/// `time::Date::to_julian_day`. The result is `None` where either of the
/// first two refuses its arguments. The contract only names the result.
#[verifier::external_body]
fn calendar_julian_day(year: i32, month: u8, day: u8) -> (julian_day: Option<i32>)
    ensures
        julian_day == julian_day_of(year, month, day),
{
    let month = time::Month::try_from(month).ok()?;
    let date = time::Date::from_calendar_date(year, month, day).ok()?;
    Some(date.to_julian_day())
}

impl Month {
    /// The number of the month, January being 1.
    pub open spec fn spec_number(self) -> u8 {
        match self {
            Month::January => 1,
            Month::February => 2,
            Month::March => 3,
            Month::April => 4,
            Month::May => 5,
            Month::June => 6,
            Month::July => 7,
            Month::August => 8,
            Month::September => 9,
            Month::October => 10,
            Month::November => 11,
            Month::December => 12,
        }
    }

    /// The number of the month, January being 1.
    #[verifier::when_used_as_spec(spec_number)]
    pub fn number(self) -> (n: u8)
        ensures
            n == self.spec_number(),
            month_of(n as int) == Some(self),
    {
        match self {
            Month::January => 1,
            Month::February => 2,
            Month::March => 3,
            Month::April => 4,
            Month::May => 5,
            Month::June => 6,
            Month::July => 7,
            Month::August => 8,
            Month::September => 9,
            Month::October => 10,
            Month::November => 11,
            Month::December => 12,
        }
    }

    /// The month numbered `number`, if `number` is between 1 and 12.
    pub fn from_number(number: u8) -> (month: Option<Month>)
        ensures
            month == month_of(number as int),
    {
        match number {
            1 => Some(Month::January),
            2 => Some(Month::February),
            3 => Some(Month::March),
            4 => Some(Month::April),
            5 => Some(Month::May),
            6 => Some(Month::June),
            7 => Some(Month::July),
            8 => Some(Month::August),
            9 => Some(Month::September),
            10 => Some(Month::October),
            11 => Some(Month::November),
            12 => Some(Month::December),
            _ => None,
        }
    }
}

impl Date {
    /// The day with the given Julian day number.
    pub fn from_julian_day(julian_day: i32) -> (date: Date)
        ensures
            date.julian_day == julian_day,
    {
        Date { julian_day }
    }

    /// The day `year`-`month`-`day` of the calendar, if there is one.
    pub fn from_calendar_date(year: i32, month: Month, day: u8) -> (date: Option<Date>)
        ensures
            date == Date::on(julian_day_of(year, month.spec_number(), day)),
    {
        Date::numbered(calendar_julian_day(year, month.number(), day))
    }

    /// The day that an optional Julian day number stands for.
    pub open spec fn on(julian_day: Option<i32>) -> Option<Date> {
        match julian_day {
            Some(julian_day) => Some(Date { julian_day }),
            None => None,
        }
    }

    /// The day that an optional Julian day number stands for.
    pub fn numbered(julian_day: Option<i32>) -> (date: Option<Date>)
        ensures
            date == Date::on(julian_day),
    {
        match julian_day {
            Some(julian_day) => Some(Date { julian_day }),
            None => None,
        }
    }

    /// The Julian day number of this day.
    pub fn to_julian_day(self) -> (julian_day: i32)
        ensures
            julian_day == self.julian_day,
    {
        self.julian_day
    }

    /// The day of the week on which this day falls.
    pub fn weekday(self) -> (weekday: Weekday)
        ensures
            weekday == weekday_of(self.julian_day as int),
    {
        // 2147483653 is a multiple of 7 that lifts every `i32` above zero.
        let lifted: i64 = self.julian_day as i64 + 2147483653;
        let r: i64 = lifted % 7;
        if r == 0 {
            Weekday::Monday
        } else if r == 1 {
            Weekday::Tuesday
        } else if r == 2 {
            Weekday::Wednesday
        } else if r == 3 {
            Weekday::Thursday
        } else if r == 4 {
            Weekday::Friday
        } else if r == 5 {
            Weekday::Saturday
        } else {
            Weekday::Sunday
        }
    }

    /// The day `days` days after this one, if its number still fits.
    pub fn checked_add_days(self, days: u8) -> (later: Option<Date>)
        ensures
            self.julian_day + days <= i32::MAX ==> later == Some(
                Date { julian_day: (self.julian_day + days) as i32 },
            ),
            self.julian_day + days > i32::MAX ==> later is None,
    {
        let sum: i64 = self.julian_day as i64 + days as i64;
        if sum <= i32::MAX as i64 {
            Some(Date { julian_day: sum as i32 })
        } else {
            None
        }
    }
}

} // verus!
