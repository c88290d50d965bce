use crate::date::{weekday_of, Date, Weekday};
use vstd::prelude::*;

verus! {

/// Whether the class is told of the plan after it was read: whenever the
/// plan has changed, and once in the afternoon, in the first quarter of
/// the hour after three, when it has not.
pub open spec fn notifies(changed: bool, hour: u8, minute: u8) -> bool {
    changed || (hour == 15 && minute <= 14)
}

/// Whether the class is told of the plan after it was read at `hour` and
/// `minute` of the day; `changed` says whether the plan has changed.
pub fn should_notify(changed: bool, hour: u8, minute: u8) -> (notify: bool)
    ensures
        notify == notifies(changed, hour, minute),
{
    changed || (hour == 15 && minute <= 14)
}

/// How many days lie between a day and the day whose plan the class is
/// told of at `hour` of it: from three in the afternoon on it is the plan
/// of the next day, and in place of a Saturday or Sunday that of the
/// Monday after it.
pub open spec fn days_ahead(today: int, hour: u8) -> int {
    let ahead: int = if hour >= 15 {
        1
    } else {
        0
    };
    match weekday_of(today + ahead) {
        Weekday::Saturday => ahead + 2,
        Weekday::Sunday => ahead + 1,
        _ => ahead,
    }
}

/// The day whose plan the class is told of at `hour` of the day `today`.
/// `None` where the number of that day does not fit.
pub fn notification_day(today: Date, hour: u8) -> (day: Option<Date>)
    ensures
        today.julian_day + days_ahead(today.julian_day as int, hour) <= i32::MAX ==> day == Some(
            Date { julian_day: (today.julian_day + days_ahead(today.julian_day as int, hour)) as i32 },
        ),
        today.julian_day + days_ahead(today.julian_day as int, hour) > i32::MAX ==> day is None,
        0 <= days_ahead(today.julian_day as int, hour) <= 3,
{
    let first = if hour >= 15 {
        match today.checked_add_days(1) {
            Some(day) => day,
            None => {
                return None;
            },
        }
    } else {
        today
    };
    match first.weekday() {
        Weekday::Saturday => first.checked_add_days(2),
        Weekday::Sunday => first.checked_add_days(1),
        _ => Some(first),
    }
}

/// The seconds from `minute` and `second` of an hour to the start of the
/// next quarter of an hour.
pub open spec fn until_next_quarter(minute: u8, second: u8) -> int {
    (15 - minute % 15) * 60 - second
}

/// The seconds to wait, at `minute` and `second` of an hour, until the
/// next quarter of an hour begins.
pub fn seconds_to_next_quarter(minute: u8, second: u8) -> (seconds: u64)
    requires
        second < 60,
    ensures
        seconds == until_next_quarter(minute, second),
        1 <= seconds <= 900,
{
    let to_next: u64 = 15 - (minute % 15) as u64;
    to_next * 60 - second as u64
}

} // verus!
