use bszet_davinci::date::{Date, Month, Weekday};
use bszet_davinci::iteration::get_iteration;

#[test]
fn test_get_iteration() {
    let date1 = Date::from_calendar_date(2021, Month::September, 13).unwrap();
    let date2 = Date::from_calendar_date(2021, Month::September, 14).unwrap();
    let date3 = Date::from_calendar_date(2021, Month::September, 15).unwrap();
    let date4 = Date::from_calendar_date(2021, Month::September, 16).unwrap();
    let date5 = Date::from_calendar_date(2021, Month::September, 17).unwrap();
    let date6 = Date::from_calendar_date(2021, Month::September, 18).unwrap();
    let date7 = Date::from_calendar_date(2021, Month::September, 19).unwrap();
    let date8 = Date::from_calendar_date(2021, Month::September, 20).unwrap();
    let date9 = Date::from_calendar_date(2021, Month::September, 21).unwrap();

    assert_eq!(Some(2), get_iteration(date1));
    assert_eq!(Some(2), get_iteration(date2));
    assert_eq!(Some(2), get_iteration(date3));
    assert_eq!(Some(2), get_iteration(date4));
    assert_eq!(Some(2), get_iteration(date5));
    assert_eq!(Some(2), get_iteration(date6));
    assert_eq!(Some(2), get_iteration(date7));
    assert_eq!(Some(1), get_iteration(date8));
    assert_eq!(Some(1), get_iteration(date9));
}

/// The reference days of the school's calendar and the variant of each.
fn reference_days() -> Vec<(i32, u8, u8, u8)> {
    vec![
        (2021, 9, 6, 1),
        (2021, 9, 13, 2),
        (2021, 9, 20, 1),
        (2021, 9, 27, 2),
        (2021, 10, 4, 1),
        (2021, 10, 11, 2),
        (2021, 11, 1, 1),
        (2021, 11, 8, 2),
        (2021, 11, 15, 1),
        (2021, 11, 22, 2),
        (2021, 11, 29, 1),
        (2021, 12, 6, 2),
        (2021, 12, 13, 1),
        (2021, 12, 20, 2),
        (2022, 1, 3, 1),
        (2022, 1, 10, 2),
        (2022, 1, 17, 1),
        (2022, 1, 24, 2),
        (2022, 1, 31, 1),
        (2022, 2, 7, 2),
        (2022, 2, 28, 1),
        (2022, 3, 7, 2),
        (2022, 3, 14, 1),
        (2022, 3, 21, 2),
        (2022, 3, 28, 1),
        (2022, 4, 4, 2),
        (2022, 4, 11, 1),
        (2022, 4, 25, 2),
        (2022, 5, 2, 1),
        (2022, 5, 9, 2),
        (2022, 5, 16, 1),
        (2022, 5, 23, 2),
        (2022, 5, 30, 1),
        (2022, 6, 7, 2),
        (2022, 6, 13, 1),
        (2022, 6, 20, 2),
        (2022, 6, 27, 1),
        (2022, 7, 4, 2),
        (2022, 7, 11, 1),
        (2022, 8, 29, 1),
        (2022, 9, 5, 2),
        (2022, 9, 12, 1),
        (2022, 9, 19, 2),
        (2022, 9, 26, 1),
        (2022, 10, 3, 2),
        (2022, 10, 10, 1),
        (2022, 10, 31, 2),
        (2022, 11, 7, 1),
        (2022, 11, 14, 2),
        (2022, 11, 21, 1),
        (2022, 11, 28, 2),
        (2022, 12, 5, 1),
        (2022, 12, 12, 2),
        (2022, 12, 19, 1),
        (2023, 1, 2, 2),
        (2023, 1, 9, 1),
        (2023, 1, 16, 2),
        (2023, 1, 23, 1),
        (2023, 1, 30, 2),
        (2023, 2, 6, 1),
        (2023, 2, 20, 2),
        (2023, 3, 6, 1),
        (2023, 3, 13, 2),
        (2023, 3, 20, 1),
        (2023, 3, 27, 2),
        (2023, 4, 3, 1),
        (2023, 4, 17, 2),
        (2023, 4, 24, 1),
        (2023, 5, 1, 2),
        (2023, 5, 8, 1),
        (2023, 5, 15, 2),
        (2023, 5, 22, 1),
        (2023, 5, 29, 2),
        (2023, 6, 5, 1),
        (2023, 6, 12, 2),
        (2023, 6, 19, 1),
        (2023, 6, 26, 2),
        (2023, 7, 3, 1),
        (2023, 8, 21, 1),
        (2023, 8, 28, 2),
        (2023, 9, 4, 1),
        (2023, 9, 11, 2),
        (2023, 9, 18, 1),
        (2023, 9, 25, 2),
        (2023, 10, 16, 1),
        (2023, 10, 23, 2),
        (2023, 10, 30, 1),
        (2023, 11, 6, 2),
        (2023, 11, 13, 1),
        (2023, 11, 20, 2),
        (2023, 11, 27, 1),
        (2023, 12, 4, 2),
        (2023, 12, 11, 1),
        (2023, 12, 18, 2),
        (2024, 1, 1, 1),
        (2024, 1, 8, 2),
        (2024, 1, 15, 1),
        (2024, 1, 22, 2),
        (2024, 1, 29, 1),
        (2024, 2, 5, 2),
        (2024, 2, 26, 1),
        (2024, 3, 4, 2),
        (2024, 3, 11, 1),
        (2024, 3, 18, 2),
        (2024, 3, 25, 1),
        (2024, 4, 8, 2),
        (2024, 4, 15, 1),
        (2024, 4, 22, 2),
        (2024, 4, 29, 1),
        (2024, 5, 6, 2),
        (2024, 5, 13, 1),
        (2024, 5, 20, 2),
        (2024, 5, 27, 1),
        (2024, 6, 3, 2),
        (2024, 6, 10, 1),
        (2024, 6, 17, 2),
    ]
}

fn calendar(year: i32, month: u8, day: u8) -> time::Date {
    time::Date::from_calendar_date(year, time::Month::try_from(month).unwrap(), day).unwrap()
}

#[test]
fn every_reference_day_has_its_iteration() {
    let days = reference_days();
    assert_eq!(116, days.len());
    for (year, month, day, iteration) in days {
        let date = Date::from_julian_day(calendar(year, month, day).to_julian_day());
        assert_eq!(Some(iteration), get_iteration(date), "{year}-{month}-{day}");
    }
}

#[test]
fn only_reference_days_start_an_iteration() {
    let days = reference_days();
    let first = calendar(2021, 9, 6).to_julian_day();
    let last = calendar(2024, 6, 17).to_julian_day();
    for julian_day in (first - 10)..=(last + 10) {
        let found = days.iter().rev().find(|(year, month, day, _)| {
            let reference = calendar(*year, *month, *day).to_julian_day();
            reference <= julian_day && julian_day - reference < 7
        });
        let expected = found.map(|(_, _, _, iteration)| *iteration);
        assert_eq!(expected, get_iteration(Date::from_julian_day(julian_day)), "{julian_day}");
    }
}

#[test]
fn iteration_lasts_six_days_and_then_flips() {
    let monday = Date::from_calendar_date(2021, Month::September, 13).unwrap();
    for offset in 0..7 {
        assert_eq!(Some(2), get_iteration(monday.checked_add_days(offset).unwrap()));
    }
    assert_eq!(Some(1), get_iteration(monday.checked_add_days(7).unwrap()));
}

#[test]
fn no_iteration_outside_the_terms() {
    let before = Date::from_calendar_date(2021, Month::September, 5).unwrap();
    let holidays = Date::from_calendar_date(2021, Month::October, 20).unwrap();
    let after = Date::from_calendar_date(2024, Month::June, 24).unwrap();
    assert_eq!(None, get_iteration(before));
    assert_eq!(None, get_iteration(holidays));
    assert_eq!(None, get_iteration(after));
    assert_eq!(None, get_iteration(Date::from_julian_day(i32::MIN)));
    assert_eq!(None, get_iteration(Date::from_julian_day(i32::MAX)));
}

#[test]
fn the_short_week_of_june_2022() {
    let whit_monday = Date::from_calendar_date(2022, Month::June, 6).unwrap();
    let tuesday = Date::from_calendar_date(2022, Month::June, 7).unwrap();
    let sunday = Date::from_calendar_date(2022, Month::June, 12).unwrap();
    let monday = Date::from_calendar_date(2022, Month::June, 13).unwrap();
    assert_eq!(None, get_iteration(whit_monday));
    assert_eq!(Some(2), get_iteration(tuesday));
    assert_eq!(Some(2), get_iteration(sunday));
    assert_eq!(Some(1), get_iteration(monday));
}

#[test]
fn calendar_dates_have_their_julian_day() {
    assert_eq!(2_451_545, Date::from_calendar_date(2000, Month::January, 1).unwrap().to_julian_day());
    assert_eq!(2_458_485, Date::from_calendar_date(2019, Month::January, 1).unwrap().to_julian_day());
    assert_eq!(2_459_464, Date::from_calendar_date(2021, Month::September, 6).unwrap().to_julian_day());
    assert_eq!(Date { julian_day: 2_458_849 }, Date::from_calendar_date(2019, Month::December, 31).unwrap());
}

#[test]
fn days_that_are_not_in_the_calendar() {
    assert_eq!(None, Date::from_calendar_date(2019, Month::February, 29));
    assert!(Date::from_calendar_date(2020, Month::February, 29).is_some());
    assert_eq!(None, Date::from_calendar_date(2021, Month::April, 31));
    assert_eq!(None, Date::from_calendar_date(2021, Month::April, 0));
    assert_eq!(None, Date::from_calendar_date(10_000, Month::January, 1));
}

#[test]
fn weekdays() {
    let expected = [
        Weekday::Monday,
        Weekday::Tuesday,
        Weekday::Wednesday,
        Weekday::Thursday,
        Weekday::Friday,
        Weekday::Saturday,
        Weekday::Sunday,
    ];
    let monday = Date::from_calendar_date(2023, Month::January, 23).unwrap();
    for (offset, weekday) in expected.iter().enumerate() {
        assert_eq!(*weekday, monday.checked_add_days(offset as u8).unwrap().weekday());
    }
    assert_eq!(Weekday::Tuesday, Date::from_calendar_date(2019, Month::January, 1).unwrap().weekday());
    assert_eq!(Weekday::Monday, Date::from_julian_day(0).weekday());
    assert_eq!(Weekday::Sunday, Date::from_julian_day(-1).weekday());
    assert_eq!(Weekday::Tuesday, Date::from_julian_day(-6).weekday());
    assert_eq!(Weekday::Monday, Date::from_julian_day(-7).weekday());
}

#[test]
fn weekdays_agree_with_the_calendar() {
    for julian_day in 2_459_000..2_459_800 {
        let expected = match time::Date::from_julian_day(julian_day).unwrap().weekday() {
            time::Weekday::Monday => Weekday::Monday,
            time::Weekday::Tuesday => Weekday::Tuesday,
            time::Weekday::Wednesday => Weekday::Wednesday,
            time::Weekday::Thursday => Weekday::Thursday,
            time::Weekday::Friday => Weekday::Friday,
            time::Weekday::Saturday => Weekday::Saturday,
            time::Weekday::Sunday => Weekday::Sunday,
        };
        assert_eq!(expected, Date::from_julian_day(julian_day).weekday());
    }
}

#[test]
fn months_and_their_numbers() {
    assert_eq!(Some(Month::January), Month::from_number(1));
    assert_eq!(Some(Month::December), Month::from_number(12));
    assert_eq!(None, Month::from_number(0));
    assert_eq!(None, Month::from_number(13));
    for number in 1..=12 {
        assert_eq!(number, Month::from_number(number).unwrap().number());
    }
}

#[test]
fn adding_days() {
    let day = Date::from_julian_day(i32::MAX - 1);
    assert_eq!(Some(Date::from_julian_day(i32::MAX)), day.checked_add_days(1));
    assert_eq!(None, day.checked_add_days(2));
}
