use bszet_davinci::change::Change;
use bszet_davinci::date::{Date, Month};
use bszet_davinci::davinci::{
    apply_rows, contains_row, days_of, distinct_rows, included_in, lessons_in_iteration,
    raw_table, same_changes,
};
use bszet_davinci::timetable::{Lesson, Subject};
use bszet_davinci::{Data, Davinci, Row, Timestamp};

fn text(value: &str) -> String {
    value.to_string()
}

fn monday() -> Date {
    Date::from_calendar_date(2023, Month::January, 23).unwrap()
}

fn tuesday() -> Date {
    Date::from_calendar_date(2023, Month::January, 24).unwrap()
}

fn at(nanos: i128) -> Timestamp {
    Timestamp { unix_nanos: nanos }
}

fn cancel(lesson: u8, subject: &str) -> Change {
    Change::new(lesson, "Fällt aus", subject, text("B05"), "Mül", Some(text("krank")))
}

fn row(index: u8, date: Date, class: &str, change: Change, raw: &str) -> Row {
    Row { index, date, class: vec![text(class)], change, raw: vec![text(raw)] }
}

#[test]
fn a_cancelled_lesson() {
    let base = vec![Lesson::new(1, None, Subject::MathBasic, "B05")];
    let rows = vec![row(0, monday(), "IGD21", cancel(1, "MA"), "a")];
    let (lessons, unresolved) = apply_rows(base, &rows, monday());
    assert_eq!(1, lessons.len());
    assert_eq!(1, lessons[0].lesson);
    assert_eq!(Subject::Cancel(Box::new(Subject::MathBasic)), lessons[0].subject);
    assert_eq!(Some(text("B05")), lessons[0].place);
    assert!(unresolved.is_empty());
}

#[test]
fn a_cancellation_of_a_lesson_that_is_not_there() {
    let base = vec![Lesson::new(1, None, Subject::MathBasic, "B05")];
    let rows = vec![row(0, monday(), "IGD21", cancel(1, "CH"), "a")];
    let (lessons, unresolved) = apply_rows(base, &rows, monday());
    assert_eq!(1, lessons.len());
    assert_eq!(Subject::MathBasic, lessons[0].subject);
    assert_eq!(Some(text("B05")), lessons[0].place);
    assert_eq!(None, lessons[0].notice);
    assert_eq!(rows, unresolved);
}

#[test]
fn rows_of_other_days_and_classes_are_passed_over() {
    let base = vec![Lesson::new(1, None, Subject::MathBasic, "B05")];
    let rows = vec![
        row(0, tuesday(), "IGD21", cancel(1, "MA"), "a"),
        row(1, monday(), "IGD22", cancel(1, "MA"), "b"),
        row(2, monday(), "igd21", cancel(1, "CH"), "c"),
    ];
    let (lessons, unresolved) = apply_rows(base, &rows, monday());
    assert_eq!(Subject::MathBasic, lessons[0].subject);
    assert!(unresolved.is_empty());
}

#[test]
fn both_spellings_of_the_class_count() {
    let base = vec![
        Lesson::new(1, None, Subject::MathBasic, "B05"),
        Lesson::new(2, None, Subject::Chemistry, "B9"),
    ];
    let mut second = row(1, monday(), "BGy", cancel(2, "CH"), "b");
    second.class.push(text("IGD 21"));
    let rows = vec![row(0, monday(), "IGD21", cancel(1, "MA"), "a"), second];
    let (lessons, unresolved) = apply_rows(base, &rows, monday());
    assert_eq!(Subject::Cancel(Box::new(Subject::MathBasic)), lessons[0].subject);
    assert_eq!(Subject::Cancel(Box::new(Subject::Chemistry)), lessons[1].subject);
    assert!(unresolved.is_empty());
}

#[test]
fn rows_that_cannot_be_applied_are_left_over() {
    let base = vec![
        Lesson::new(1, None, Subject::MathBasic, "B05"),
        Lesson::new(1, None, Subject::EnglishBasic, "B104"),
    ];
    let other = Change::new(1, "Sondereinsatz", "MA", text("B05"), "Mül", None);
    let ambiguous = Change::new(1, "Vertreten", "CH", text("B9"), "Mül", None);
    let addition = Change::new(5, "Zusatzunterricht", "PHY", text("B1"), "Mül", None);
    let rows = vec![
        row(0, monday(), "IGD21", other, "a"),
        row(1, monday(), "IGD21", ambiguous, "b"),
        row(2, monday(), "IGD21", addition, "c"),
        row(3, monday(), "IGD21", cancel(1, "MA"), "d"),
        row(4, monday(), "IGD21", cancel(1, "MA"), "e"),
    ];
    let (lessons, unresolved) = apply_rows(base, &rows, monday());
    assert_eq!(3, lessons.len());
    assert_eq!(Subject::Cancel(Box::new(Subject::MathBasic)), lessons[0].subject);
    assert_eq!(Subject::EnglishBasic, lessons[1].subject);
    assert_eq!(Subject::Physics, lessons[2].subject);
    let raws: Vec<&str> = unresolved.iter().map(|row| row.raw[0].as_str()).collect();
    assert_eq!(vec!["a", "b", "e"], raws);
}

#[test]
fn lessons_of_a_variant() {
    let lessons = vec![
        Lesson::new(1, None, Subject::MathBasic, "a"),
        Lesson::new(2, Some(1), Subject::Art, "b"),
        Lesson::new(3, Some(2), Subject::History, "c"),
        Lesson::new(4, None, Subject::Physics, "d"),
    ];
    let first: Vec<u8> = lessons_in_iteration(&lessons, 1).iter().map(|lesson| lesson.lesson).collect();
    let second: Vec<u8> = lessons_in_iteration(&lessons, 2).iter().map(|lesson| lesson.lesson).collect();
    let third: Vec<u8> = lessons_in_iteration(&lessons, 3).iter().map(|lesson| lesson.lesson).collect();
    assert_eq!(vec![1, 2, 4], first);
    assert_eq!(vec![1, 3, 4], second);
    assert_eq!(vec![1, 4], third);
}

#[test]
fn the_timetable_of_a_day_of_the_plan() {
    let mut davinci = Davinci::new(text("https://example.org/V_DC_001.html"));
    assert_eq!("https://example.org/V_DC_001.html", davinci.entrypoint());
    let (lessons, unresolved) = davinci.get_applied_timetable(tuesday());
    assert_eq!(7, lessons.len());
    assert!(unresolved.is_empty());

    let rows = vec![
        row(0, tuesday(), "IGD21", cancel(1, "MA"), "a"),
        row(1, tuesday(), "IGD21", cancel(2, "CH"), "b"),
        row(2, monday(), "IGD21", cancel(1, "DEU"), "c"),
    ];
    assert!(davinci.update(rows, at(5)));
    let (lessons, unresolved) = davinci.get_applied_timetable(tuesday());
    assert_eq!(7, lessons.len());
    assert_eq!(1, lessons[0].lesson);
    assert_eq!(Subject::Cancel(Box::new(Subject::MathBasic)), lessons[0].subject);
    assert_eq!(Some(text("B05")), lessons[0].place);
    assert_eq!(Some(text("krank")), lessons[0].notice);
    assert_eq!(Subject::EnglishBasic, lessons[1].subject);
    assert_eq!(Subject::GermanBasic, lessons[2].subject);
    assert_eq!(1, unresolved.len());
    assert_eq!(vec![text("b")], unresolved[0].raw);
}

#[test]
fn the_timetable_follows_the_variant_of_the_week() {
    let davinci = Davinci::new(text("https://example.org/V_DC_001.html"));
    let second_week = Date::from_calendar_date(2021, Month::September, 13).unwrap();
    let first_week = Date::from_calendar_date(2021, Month::September, 20).unwrap();
    let labels = |date: Date| -> Vec<String> {
        davinci.get_applied_timetable(date).0.iter().map(|lesson| lesson.subject.label()).collect()
    };
    assert_eq!(vec!["D", "Ch", "LF 11", "BK", "Lit"], labels(second_week));
    assert_eq!(vec!["D", "Ch", "LK-En", "LK-Ma", "Ge"], labels(first_week));
}

#[test]
fn rows_that_differ_in_their_cells_only_are_no_change() {
    let mut davinci = Davinci::new(text("https://example.org/"));
    assert!(davinci.data().is_none());
    let first = vec![
        row(0, monday(), "IGD21", cancel(1, "MA"), "a"),
        row(1, monday(), "IGD21", cancel(2, "CH"), "b"),
    ];
    assert!(davinci.update(first, at(10)));
    let second = vec![
        row(7, monday(), "IGD21", cancel(2, "CH"), "other cells"),
        row(9, monday(), "IGD21", cancel(1, "MA"), "other cells too"),
        row(3, monday(), "IGD21", cancel(1, "MA"), "again"),
    ];
    assert!(!davinci.update(second, at(20)));
    let data = davinci.data().as_ref().unwrap();
    assert_eq!(at(20), data.last_checked());
    assert_eq!(at(10), data.last_modified());
    let raws: Vec<&str> = data.rows().iter().map(|row| row.raw[0].as_str()).collect();
    assert_eq!(vec!["a", "b"], raws);
    assert_eq!(0, data.rows()[0].index);
}

#[test]
fn other_rows_take_the_place_of_the_plan() {
    let mut davinci = Davinci::new(text("https://example.org/"));
    assert!(davinci.update(vec![row(0, monday(), "IGD21", cancel(1, "MA"), "a")], at(10)));
    let rows = vec![
        row(0, monday(), "IGD21", cancel(1, "MA"), "a"),
        row(1, monday(), "IGD21", cancel(2, "CH"), "b"),
        row(2, monday(), "IGD21", cancel(1, "MA"), "c"),
    ];
    assert!(davinci.update(rows, at(20)));
    let data = davinci.data().as_ref().unwrap();
    assert_eq!(at(20), data.last_checked());
    assert_eq!(at(20), data.last_modified());
    let raws: Vec<&str> = data.rows().iter().map(|row| row.raw[0].as_str()).collect();
    assert_eq!(vec!["a", "b"], raws);
    assert!(davinci.update(vec![row(0, monday(), "IGD21", cancel(1, "MA"), "a")], at(30)));
    assert!(davinci.update(vec![row(0, tuesday(), "IGD21", cancel(1, "MA"), "a")], at(40)));
    assert!(davinci.update(vec![row(0, tuesday(), "IGD22", cancel(1, "MA"), "a")], at(50)));
    assert!(!davinci.update(vec![row(1, tuesday(), "IGD22", cancel(1, "MA"), "b")], at(60)));
    assert!(davinci.update(Vec::new(), at(70)));
    assert!(!davinci.update(Vec::new(), at(80)));
    assert_eq!(at(70), davinci.data().as_ref().unwrap().last_modified());
}

#[test]
fn the_plan_by_itself() {
    let mut stored = None;
    assert!(Data::update(&mut stored, vec![row(0, monday(), "IGD21", cancel(1, "MA"), "a")], at(1)));
    assert!(!Data::update(&mut stored, vec![row(5, monday(), "IGD21", cancel(1, "MA"), "b")], at(2)));
    let mut data = stored.unwrap();
    assert_eq!(at(2), data.last_checked());
    data.touch(at(3));
    assert_eq!(at(3), data.last_checked());
    assert_eq!(at(1), data.last_modified());
    let fresh = Data::new(
        vec![row(0, monday(), "IGD21", cancel(1, "MA"), "a"), row(1, monday(), "IGD21", cancel(1, "MA"), "b")],
        at(9),
    );
    assert_eq!(1, fresh.rows().len());
    assert_eq!(at(9), fresh.last_modified());
}

#[test]
fn rows_are_the_same_when_they_state_the_same_change() {
    let one = row(0, monday(), "IGD21", cancel(1, "MA"), "a");
    assert_eq!(one, row(9, monday(), "IGD21", cancel(1, "MA"), "z"));
    assert_ne!(one, row(0, tuesday(), "IGD21", cancel(1, "MA"), "a"));
    assert_ne!(one, row(0, monday(), "IGD22", cancel(1, "MA"), "a"));
    assert_ne!(one, row(0, monday(), "IGD21", cancel(2, "MA"), "a"));
    let copy = one.clone();
    assert_eq!(one.index, copy.index);
    assert_eq!(one.raw, copy.raw);
    assert_eq!(one, copy);
}

#[test]
fn sets_of_changes() {
    let a = row(0, monday(), "IGD21", cancel(1, "MA"), "a");
    let b = row(1, monday(), "IGD21", cancel(2, "MA"), "b");
    let c = row(2, monday(), "IGD21", cancel(3, "MA"), "c");
    let ab = vec![a.clone(), b.clone()];
    let ba = vec![b.clone(), a.clone(), b.clone()];
    let abc = vec![a.clone(), b.clone(), c.clone()];
    assert!(contains_row(&ab, &a));
    assert!(!contains_row(&ab, &c));
    assert!(included_in(&ab, &abc));
    assert!(!included_in(&abc, &ab));
    assert!(included_in(&Vec::new(), &ab));
    assert!(same_changes(&ab, &ba));
    assert!(!same_changes(&ab, &abc));
    let raws: Vec<String> = distinct_rows(ba).iter().map(|row| row.raw[0].clone()).collect();
    assert_eq!(vec!["b", "a"], raws);
}

#[test]
fn the_table_as_it_was_read() {
    let mut davinci = Davinci::new(text("https://example.org/"));
    assert_eq!(None, davinci.get_raw_table(monday()));
    let rows = vec![
        row(2, monday(), "IGD21", cancel(3, "MA"), "third"),
        row(0, tuesday(), "IGD21", cancel(1, "MA"), "other day"),
        row(0, monday(), "IGD21", cancel(1, "MA"), "first"),
        row(255, monday(), "IGD21", cancel(5, "MA"), "last"),
        row(2, monday(), "IGD22", cancel(4, "MA"), "third too"),
        row(1, monday(), "IGD21", cancel(2, "MA"), "second"),
    ];
    assert!(davinci.update(rows.clone(), at(1)));
    let expected: Vec<Vec<String>> = ["first", "second", "third", "third too", "last"]
        .iter()
        .map(|raw| vec![text(raw)])
        .collect();
    assert_eq!(Some(expected.clone()), davinci.get_raw_table(monday()));
    assert_eq!(expected, raw_table(&rows, monday()));
    assert_eq!(Some(vec![vec![text("other day")]]), davinci.get_raw_table(tuesday()));
    let wednesday = Date::from_calendar_date(2023, Month::January, 25).unwrap();
    assert_eq!(Some(Vec::new()), davinci.get_raw_table(wednesday));
}

#[test]
fn the_days_of_the_plan() {
    let rows = vec![
        row(0, tuesday(), "IGD21", cancel(1, "MA"), "a"),
        row(1, monday(), "IGD21", cancel(1, "MA"), "b"),
        row(2, tuesday(), "IGD21", cancel(2, "MA"), "c"),
        row(3, Date::from_julian_day(-5), "IGD21", cancel(2, "MA"), "d"),
    ];
    assert_eq!(vec![Date::from_julian_day(-5), monday(), tuesday()], days_of(&rows));
    assert!(days_of(&Vec::new()).is_empty());
}
