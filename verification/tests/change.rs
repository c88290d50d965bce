use bszet_davinci::change::{
    classify, find_lesson, AmbiguousLesson, Change, ChangeKind, Replacement,
};
use bszet_davinci::timetable::{Lesson, Subject};

fn text(value: &str) -> String {
    value.to_string()
}

fn texts(values: &[&str]) -> Vec<String> {
    values.iter().map(|value| value.to_string()).collect()
}

#[test]
fn replacement_with_both_sides() {
    assert_eq!(
        Replacement { from: Some(text("LK-MA")), to: text("MA") },
        Replacement::try_from("+MA (LK-MA)")
    );
    assert_eq!(
        Replacement { from: Some(text("B204")), to: text("A102") },
        Replacement::try_from("+A102 (B204)")
    );
}

#[test]
fn replacement_without_brackets_is_a_new_value() {
    assert_eq!(Replacement { from: None, to: text("B204") }, Replacement::try_from("B204"));
    assert_eq!(Replacement { from: None, to: text("") }, Replacement::try_from(""));
    assert_eq!(Replacement { from: None, to: text("MA (LK-MA)") }, Replacement::try_from("MA (LK-MA)"));
    assert_eq!(Replacement { from: None, to: text("+MA") }, Replacement::try_from("+MA"));
    assert_eq!(Replacement { from: None, to: text("+MA ()") }, Replacement::try_from("+MA ()"));
}

#[test]
fn replacement_takes_the_widest_match() {
    assert_eq!(
        Replacement { from: Some(text("b")), to: text("") },
        Replacement::try_from("+ (b)")
    );
    assert_eq!(
        Replacement { from: Some(text("c")), to: text("a (b)") },
        Replacement::try_from("+a (b) (c)")
    );
    assert_eq!(
        Replacement { from: Some(text("B1")), to: text("A1") },
        Replacement::try_from("see +A1 (B1) there")
    );
}

#[test]
fn replacement_from_what_was_captured() {
    let groups = Some(vec![Some(text("+a (b)")), Some(text("a")), Some(text("b"))]);
    assert_eq!(
        Replacement { from: Some(text("b")), to: text("a") },
        Replacement::from_captures("+a (b)", groups)
    );
    assert_eq!(Replacement { from: None, to: text("x") }, Replacement::from_captures("x", None));
    assert_eq!(
        Replacement { from: None, to: text("x") },
        Replacement::from_captures("x", Some(vec![Some(text("x")), Some(text("a"))]))
    );
    assert_eq!(
        Replacement { from: None, to: text("x") },
        Replacement::from_captures("x", Some(vec![Some(text("x")), None, Some(text("b"))]))
    );
    assert_eq!(
        Replacement { from: None, to: text("x") },
        Replacement::from_captures("x", Some(vec![Some(text("x")), Some(text("a")), None]))
    );
}

#[test]
fn replacements_of_subjects_and_lists() {
    assert_eq!(
        Replacement { from: Some(Subject::MathAdvanced), to: Subject::MathBasic },
        Replacement::try_from("+MA (LK-MA)").into_subjects()
    );
    assert_eq!(
        Replacement { from: None, to: Subject::Other(text("B204")) },
        Replacement::try_from("B204").into_subjects()
    );
    assert_eq!(
        Replacement { from: Some(texts(&["Mei", "Sch"])), to: texts(&["Mül", "Kra"]) },
        Replacement::try_from("+Mül, Kra (Mei,Sch)").into_lists()
    );
    assert_eq!(
        Replacement { from: None, to: texts(&["Mül"]) },
        Replacement::try_from("Mül").into_lists()
    );
}

#[test]
fn kinds_of_change() {
    assert_eq!(ChangeKind::Cancel, classify("Fällt aus", false, false));
    assert_eq!(ChangeKind::ClassIsMissing, classify("Klasse fehlt", false, false));
    assert_eq!(ChangeKind::ClassIsMissing, classify("Klasse fehlt", true, true));
    assert_eq!(ChangeKind::PlaceChange, classify("Raumänderung", false, false));
    assert_eq!(ChangeKind::Addition, classify("Zusatzunterricht", false, false));
    assert_eq!(ChangeKind::Replacement, classify("Vertreten", false, false));
    assert_eq!(ChangeKind::Cancel, classify("Auf Mo 23.01. verschoben", true, false));
    assert_eq!(ChangeKind::Replacement, classify("Von Mo 23.01. verschoben", false, true));
    assert_eq!(ChangeKind::Cancel, classify("anything", true, true));
    assert_eq!(ChangeKind::Cancel, classify("Raumänderung", true, false));
    assert_eq!(ChangeKind::PlaceChange, classify("Raumänderung", false, true));
    assert_eq!(ChangeKind::Other, classify("Sonstiges", false, false));
    assert_eq!(ChangeKind::Other, classify("", false, false));
    assert_eq!(ChangeKind::Other, classify("fällt aus", false, false));
}

#[test]
fn a_cancellation() {
    assert_eq!(
        Change::Cancel {
            lesson: 1,
            subject: Subject::MathBasic,
            teachers: texts(&["Mül", "Kra"]),
            place: text("B05"),
            notice: Some(text("krank")),
        },
        Change::new(1, "Fällt aus", "MA", text("B05"), "Mül, Kra", Some(text("krank")))
    );
}

#[test]
fn a_missing_class() {
    assert_eq!(
        Change::ClassIsMissing {
            lesson: 2,
            subject: Subject::Chemistry,
            teachers: texts(&["Mül"]),
            place: text("B9"),
            notice: None,
        },
        Change::new(2, "Klasse fehlt", "CH", text("B9"), "Mül", None)
    );
}

#[test]
fn a_lesson_moved_away_is_cancelled() {
    assert_eq!(
        Change::Cancel {
            lesson: 3,
            subject: Subject::Lf11,
            teachers: texts(&[""]),
            place: text(""),
            notice: None,
        },
        Change::new(3, "Auf Fr 27.01. verschoben", "LF11D", text(""), "", None)
    );
}

#[test]
fn a_change_of_place() {
    assert_eq!(
        Change::PlaceChange {
            lesson: 4,
            subject: Subject::History,
            teachers: texts(&["Mül"]),
            place: Replacement { from: Some(text("B4")), to: text("A06") },
            notice: None,
        },
        Change::new(4, "Raumänderung", "GGK", text("+A06 (B4)"), "Mül", None)
    );
    assert_eq!(
        Change::PlaceChange {
            lesson: 4,
            subject: Subject::History,
            teachers: texts(&["Mül"]),
            place: Replacement { from: None, to: text("A06") },
            notice: None,
        },
        Change::new(4, "Raumänderung", "GGK", text("A06"), "Mül", None)
    );
}

#[test]
fn an_addition() {
    assert_eq!(
        Change::Addition {
            lesson: 5,
            subject: Subject::Physics,
            teachers: texts(&["Mül"]),
            place: Some(text("B112")),
            notice: Some(text("Klausur")),
        },
        Change::new(5, "Zusatzunterricht", "PHY", text("B112"), "Mül", Some(text("Klausur")))
    );
    assert_eq!(
        Change::Addition {
            lesson: 5,
            subject: Subject::Physics,
            teachers: texts(&["Mül"]),
            place: None,
            notice: None,
        },
        Change::new(5, "Zusatzunterricht", "PHY", text(""), "Mül", None)
    );
}

#[test]
fn a_replacement() {
    let expected = Change::Replacement {
        lesson: 1,
        subject: Replacement { from: Some(Subject::MathAdvanced), to: Subject::MathBasic },
        teachers: Replacement { from: Some(texts(&["Kra"])), to: texts(&["Mül"]) },
        place: Replacement { from: Some(text("B11")), to: text("B05") },
        notice: None,
    };
    assert_eq!(expected, Change::new(1, "Vertreten", "+MA (LK-MA)", text("+B05 (B11)"), "+Mül (Kra)", None));
    assert_eq!(
        expected,
        Change::new(1, "Von Mo 23.01. verschoben", "+MA (LK-MA)", text("+B05 (B11)"), "+Mül (Kra)", None)
    );
    assert_eq!(
        Change::Replacement {
            lesson: 1,
            subject: Replacement { from: None, to: Subject::MathBasic },
            teachers: Replacement { from: None, to: texts(&["Mül", "Kra"]) },
            place: Replacement { from: None, to: text("B05") },
            notice: None,
        },
        Change::new(1, "Vertreten", "MA", text("B05"), "Mül,Kra", None)
    );
}

#[test]
fn an_unknown_type_of_change() {
    assert_eq!(
        Change::Other {
            lesson: 2,
            value: text("Sondereinsatz"),
            subject: Subject::Other(text("XY")),
            teachers: texts(&["Mül"]),
            place: text("B1"),
            notice: None,
        },
        Change::new(2, "Sondereinsatz", "XY", text("B1"), "Mül", None)
    );
    let moved = Change::new(2, "Auf verschoben", "MA", text("B1"), "Mül", None);
    assert!(matches!(moved, Change::Other { .. }));
}

#[test]
fn a_change_of_a_given_kind() {
    assert_eq!(
        Change::Cancel {
            lesson: 1,
            subject: Subject::MathBasic,
            teachers: texts(&["Mül"]),
            place: text("B05"),
            notice: None,
        },
        Change::of_kind(ChangeKind::Cancel, 1, "whatever", "MA", text("B05"), "Mül", None)
    );
    assert_eq!(
        Change::Other {
            lesson: 1,
            value: text("Fällt aus"),
            subject: Subject::MathBasic,
            teachers: texts(&["Mül"]),
            place: text("B05"),
            notice: None,
        },
        Change::of_kind(ChangeKind::Other, 1, "Fällt aus", "MA", text("B05"), "Mül", None)
    );
}

#[test]
fn slot_and_notice_of_a_change() {
    let labels = ["Fällt aus", "Klasse fehlt", "Raumänderung", "Zusatzunterricht", "Vertreten", "?"];
    for (lesson, label) in labels.iter().enumerate() {
        let change = Change::new(lesson as u8, label, "MA", text("B05"), "Mül", Some(text("n")));
        assert_eq!(lesson as u8, change.lesson());
        assert_eq!(&Some(text("n")), change.notice());
        assert_eq!(change, change.clone());
    }
}

#[test]
fn changes_compare_by_what_they_say() {
    let cancel = Change::new(1, "Fällt aus", "MA", text("B05"), "Mül", None);
    assert_ne!(cancel, Change::new(1, "Klasse fehlt", "MA", text("B05"), "Mül", None));
    assert_ne!(cancel, Change::new(2, "Fällt aus", "MA", text("B05"), "Mül", None));
    assert_ne!(cancel, Change::new(1, "Fällt aus", "CH", text("B05"), "Mül", None));
    assert_ne!(cancel, Change::new(1, "Fällt aus", "MA", text("B06"), "Mül", None));
    assert_ne!(cancel, Change::new(1, "Fällt aus", "MA", text("B05"), "Mül,Kra", None));
    assert_ne!(cancel, Change::new(1, "Fällt aus", "MA", text("B05"), "Mül", Some(text("n"))));
    assert_eq!(cancel, Change::new(1, "Fällt aus", "MA", text("B05"), " Mül ", None));
}

fn tuesday() -> Vec<Lesson> {
    vec![
        Lesson::new(1, None, Subject::MathBasic, "B05"),
        Lesson::new(1, None, Subject::EnglishBasic, "B104"),
        Lesson::new(2, None, Subject::GermanBasic, "B6"),
    ]
}

#[test]
fn finding_a_lesson_by_its_subject() {
    let day = tuesday();
    assert_eq!(Ok(Some(0)), find_lesson(&day, 1, Some(&Subject::MathBasic)));
    assert_eq!(Ok(Some(1)), find_lesson(&day, 1, Some(&Subject::EnglishBasic)));
    assert_eq!(Ok(Some(2)), find_lesson(&day, 2, Some(&Subject::GermanBasic)));
    assert_eq!(Ok(None), find_lesson(&day, 2, Some(&Subject::MathBasic)));
    assert_eq!(Ok(None), find_lesson(&day, 3, Some(&Subject::MathBasic)));
    assert_eq!(Ok(None), find_lesson(&Vec::new(), 1, Some(&Subject::MathBasic)));
}

#[test]
fn the_first_of_two_like_lessons_is_found() {
    let mut day = tuesday();
    day.push(Lesson::new(1, None, Subject::MathBasic, "B99"));
    assert_eq!(Ok(Some(0)), find_lesson(&day, 1, Some(&Subject::MathBasic)));
}

#[test]
fn finding_a_lesson_by_its_slot_alone() {
    let day = tuesday();
    assert_eq!(Ok(Some(2)), find_lesson(&day, 2, None));
    assert_eq!(Err(AmbiguousLesson { lesson: 1, candidates: 2 }), find_lesson(&day, 1, None));
    assert_eq!(Err(AmbiguousLesson { lesson: 3, candidates: 0 }), find_lesson(&day, 3, None));
}

#[test]
fn applying_a_cancellation() {
    let mut day = tuesday();
    let change = Change::new(1, "Fällt aus", "MA", text("B05"), "Mül", Some(text("krank")));
    assert_eq!(Ok(true), change.apply(&mut day));
    assert_eq!(3, day.len());
    assert_eq!(Subject::Cancel(Box::new(Subject::MathBasic)), day[0].subject);
    assert_eq!(Some(text("krank")), day[0].notice);
    assert_eq!(Some(text("B05")), day[0].place);
    assert_eq!(1, day[0].lesson);
    assert_eq!(Subject::EnglishBasic, day[1].subject);
    assert_eq!(None, day[1].notice);
    assert_eq!(Subject::GermanBasic, day[2].subject);
}

#[test]
fn applying_a_missing_class() {
    let mut day = tuesday();
    let change = Change::new(2, "Klasse fehlt", "DEU", text("B6"), "Mül", None);
    assert_eq!(Ok(true), change.apply(&mut day));
    assert_eq!(Subject::Cancel(Box::new(Subject::GermanBasic)), day[2].subject);
    assert_eq!(None, day[2].notice);
}

#[test]
fn a_cancellation_of_another_subject_changes_nothing() {
    let mut day = tuesday();
    let change = Change::new(1, "Fällt aus", "CH", text("B05"), "Mül", Some(text("krank")));
    assert_eq!(Ok(false), change.apply(&mut day));
    assert_eq!(3, day.len());
    assert_eq!(Subject::MathBasic, day[0].subject);
    assert_eq!(None, day[0].notice);
    assert_eq!(Subject::EnglishBasic, day[1].subject);
}

#[test]
fn applying_a_change_of_place() {
    let mut day = tuesday();
    let change = Change::new(1, "Raumänderung", "ENG", text("+A102 (B104)"), "Mül", Some(text("n")));
    assert_eq!(Ok(true), change.apply(&mut day));
    assert_eq!(Some(text("A102")), day[1].place);
    assert_eq!(Some(text("n")), day[1].notice);
    assert_eq!(Subject::EnglishBasic, day[1].subject);
    assert_eq!(Some(text("B05")), day[0].place);
}

#[test]
fn applying_an_addition() {
    let mut day = tuesday();
    let change = Change::new(5, "Zusatzunterricht", "PHY", text(""), "Mül", Some(text("n")));
    assert_eq!(Ok(true), change.apply(&mut day));
    assert_eq!(4, day.len());
    assert_eq!(5, day[3].lesson);
    assert_eq!(Subject::Physics, day[3].subject);
    assert_eq!(None, day[3].iteration);
    assert_eq!(None, day[3].place);
    assert_eq!(Some(text("n")), day[3].notice);
    assert_eq!(Ok(true), change.apply(&mut day));
    assert_eq!(5, day.len());
}

#[test]
fn applying_a_replacement() {
    let mut day = tuesday();
    let change = Change::new(1, "Vertreten", "+CH (MA)", text("+B9 (B05)"), "+Mül (Kra)", None);
    assert_eq!(Ok(true), change.apply(&mut day));
    assert_eq!(Subject::Chemistry, day[0].subject);
    assert_eq!(Some(text("B9")), day[0].place);
    assert_eq!(None, day[0].notice);
    assert_eq!(Subject::EnglishBasic, day[1].subject);
}

#[test]
fn a_replacement_that_names_no_old_subject() {
    let mut day = tuesday();
    let single = Change::new(2, "Vertreten", "CH", text("B9"), "Mül", None);
    assert_eq!(Ok(true), single.apply(&mut day));
    assert_eq!(Subject::Chemistry, day[2].subject);
    let several = Change::new(1, "Vertreten", "CH", text("B9"), "Mül", None);
    assert_eq!(Err(AmbiguousLesson { lesson: 1, candidates: 2 }), several.apply(&mut day));
    assert_eq!(Subject::MathBasic, day[0].subject);
    assert_eq!(Subject::EnglishBasic, day[1].subject);
    let none = Change::new(4, "Vertreten", "CH", text("B9"), "Mül", None);
    assert_eq!(Err(AmbiguousLesson { lesson: 4, candidates: 0 }), none.apply(&mut day));
    assert_eq!(3, day.len());
}

#[test]
fn an_unknown_change_changes_nothing() {
    let mut day = tuesday();
    let change = Change::new(1, "Sondereinsatz", "MA", text("B05"), "Mül", None);
    assert_eq!(Ok(false), change.apply(&mut day));
    assert_eq!(3, day.len());
    assert_eq!(Subject::MathBasic, day[0].subject);
}
