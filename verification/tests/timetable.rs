use bszet_davinci::date::Weekday;
use bszet_davinci::timetable::igd21::lessons_on;
use bszet_davinci::timetable::{Lesson, Subject};

#[test]
fn subjects_of_the_catalog() {
    assert_eq!(Subject::GermanBasic, Subject::from("DEU"));
    assert_eq!(Subject::GermanAdvanced, Subject::from("LK-DEU"));
    assert_eq!(Subject::MathBasic, Subject::from("MA"));
    assert_eq!(Subject::MathAdvanced, Subject::from("LK-MA"));
    assert_eq!(Subject::EnglishBasic, Subject::from("ENG"));
    assert_eq!(Subject::EnglishAdvanced, Subject::from("LK-ENG"));
    assert_eq!(Subject::Art, Subject::from("BK"));
    assert_eq!(Subject::Art, Subject::from("BK1"));
    assert_eq!(Subject::Art, Subject::from("BK2"));
    assert_eq!(Subject::History, Subject::from("GGK"));
    assert_eq!(Subject::French, Subject::from("F-B"));
    assert_eq!(Subject::Ethics, Subject::from("ETH"));
    assert_eq!(Subject::Russian, Subject::from("R-B"));
    assert_eq!(Subject::Chemistry, Subject::from("CH"));
    assert_eq!(Subject::Physics, Subject::from("PHY"));
    assert_eq!(Subject::PhysicalEducation, Subject::from("SP"));
    assert_eq!(Subject::Literature, Subject::from("LIT"));
    assert_eq!(Subject::Lf6_7_9, Subject::from("LF 6+7+9"));
    assert_eq!(Subject::Lf9_12, Subject::from("LF 9+12"));
    assert_eq!(Subject::Lf9_12, Subject::from("IS-GP"));
    assert_eq!(Subject::Lf8, Subject::from("LF8D_I1"));
    assert_eq!(Subject::Lf8, Subject::from("LF8D_I2"));
    assert_eq!(Subject::Lf10, Subject::from("LF10D_I1"));
    assert_eq!(Subject::Lf10, Subject::from("LF10D_I2"));
    assert_eq!(Subject::Lf11, Subject::from("LF11D"));
    assert_eq!(Subject::Lf11, Subject::from("LF11D_I1"));
    assert_eq!(Subject::Lf11, Subject::from("LF11D_I2"));
    assert_eq!(Subject::Lf13, Subject::from("LF13D_I1"));
    assert_eq!(Subject::Lf13, Subject::from("LF13D_I2"));
    assert_eq!(Subject::FaeVerb, Subject::from("_fä.verb."));
    assert_eq!(Subject::NoSubject, Subject::from(""));
}

#[test]
fn unknown_codes_are_kept() {
    assert_eq!(Subject::Other("XYZ".to_string()), Subject::from("XYZ"));
    assert_eq!(Subject::Other("ma".to_string()), Subject::from("ma"));
    assert_eq!(Subject::Other(" MA".to_string()), Subject::from(" MA"));
    assert_eq!(Subject::Other("MAX".to_string()), Subject::from("MAX"));
    assert_eq!(Subject::Other("M".to_string()), Subject::from("M"));
}

#[test]
fn labels() {
    assert_eq!("D", Subject::GermanBasic.label());
    assert_eq!("LK-D", Subject::GermanAdvanced.label());
    assert_eq!("Ma", Subject::MathBasic.label());
    assert_eq!("LK-Ma", Subject::MathAdvanced.label());
    assert_eq!("En", Subject::EnglishBasic.label());
    assert_eq!("LK-En", Subject::EnglishAdvanced.label());
    assert_eq!("BK", Subject::Art.label());
    assert_eq!("Ge", Subject::History.label());
    assert_eq!("Frz", Subject::French.label());
    assert_eq!("Eth", Subject::Ethics.label());
    assert_eq!("Ru", Subject::Russian.label());
    assert_eq!("Ch", Subject::Chemistry.label());
    assert_eq!("Ph", Subject::Physics.label());
    assert_eq!("Sp", Subject::PhysicalEducation.label());
    assert_eq!("Lit", Subject::Literature.label());
    assert_eq!("LF 6+7+9", Subject::Lf6_7_9.label());
    assert_eq!("LF 9+12", Subject::Lf9_12.label());
    assert_eq!("LF 8", Subject::Lf8.label());
    assert_eq!("LF 10", Subject::Lf10.label());
    assert_eq!("LF 11", Subject::Lf11.label());
    assert_eq!("LF 13", Subject::Lf13.label());
    assert_eq!("Fä-Verb", Subject::FaeVerb.label());
    assert_eq!("None", Subject::NoSubject.label());
    assert_eq!("Töpfern", Subject::Other("Töpfern".to_string()).label());
}

#[test]
fn cancelled_subjects_are_shown_in_brackets() {
    let cancelled = Subject::Cancel(Box::new(Subject::MathBasic));
    assert_eq!("(Ma)", cancelled.label());
    let twice = Subject::Cancel(Box::new(cancelled.clone()));
    assert_eq!("((Ma))", twice.label());
    assert_eq!("(X)", Subject::Cancel(Box::new(Subject::Other("X".to_string()))).label());
}

#[test]
fn subjects_compare_by_what_they_stand_for() {
    assert_eq!(Subject::MathBasic, Subject::MathBasic);
    assert_ne!(Subject::MathBasic, Subject::MathAdvanced);
    assert_ne!(Subject::MathBasic, Subject::Cancel(Box::new(Subject::MathBasic)));
    assert_eq!(
        Subject::Cancel(Box::new(Subject::MathBasic)),
        Subject::Cancel(Box::new(Subject::MathBasic))
    );
    assert_ne!(
        Subject::Cancel(Box::new(Subject::MathBasic)),
        Subject::Cancel(Box::new(Subject::Chemistry))
    );
    assert_eq!(Subject::Other("a".to_string()), Subject::Other("a".to_string()));
    assert_ne!(Subject::Other("a".to_string()), Subject::Other("b".to_string()));
    assert_ne!(Subject::Other("".to_string()), Subject::NoSubject);
    assert!(Subject::Art.same_as(&Subject::Art));
    assert!(!Subject::Art.same_as(&Subject::History));
}

#[test]
fn copies_stand_for_the_same() {
    let subjects = vec![
        Subject::GermanBasic,
        Subject::NoSubject,
        Subject::Other("x".to_string()),
        Subject::Cancel(Box::new(Subject::Cancel(Box::new(Subject::Lf13)))),
    ];
    for subject in subjects {
        assert_eq!(subject, subject.clone());
    }
}

#[test]
fn ranks_tell_the_subjects_of_the_catalog_apart() {
    assert_eq!(0, Subject::GermanBasic.rank());
    assert_eq!(22, Subject::NoSubject.rank());
    assert_eq!(23, Subject::Cancel(Box::new(Subject::Art)).rank());
    assert_eq!(24, Subject::Other("x".to_string()).rank());
}

#[test]
fn cancelled_or_not() {
    assert_eq!((Subject::MathBasic, false), Subject::MathBasic.without_cancel());
    assert_eq!(
        (Subject::MathBasic, true),
        Subject::Cancel(Box::new(Subject::MathBasic)).without_cancel()
    );
    assert_eq!(
        (Subject::Other("x".to_string()), false),
        Subject::Other("x".to_string()).without_cancel()
    );
}

#[test]
fn a_new_lesson_has_a_place_and_no_notice() {
    let lesson = Lesson::new(3, Some(1), Subject::EnglishAdvanced, "A102");
    assert_eq!(3, lesson.lesson);
    assert_eq!(Some(1), lesson.iteration);
    assert_eq!(Subject::EnglishAdvanced, lesson.subject);
    assert_eq!(Some("A102".to_string()), lesson.place);
    assert_eq!(None, lesson.notice);
    let copy = lesson.clone();
    assert_eq!(lesson.lesson, copy.lesson);
    assert_eq!(lesson.subject, copy.subject);
    assert_eq!(lesson.place, copy.place);
}

fn shown(lessons: &[Lesson]) -> Vec<(u8, Option<u8>, String, String)> {
    lessons
        .iter()
        .map(|lesson| {
            (
                lesson.lesson,
                lesson.iteration,
                lesson.subject.label(),
                lesson.place.clone().unwrap(),
            )
        })
        .collect()
}

fn entry(lesson: u8, iteration: Option<u8>, subject: &str, place: &str) -> (u8, Option<u8>, String, String) {
    (lesson, iteration, subject.to_string(), place.to_string())
}

#[test]
fn the_base_timetable() {
    assert_eq!(
        vec![
            entry(1, None, "D", "B6"),
            entry(2, None, "Ch", "B9"),
            entry(3, Some(1), "LK-En", "A102"),
            entry(3, Some(1), "LK-Ma", "B11"),
            entry(3, Some(2), "LF 11", "B5"),
            entry(4, Some(1), "Ge", "B4"),
            entry(4, Some(2), "BK", "A06"),
            entry(4, Some(2), "Lit", "B4"),
        ],
        shown(&lessons_on(Weekday::Monday).unwrap())
    );
    assert_eq!(
        vec![
            entry(1, None, "Ma", "B05"),
            entry(1, None, "En", "B104"),
            entry(2, None, "D", "B6"),
            entry(3, None, "LF 13", "B5"),
            entry(3, None, "LF 11", "B3"),
            entry(4, None, "LK-En", "A102"),
            entry(4, None, "LK-Ma", "B11"),
        ],
        shown(&lessons_on(Weekday::Tuesday).unwrap())
    );
    assert_eq!(
        vec![
            entry(1, None, "LK-En", "B6"),
            entry(1, None, "LK-Ma", "B11"),
            entry(2, None, "En", "B105"),
            entry(2, None, "Ma", "B106"),
            entry(3, None, "Eth", "B4"),
            entry(4, None, "Frz", "B111"),
            entry(4, None, "Ru", "B4"),
        ],
        shown(&lessons_on(Weekday::Wednesday).unwrap())
    );
    assert_eq!(
        vec![
            entry(1, None, "Ge", "B4"),
            entry(2, None, "LF 9+12", "B8"),
            entry(3, None, "Sp", "117.GS"),
            entry(4, None, "LF 10", "B405"),
            entry(4, None, "LF 13", "A103"),
        ],
        shown(&lessons_on(Weekday::Thursday).unwrap())
    );
    assert_eq!(
        vec![
            entry(1, None, "Ph", "B112"),
            entry(2, None, "Frz", "A102"),
            entry(2, None, "Ru", "B4"),
            entry(3, None, "LF 13", "A103"),
            entry(3, None, "LF 10", "B405"),
            entry(4, None, "LF 11", "B5"),
            entry(4, None, "LF 13", "A103"),
        ],
        shown(&lessons_on(Weekday::Friday).unwrap())
    );
    assert!(lessons_on(Weekday::Saturday).is_none());
    assert!(lessons_on(Weekday::Sunday).is_none());
}
