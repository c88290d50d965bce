use crate::date::Weekday;
use crate::timetable::{new_lesson, Lesson, LessonView, Subject, SubjectView};
use vstd::prelude::*;

verus! {

/// The base timetable of the class IGD 21: the lessons of each school day,
/// in the order of the printed plan. Saturday and Sunday have none.
pub open spec fn igd21(weekday: Weekday) -> Option<Seq<LessonView>> {
    match weekday {
        Weekday::Monday => Some(
            seq![
                new_lesson(1, None, SubjectView::Known(Subject::GermanBasic), "B6"@),
                new_lesson(2, None, SubjectView::Known(Subject::Chemistry), "B9"@),
                new_lesson(3, Some(1), SubjectView::Known(Subject::EnglishAdvanced), "A102"@),
                new_lesson(3, Some(1), SubjectView::Known(Subject::MathAdvanced), "B11"@),
                new_lesson(3, Some(2), SubjectView::Known(Subject::Lf11), "B5"@),
                new_lesson(4, Some(1), SubjectView::Known(Subject::History), "B4"@),
                new_lesson(4, Some(2), SubjectView::Known(Subject::Art), "A06"@),
                new_lesson(4, Some(2), SubjectView::Known(Subject::Literature), "B4"@),
            ],
        ),
        Weekday::Tuesday => Some(
            seq![
                new_lesson(1, None, SubjectView::Known(Subject::MathBasic), "B05"@),
                new_lesson(1, None, SubjectView::Known(Subject::EnglishBasic), "B104"@),
                new_lesson(2, None, SubjectView::Known(Subject::GermanBasic), "B6"@),
                new_lesson(3, None, SubjectView::Known(Subject::Lf13), "B5"@),
                new_lesson(3, None, SubjectView::Known(Subject::Lf11), "B3"@),
                new_lesson(4, None, SubjectView::Known(Subject::EnglishAdvanced), "A102"@),
                new_lesson(4, None, SubjectView::Known(Subject::MathAdvanced), "B11"@),
            ],
        ),
        Weekday::Wednesday => Some(
            seq![
                new_lesson(1, None, SubjectView::Known(Subject::EnglishAdvanced), "B6"@),
                new_lesson(1, None, SubjectView::Known(Subject::MathAdvanced), "B11"@),
                new_lesson(2, None, SubjectView::Known(Subject::EnglishBasic), "B105"@),
                new_lesson(2, None, SubjectView::Known(Subject::MathBasic), "B106"@),
                new_lesson(3, None, SubjectView::Known(Subject::Ethics), "B4"@),
                new_lesson(4, None, SubjectView::Known(Subject::French), "B111"@),
                new_lesson(4, None, SubjectView::Known(Subject::Russian), "B4"@),
            ],
        ),
        Weekday::Thursday => Some(
            seq![
                new_lesson(1, None, SubjectView::Known(Subject::History), "B4"@),
                new_lesson(2, None, SubjectView::Known(Subject::Lf9_12), "B8"@),
                new_lesson(3, None, SubjectView::Known(Subject::PhysicalEducation), "117.GS"@),
                new_lesson(4, None, SubjectView::Known(Subject::Lf10), "B405"@),
                new_lesson(4, None, SubjectView::Known(Subject::Lf13), "A103"@),
            ],
        ),
        Weekday::Friday => Some(
            seq![
                new_lesson(1, None, SubjectView::Known(Subject::Physics), "B112"@),
                new_lesson(2, None, SubjectView::Known(Subject::French), "A102"@),
                new_lesson(2, None, SubjectView::Known(Subject::Russian), "B4"@),
                new_lesson(3, None, SubjectView::Known(Subject::Lf13), "A103"@),
                new_lesson(3, None, SubjectView::Known(Subject::Lf10), "B405"@),
                new_lesson(4, None, SubjectView::Known(Subject::Lf11), "B5"@),
                new_lesson(4, None, SubjectView::Known(Subject::Lf13), "A103"@),
            ],
        ),
        Weekday::Saturday => None,
        Weekday::Sunday => None,
    }
}

/// The lessons of the class IGD 21 on `weekday`, or `None` on a day
/// without school.
pub fn lessons_on(weekday: Weekday) -> (lessons: Option<Vec<Lesson>>)
    ensures
        lessons.deep_view() == igd21(weekday),
{
    let mut day: Vec<Lesson> = Vec::new();
    match weekday {
        Weekday::Monday => {
            day.push(Lesson::new(1, None, Subject::GermanBasic, "B6"));
            day.push(Lesson::new(2, None, Subject::Chemistry, "B9"));
            day.push(Lesson::new(3, Some(1), Subject::EnglishAdvanced, "A102"));
            day.push(Lesson::new(3, Some(1), Subject::MathAdvanced, "B11"));
            day.push(Lesson::new(3, Some(2), Subject::Lf11, "B5"));
            day.push(Lesson::new(4, Some(1), Subject::History, "B4"));
            day.push(Lesson::new(4, Some(2), Subject::Art, "A06"));
            day.push(Lesson::new(4, Some(2), Subject::Literature, "B4"));
        },
        Weekday::Tuesday => {
            day.push(Lesson::new(1, None, Subject::MathBasic, "B05"));
            day.push(Lesson::new(1, None, Subject::EnglishBasic, "B104"));
            day.push(Lesson::new(2, None, Subject::GermanBasic, "B6"));
            day.push(Lesson::new(3, None, Subject::Lf13, "B5"));
            day.push(Lesson::new(3, None, Subject::Lf11, "B3"));
            day.push(Lesson::new(4, None, Subject::EnglishAdvanced, "A102"));
            day.push(Lesson::new(4, None, Subject::MathAdvanced, "B11"));
        },
        Weekday::Wednesday => {
            day.push(Lesson::new(1, None, Subject::EnglishAdvanced, "B6"));
            day.push(Lesson::new(1, None, Subject::MathAdvanced, "B11"));
            day.push(Lesson::new(2, None, Subject::EnglishBasic, "B105"));
            day.push(Lesson::new(2, None, Subject::MathBasic, "B106"));
            day.push(Lesson::new(3, None, Subject::Ethics, "B4"));
            day.push(Lesson::new(4, None, Subject::French, "B111"));
            day.push(Lesson::new(4, None, Subject::Russian, "B4"));
        },
        Weekday::Thursday => {
            day.push(Lesson::new(1, None, Subject::History, "B4"));
            day.push(Lesson::new(2, None, Subject::Lf9_12, "B8"));
            day.push(Lesson::new(3, None, Subject::PhysicalEducation, "117.GS"));
            day.push(Lesson::new(4, None, Subject::Lf10, "B405"));
            day.push(Lesson::new(4, None, Subject::Lf13, "A103"));
        },
        Weekday::Friday => {
            day.push(Lesson::new(1, None, Subject::Physics, "B112"));
            day.push(Lesson::new(2, None, Subject::French, "A102"));
            day.push(Lesson::new(2, None, Subject::Russian, "B4"));
            day.push(Lesson::new(3, None, Subject::Lf13, "A103"));
            day.push(Lesson::new(3, None, Subject::Lf10, "B405"));
            day.push(Lesson::new(4, None, Subject::Lf11, "B5"));
            day.push(Lesson::new(4, None, Subject::Lf13, "A103"));
        },
        Weekday::Saturday => {
            return None;
        },
        Weekday::Sunday => {
            return None;
        },
    }
    assert(day.deep_view() == igd21(weekday).unwrap());
    Some(day)
}

} // verus!
