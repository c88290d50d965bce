use crate::pattern::{captures, is_match, regex_captures, regex_is_match};
use crate::text::{
    clone_text, clone_texts, list_of, parse_list, same_optional_text, same_text, same_texts,
};
use crate::timetable::{subject_of, Lesson, LessonView, Subject, SubjectView};
use vstd::prelude::*;
use vstd::std_specs::cmp::PartialEqSpecImpl;
use vstd::string::*;

verus! {

/// A value that takes the place of another: `to` is the new one, `from` the
/// one it replaces, where the plan names it.
#[derive(Clone, Debug, PartialEq, Eq, Hash)]
pub struct Replacement<T> {
    pub from: Option<T>,
    pub to: T,
}

/// What a `Replacement` says.
pub ghost struct ReplacementView<V> {
    pub from: Option<V>,
    pub to: V,
}

impl<T: DeepView> DeepView for Replacement<T> {
    type V = ReplacementView<T::V>;

    open spec fn deep_view(&self) -> ReplacementView<T::V> {
        ReplacementView { from: self.from.deep_view(), to: self.to.deep_view() }
    }
}

/// One change of the substitution plan.
#[derive(Debug, Hash)]
#[allow(inconsistent_fields)]
pub enum Change {
    /// The lesson does not take place.
    Cancel {
        lesson: u8,
        subject: Subject,
        teachers: Vec<String>,
        place: String,
        notice: Option<String>,
    },
    /// The lesson takes place somewhere else.
    PlaceChange {
        lesson: u8,
        subject: Subject,
        teachers: Vec<String>,
        place: Replacement<String>,
        notice: Option<String>,
    },
    /// A lesson is added to the day.
    Addition {
        lesson: u8,
        subject: Subject,
        teachers: Vec<String>,
        place: Option<String>,
        notice: Option<String>,
    },
    /// Another lesson takes the place of the lesson.
    Replacement {
        lesson: u8,
        subject: Replacement<Subject>,
        teachers: Replacement<Vec<String>>,
        place: Replacement<String>,
        notice: Option<String>,
    },
    /// The class is away, so the lesson does not take place.
    ClassIsMissing {
        lesson: u8,
        subject: Subject,
        teachers: Vec<String>,
        place: String,
        notice: Option<String>,
    },
    /// A change of a type that the plan's vocabulary does not hold; `value`
    /// is the type as it was read.
    Other {
        lesson: u8,
        value: String,
        subject: Subject,
        teachers: Vec<String>,
        place: String,
        notice: Option<String>,
    },
}

/// What a `Change` says.
#[allow(inconsistent_fields)]
pub ghost enum ChangeView {
    Cancel {
        lesson: u8,
        subject: SubjectView,
        teachers: Seq<Seq<char>>,
        place: Seq<char>,
        notice: Option<Seq<char>>,
    },
    PlaceChange {
        lesson: u8,
        subject: SubjectView,
        teachers: Seq<Seq<char>>,
        place: ReplacementView<Seq<char>>,
        notice: Option<Seq<char>>,
    },
    Addition {
        lesson: u8,
        subject: SubjectView,
        teachers: Seq<Seq<char>>,
        place: Option<Seq<char>>,
        notice: Option<Seq<char>>,
    },
    Replacement {
        lesson: u8,
        subject: ReplacementView<SubjectView>,
        teachers: ReplacementView<Seq<Seq<char>>>,
        place: ReplacementView<Seq<char>>,
        notice: Option<Seq<char>>,
    },
    ClassIsMissing {
        lesson: u8,
        subject: SubjectView,
        teachers: Seq<Seq<char>>,
        place: Seq<char>,
        notice: Option<Seq<char>>,
    },
    Other {
        lesson: u8,
        value: Seq<char>,
        subject: SubjectView,
        teachers: Seq<Seq<char>>,
        place: Seq<char>,
        notice: Option<Seq<char>>,
    },
}

impl DeepView for Change {
    type V = ChangeView;

    open spec fn deep_view(&self) -> ChangeView {
        match self {
            Change::Cancel { lesson, subject, teachers, place, notice } => ChangeView::Cancel {
                lesson: *lesson,
                subject: subject.deep_view(),
                teachers: teachers.deep_view(),
                place: place@,
                notice: notice.deep_view(),
            },
            Change::PlaceChange {
                lesson,
                subject,
                teachers,
                place,
                notice,
            } => ChangeView::PlaceChange {
                lesson: *lesson,
                subject: subject.deep_view(),
                teachers: teachers.deep_view(),
                place: place.deep_view(),
                notice: notice.deep_view(),
            },
            Change::Addition { lesson, subject, teachers, place, notice } => ChangeView::Addition {
                lesson: *lesson,
                subject: subject.deep_view(),
                teachers: teachers.deep_view(),
                place: place.deep_view(),
                notice: notice.deep_view(),
            },
            Change::Replacement {
                lesson,
                subject,
                teachers,
                place,
                notice,
            } => ChangeView::Replacement {
                lesson: *lesson,
                subject: subject.deep_view(),
                teachers: teachers.deep_view(),
                place: place.deep_view(),
                notice: notice.deep_view(),
            },
            Change::ClassIsMissing {
                lesson,
                subject,
                teachers,
                place,
                notice,
            } => ChangeView::ClassIsMissing {
                lesson: *lesson,
                subject: subject.deep_view(),
                teachers: teachers.deep_view(),
                place: place@,
                notice: notice.deep_view(),
            },
            Change::Other { lesson, value, subject, teachers, place, notice } => ChangeView::Other {
                lesson: *lesson,
                value: value@,
                subject: subject.deep_view(),
                teachers: teachers.deep_view(),
                place: place@,
                notice: notice.deep_view(),
            },
        }
    }
}

/// The kinds of change that the plan's vocabulary tells apart.
#[derive(Clone, Copy, Debug, PartialEq, Eq, Structural, Hash)]
pub enum ChangeKind {
    Cancel,
    PlaceChange,
    Addition,
    Replacement,
    ClassIsMissing,
    Other,
}

/// A change that names no subject found no lesson, or more than one, in its
/// slot: there is nothing to tell the lessons apart by.
#[derive(Clone, Copy, Debug, PartialEq, Eq, Structural, Hash)]
pub struct AmbiguousLesson {
    /// The slot of the change.
    pub lesson: u8,
    /// How many lessons of the day lie in that slot.
    pub candidates: usize,
}

/// The form in which a cell names a new value and, in brackets, the one it
/// replaces.
pub open spec fn replacement_pattern() -> Seq<char> {
    "\\+(.*) \\((.+)\\)"@
}

/// The form of the type of a change that moves a lesson to another day.
pub open spec fn moved_to_pattern() -> Seq<char> {
    "Auf .+ verschoben"@
}

/// The form of the type of a change that brings a lesson from another day.
pub open spec fn moved_from_pattern() -> Seq<char> {
    "Von .+ verschoben"@
}

/// The replacement that a cell states, given what the groups of the
/// replacement pattern captured in it: the first group is the new value,
/// the second the old one. A cell in which the pattern did not match with
/// both groups is a new value as a whole.
pub open spec fn replacement_from(
    text: Seq<char>,
    groups: Option<Seq<Option<Seq<char>>>>,
) -> ReplacementView<Seq<char>> {
    match groups {
        Some(groups) => if groups.len() >= 3 && groups[1] is Some && groups[2] is Some {
            ReplacementView { from: Some(groups[2]->0), to: groups[1]->0 }
        } else {
            ReplacementView { from: None, to: text }
        },
        None => ReplacementView { from: None, to: text },
    }
}

/// The replacement that the cell `text` states.
pub open spec fn replacement_of(text: Seq<char>) -> ReplacementView<Seq<char>> {
    replacement_from(text, regex_captures(replacement_pattern(), text))
}

/// The subjects that the two sides of a replacement name.
pub open spec fn subject_replacement(
    replacement: ReplacementView<Seq<char>>,
) -> ReplacementView<SubjectView> {
    ReplacementView {
        from: match replacement.from {
            Some(code) => Some(subject_of(code)),
            None => None,
        },
        to: subject_of(replacement.to),
    }
}

/// The lists that the two sides of a replacement hold.
pub open spec fn list_replacement(
    replacement: ReplacementView<Seq<char>>,
) -> ReplacementView<Seq<Seq<char>>> {
    ReplacementView {
        from: match replacement.from {
            Some(list) => Some(list_of(list)),
            None => None,
        },
        to: list_of(replacement.to),
    }
}

/// The kind of change that the type `value` stands for. `moved_to` and
/// `moved_from` say whether the type has the form of a lesson moved to, or
/// brought from, another day: the first counts as a cancellation, the
/// second as a replacement.
pub open spec fn kind_of(value: Seq<char>, moved_to: bool, moved_from: bool) -> ChangeKind {
    if value == "Klasse fehlt"@ {
        ChangeKind::ClassIsMissing
    } else if value == "Fällt aus"@ || moved_to {
        ChangeKind::Cancel
    } else if value == "Raumänderung"@ {
        ChangeKind::PlaceChange
    } else if value == "Zusatzunterricht"@ {
        ChangeKind::Addition
    } else if value == "Vertreten"@ || moved_from {
        ChangeKind::Replacement
    } else {
        ChangeKind::Other
    }
}

/// The change of kind `kind` that the cells of a row state.
pub open spec fn change_of_kind(
    kind: ChangeKind,
    lesson: u8,
    value: Seq<char>,
    subject: Seq<char>,
    place: Seq<char>,
    teacher: Seq<char>,
    notice: Option<Seq<char>>,
) -> ChangeView {
    match kind {
        ChangeKind::Cancel => ChangeView::Cancel {
            lesson,
            subject: subject_of(subject),
            teachers: list_of(teacher),
            place,
            notice,
        },
        ChangeKind::PlaceChange => ChangeView::PlaceChange {
            lesson,
            subject: subject_of(subject),
            teachers: list_of(teacher),
            place: replacement_of(place),
            notice,
        },
        ChangeKind::Addition => ChangeView::Addition {
            lesson,
            subject: subject_of(subject),
            teachers: list_of(teacher),
            place: if place.len() == 0 {
                None
            } else {
                Some(place)
            },
            notice,
        },
        ChangeKind::Replacement => ChangeView::Replacement {
            lesson,
            subject: subject_replacement(replacement_of(subject)),
            teachers: list_replacement(replacement_of(teacher)),
            place: replacement_of(place),
            notice,
        },
        ChangeKind::ClassIsMissing => ChangeView::ClassIsMissing {
            lesson,
            subject: subject_of(subject),
            teachers: list_of(teacher),
            place,
            notice,
        },
        ChangeKind::Other => ChangeView::Other {
            lesson,
            value,
            subject: subject_of(subject),
            teachers: list_of(teacher),
            place,
            notice,
        },
    }
}

/// The change that the cells of a row state.
pub open spec fn change_of(
    lesson: u8,
    value: Seq<char>,
    subject: Seq<char>,
    place: Seq<char>,
    teacher: Seq<char>,
    notice: Option<Seq<char>>,
) -> ChangeView {
    change_of_kind(
        kind_of(
            value,
            regex_is_match(moved_to_pattern(), value),
            regex_is_match(moved_from_pattern(), value),
        ),
        lesson,
        value,
        subject,
        place,
        teacher,
        notice,
    )
}

/// Whether a lesson lies in slot `lesson` and, where a subject is asked
/// for, has that subject.
pub open spec fn is_candidate(found: LessonView, lesson: u8, subject: Option<SubjectView>) -> bool {
    found.lesson == lesson && match subject {
        Some(subject) => found.subject == subject,
        None => true,
    }
}

/// The index of the first candidate among `lessons`.
pub open spec fn first_candidate(
    lessons: Seq<LessonView>,
    lesson: u8,
    subject: Option<SubjectView>,
) -> Option<int>
    decreases lessons.len(),
{
    if lessons.len() == 0 {
        None
    } else {
        match first_candidate(lessons.drop_last(), lesson, subject) {
            Some(index) => Some(index),
            None => if is_candidate(lessons.last(), lesson, subject) {
                Some(lessons.len() - 1)
            } else {
                None
            },
        }
    }
}

/// How many candidates `lessons` holds.
pub open spec fn count_candidates(
    lessons: Seq<LessonView>,
    lesson: u8,
    subject: Option<SubjectView>,
) -> nat
    decreases lessons.len(),
{
    if lessons.len() == 0 {
        0
    } else {
        count_candidates(lessons.drop_last(), lesson, subject) + if is_candidate(
            lessons.last(),
            lesson,
            subject,
        ) {
            1nat
        } else {
            0nat
        }
    }
}

/// The lesson that a change is about. With a subject it is the first
/// lesson of the slot that has the subject, if there is one. Without a
/// subject it is the one lesson of the slot; a slot with no lesson or with
/// several is an error.
pub open spec fn found_lesson(
    lessons: Seq<LessonView>,
    lesson: u8,
    subject: Option<SubjectView>,
) -> Result<Option<int>, AmbiguousLesson> {
    if subject is None && count_candidates(lessons, lesson, subject) != 1 {
        Err(
            AmbiguousLesson {
                lesson,
                candidates: count_candidates(lessons, lesson, subject) as usize,
            },
        )
    } else {
        Ok(first_candidate(lessons, lesson, subject))
    }
}

/// The slot and the subject by which a change looks for its lesson, or
/// `None` for a change that looks for none.
pub open spec fn target_of(change: ChangeView) -> Option<(u8, Option<SubjectView>)> {
    match change {
        ChangeView::Cancel { lesson, subject, .. } => Some((lesson, Some(subject))),
        ChangeView::ClassIsMissing { lesson, subject, .. } => Some((lesson, Some(subject))),
        ChangeView::PlaceChange { lesson, subject, .. } => Some((lesson, Some(subject))),
        ChangeView::Replacement { lesson, subject, .. } => Some((lesson, subject.from)),
        ChangeView::Addition { .. } => None,
        ChangeView::Other { .. } => None,
    }
}

/// The lesson `found` after `change` has been made to it.
pub open spec fn changed_lesson(change: ChangeView, found: LessonView) -> LessonView {
    match change {
        ChangeView::Cancel { subject, notice, .. } => LessonView {
            subject: SubjectView::Cancel(Box::new(subject)),
            notice,
            ..found
        },
        ChangeView::ClassIsMissing { subject, notice, .. } => LessonView {
            subject: SubjectView::Cancel(Box::new(subject)),
            notice,
            ..found
        },
        ChangeView::PlaceChange { place, notice, .. } => LessonView {
            place: Some(place.to),
            notice,
            ..found
        },
        ChangeView::Replacement { subject, place, notice, .. } => LessonView {
            subject: subject.to,
            place: Some(place.to),
            notice,
            ..found
        },
        ChangeView::Addition { .. } => found,
        ChangeView::Other { .. } => found,
    }
}

/// The lesson that an addition adds to the day.
pub open spec fn added_lesson(change: ChangeView) -> LessonView
    recommends
        change is Addition,
{
    match change {
        ChangeView::Addition { lesson, subject, place, notice, .. } => LessonView {
            lesson,
            subject,
            iteration: None,
            place,
            notice,
        },
        _ => arbitrary(),
    }
}

/// What applying `change` to the lessons of a day reports: whether it
/// changed the day, or that its lesson cannot be told.
pub open spec fn apply_result(change: ChangeView, lessons: Seq<LessonView>) -> Result<
    bool,
    AmbiguousLesson,
> {
    match target_of(change) {
        Some((lesson, subject)) => match found_lesson(lessons, lesson, subject) {
            Ok(Some(_)) => Ok(true),
            Ok(None) => Ok(false),
            Err(error) => Err(error),
        },
        None => Ok(change is Addition),
    }
}

/// The lessons of a day after `change` has been applied to them. A change
/// that finds its lesson changes that lesson and no other; an addition
/// puts its lesson at the end of the day; every other change leaves the
/// day as it is.
pub open spec fn applied(change: ChangeView, lessons: Seq<LessonView>) -> Seq<LessonView> {
    match target_of(change) {
        Some((lesson, subject)) => match found_lesson(lessons, lesson, subject) {
            Ok(Some(index)) => lessons.update(index, changed_lesson(change, lessons[index])),
            _ => lessons,
        },
        None => if change is Addition {
            lessons.push(added_lesson(change))
        } else {
            lessons
        },
    }
}

/// The first candidate, if there is one, is a candidate, and no lesson
/// before it is one.
pub proof fn lemma_first_candidate(
    lessons: Seq<LessonView>,
    lesson: u8,
    subject: Option<SubjectView>,
)
    ensures
        match first_candidate(lessons, lesson, subject) {
            Some(index) => 0 <= index < lessons.len() && is_candidate(
                lessons[index],
                lesson,
                subject,
            ) && forall|i: int| 0 <= i < index ==> !is_candidate(#[trigger] lessons[i], lesson, subject),
            None => forall|i: int|
                0 <= i < lessons.len() ==> !is_candidate(#[trigger] lessons[i], lesson, subject),
        },
        count_candidates(lessons, lesson, subject) <= lessons.len(),
        first_candidate(lessons, lesson, subject) is None <==> count_candidates(
            lessons,
            lesson,
            subject,
        ) == 0,
    decreases lessons.len(),
{
    if lessons.len() > 0 {
        let init = lessons.drop_last();
        lemma_first_candidate(init, lesson, subject);
        assert forall|i: int| 0 <= i < init.len() implies init[i] == lessons[i] by {}
    }
}

/// An index that was looked for, as a number without bounds.
pub open spec fn as_found(found: Result<Option<usize>, AmbiguousLesson>) -> Result<
    Option<int>,
    AmbiguousLesson,
> {
    match found {
        Ok(Some(index)) => Ok(Some(index as int)),
        Ok(None) => Ok(None),
        Err(error) => Err(error),
    }
}

/// Looks for the lesson that a change is about and gives its index.
pub fn find_lesson(lessons: &Vec<Lesson>, lesson: u8, subject: Option<&Subject>) -> (found: Result<
    Option<usize>,
    AmbiguousLesson,
>)
    ensures
        as_found(found) == found_lesson(lessons.deep_view(), lesson, subject.deep_view()),
        found matches Ok(Some(index)) ==> index < lessons.len(),
{
    let ghost all = lessons.deep_view();
    let ghost wanted = subject.deep_view();
    let mut first: Option<usize> = None;
    let mut count: usize = 0;
    let mut i: usize = 0;
    while i < lessons.len()
        invariant
            i <= lessons.len(),
            all == lessons.deep_view(),
            wanted == subject.deep_view(),
            count == count_candidates(all.take(i as int), lesson, wanted),
            count <= i,
            match first {
                Some(index) => first_candidate(all.take(i as int), lesson, wanted) == Some(
                    index as int,
                ) && index < i,
                None => first_candidate(all.take(i as int), lesson, wanted) is None,
            },
        decreases lessons.len() - i,
    {
        let in_slot = lessons[i].lesson == lesson;
        let fits = in_slot && match subject {
            Some(subject) => lessons[i].subject.same_as(subject),
            None => true,
        };
        proof {
            assert(all.take(i + 1).drop_last() == all.take(i as int));
            assert(all.take(i + 1).last() == lessons@[i as int].deep_view());
            assert(fits == is_candidate(all.take(i + 1).last(), lesson, wanted));
        }
        if fits {
            count += 1;
            if first.is_none() {
                first = Some(i);
            }
        }
        i += 1;
    }
    proof {
        assert(all.take(i as int) == all);
    }
    if subject.is_none() && count != 1 {
        Err(AmbiguousLesson { lesson, candidates: count })
    } else {
        Ok(first)
    }
}

impl Replacement<String> {
    /// The replacement that a cell states, given what the groups of the
    /// replacement pattern captured in it.
    pub fn from_captures(value: &str, groups: Option<Vec<Option<String>>>) -> (replacement:
        Replacement<String>)
        ensures
            replacement.deep_view() == replacement_from(value@, groups.deep_view()),
    {
        match groups {
            Some(groups) => {
                if groups.len() >= 3 {
                    match (&groups[1], &groups[2]) {
                        (Some(to), Some(from)) => {
                            return Replacement { from: Some(from.clone()), to: to.clone() };
                        },
                        _ => {},
                    }
                }
                Replacement { from: None, to: value.to_owned() }
            },
            None => Replacement { from: None, to: value.to_owned() },
        }
    }

    /// Reads a cell of the form `+new (old)`. A cell of another form is a
    /// new value as a whole, with nothing known of the old one: reading
    /// never fails.
    pub fn try_from(value: &str) -> (replacement: Replacement<String>)
        ensures
            replacement.deep_view() == replacement_of(value@),
    {
        let groups = captures("\\+(.*) \\((.+)\\)", value);
        Replacement::from_captures(value, groups)
    }

    /// The subjects that the two sides name.
    pub fn into_subjects(self) -> (subjects: Replacement<Subject>)
        ensures
            subjects.deep_view() == subject_replacement(self.deep_view()),
    {
        let from = match &self.from {
            Some(code) => Some(Subject::from(code.as_str())),
            None => None,
        };
        Replacement { from, to: Subject::from(self.to.as_str()) }
    }

    /// The lists that the two sides hold.
    pub fn into_lists(self) -> (lists: Replacement<Vec<String>>)
        ensures
            lists.deep_view() == list_replacement(self.deep_view()),
    {
        let from = match &self.from {
            Some(list) => Some(parse_list(list.as_str())),
            None => None,
        };
        Replacement { from, to: parse_list(self.to.as_str()) }
    }
}

/// The kind of change that the type `value` stands for, given whether it
/// has the form of a lesson moved to, or brought from, another day.
pub fn classify(value: &str, moved_to: bool, moved_from: bool) -> (kind: ChangeKind)
    ensures
        kind == kind_of(value@, moved_to, moved_from),
{
    if same_text(value, "Klasse fehlt") {
        ChangeKind::ClassIsMissing
    } else if same_text(value, "Fällt aus") || moved_to {
        ChangeKind::Cancel
    } else if same_text(value, "Raumänderung") {
        ChangeKind::PlaceChange
    } else if same_text(value, "Zusatzunterricht") {
        ChangeKind::Addition
    } else if same_text(value, "Vertreten") || moved_from {
        ChangeKind::Replacement
    } else {
        ChangeKind::Other
    }
}

impl Change {
    /// The change of kind `kind` that the cells of a row state.
    pub fn of_kind(
        kind: ChangeKind,
        lesson: u8,
        value: &str,
        subject: &str,
        place: String,
        teacher: &str,
        notice: Option<String>,
    ) -> (change: Change)
        ensures
            change.deep_view() == change_of_kind(
                kind,
                lesson,
                value@,
                subject@,
                place@,
                teacher@,
                notice.deep_view(),
            ),
    {
        match kind {
            ChangeKind::Cancel => Change::Cancel {
                lesson,
                subject: Subject::from(subject),
                teachers: parse_list(teacher),
                place,
                notice,
            },
            ChangeKind::PlaceChange => Change::PlaceChange {
                lesson,
                subject: Subject::from(subject),
                teachers: parse_list(teacher),
                place: Replacement::try_from(place.as_str()),
                notice,
            },
            ChangeKind::Addition => Change::Addition {
                lesson,
                subject: Subject::from(subject),
                teachers: parse_list(teacher),
                place: if place.as_str().unicode_len() == 0 {
                    None
                } else {
                    Some(place)
                },
                notice,
            },
            ChangeKind::Replacement => Change::Replacement {
                lesson,
                subject: Replacement::try_from(subject).into_subjects(),
                teachers: Replacement::try_from(teacher).into_lists(),
                place: Replacement::try_from(place.as_str()),
                notice,
            },
            ChangeKind::ClassIsMissing => Change::ClassIsMissing {
                lesson,
                subject: Subject::from(subject),
                teachers: parse_list(teacher),
                place,
                notice,
            },
            ChangeKind::Other => Change::Other {
                lesson,
                value: value.to_owned(),
                subject: Subject::from(subject),
                teachers: parse_list(teacher),
                place,
                notice,
            },
        }
    }

    /// The change that the cells of a row state: `value` is the type of
    /// the change. A type that the vocabulary does not hold gives `Other`;
    /// no row is refused.
    pub fn new(
        lesson: u8,
        value: &str,
        subject: &str,
        place: String,
        teacher: &str,
        notice: Option<String>,
    ) -> (change: Change)
        ensures
            change.deep_view() == change_of(
                lesson,
                value@,
                subject@,
                place@,
                teacher@,
                notice.deep_view(),
            ),
    {
        let moved_to = is_match("Auf .+ verschoben", value);
        let moved_from = is_match("Von .+ verschoben", value);
        let kind = classify(value, moved_to, moved_from);
        Change::of_kind(kind, lesson, value, subject, place, teacher, notice)
    }

    /// The slot of the change.
    pub open spec fn spec_lesson(&self) -> u8 {
        match self {
            Change::Cancel { lesson, .. } => *lesson,
            Change::PlaceChange { lesson, .. } => *lesson,
            Change::Addition { lesson, .. } => *lesson,
            Change::Replacement { lesson, .. } => *lesson,
            Change::ClassIsMissing { lesson, .. } => *lesson,
            Change::Other { lesson, .. } => *lesson,
        }
    }

    /// The slot of the change.
    #[verifier::when_used_as_spec(spec_lesson)]
    pub fn lesson(&self) -> (lesson: u8)
        ensures
            lesson == self.spec_lesson(),
            lesson == lesson_of(self.deep_view()),
    {
        match self {
            Change::Cancel { lesson, .. } => *lesson,
            Change::PlaceChange { lesson, .. } => *lesson,
            Change::Addition { lesson, .. } => *lesson,
            Change::Replacement { lesson, .. } => *lesson,
            Change::ClassIsMissing { lesson, .. } => *lesson,
            Change::Other { lesson, .. } => *lesson,
        }
    }

    /// Applies the change to the lessons of a day. `Ok(true)` says that
    /// the day was changed, `Ok(false)` that the change found no lesson to
    /// change and left the day as it was; so does an error.
    pub fn apply(&self, lessons: &mut Vec<Lesson>) -> (result: Result<bool, AmbiguousLesson>)
        ensures
            result == apply_result(self.deep_view(), old(lessons).deep_view()),
            final(lessons).deep_view() == applied(self.deep_view(), old(lessons).deep_view()),
    {
        let ghost before = lessons.deep_view();
        match self {
            Change::Cancel { lesson, subject, notice, .. } => {
                match find_lesson(lessons, *lesson, Some(subject)) {
                    Ok(Some(index)) => {
                        lessons[index].subject = Subject::Cancel(Box::new(subject.clone()));
                        lessons[index].notice = clone_text(notice);
                        assert(lessons.deep_view() == applied(self.deep_view(), before));
                        Ok(true)
                    },
                    Ok(None) => Ok(false),
                    Err(error) => Err(error),
                }
            },
            Change::ClassIsMissing { lesson, subject, notice, .. } => {
                match find_lesson(lessons, *lesson, Some(subject)) {
                    Ok(Some(index)) => {
                        lessons[index].subject = Subject::Cancel(Box::new(subject.clone()));
                        lessons[index].notice = clone_text(notice);
                        assert(lessons.deep_view() == applied(self.deep_view(), before));
                        Ok(true)
                    },
                    Ok(None) => Ok(false),
                    Err(error) => Err(error),
                }
            },
            Change::PlaceChange { lesson, subject, place, notice, .. } => {
                match find_lesson(lessons, *lesson, Some(subject)) {
                    Ok(Some(index)) => {
                        lessons[index].place = Some(place.to.clone());
                        lessons[index].notice = clone_text(notice);
                        assert(lessons.deep_view() == applied(self.deep_view(), before));
                        Ok(true)
                    },
                    Ok(None) => Ok(false),
                    Err(error) => Err(error),
                }
            },
            Change::Addition { lesson, subject, place, notice, .. } => {
                lessons.push(
                    Lesson {
                        lesson: *lesson,
                        subject: subject.clone(),
                        iteration: None,
                        place: clone_text(place),
                        notice: clone_text(notice),
                    },
                );
                assert(lessons.deep_view() == applied(self.deep_view(), before));
                Ok(true)
            },
            Change::Replacement { lesson, subject, place, notice, .. } => {
                match find_lesson(lessons, *lesson, subject.from.as_ref()) {
                    Ok(Some(index)) => {
                        lessons[index].subject = subject.to.clone();
                        lessons[index].place = Some(place.to.clone());
                        lessons[index].notice = clone_text(notice);
                        assert(lessons.deep_view() == applied(self.deep_view(), before));
                        Ok(true)
                    },
                    Ok(None) => Ok(false),
                    Err(error) => Err(error),
                }
            },
            Change::Other { .. } => Ok(false),
        }
    }
}

/// Whether two replacements of texts say the same.
pub fn same_text_replacement(a: &Replacement<String>, b: &Replacement<String>) -> (same: bool)
    ensures
        same == (a.deep_view() == b.deep_view()),
{
    same_optional_text(&a.from, &b.from) && a.to == b.to
}

/// Whether two replacements of subjects say the same.
pub fn same_subject_replacement(a: &Replacement<Subject>, b: &Replacement<Subject>) -> (same: bool)
    ensures
        same == (a.deep_view() == b.deep_view()),
{
    let same_from = match &a.from {
        Some(from) => match &b.from {
            Some(other_from) => from.same_as(other_from),
            None => false,
        },
        None => b.from.is_none(),
    };
    same_from && a.to.same_as(&b.to)
}

/// Whether two replacements of lists say the same.
pub fn same_list_replacement(a: &Replacement<Vec<String>>, b: &Replacement<Vec<String>>) -> (same:
    bool)
    ensures
        same == (a.deep_view() == b.deep_view()),
{
    let same_from = match &a.from {
        Some(from) => match &b.from {
            Some(other_from) => same_texts(from, other_from),
            None => false,
        },
        None => b.from.is_none(),
    };
    same_from && same_texts(&a.to, &b.to)
}

/// A copy of a replacement of texts.
pub fn clone_text_replacement(replacement: &Replacement<String>) -> (copy: Replacement<String>)
    ensures
        copy.deep_view() == replacement.deep_view(),
{
    Replacement { from: clone_text(&replacement.from), to: replacement.to.clone() }
}

/// A copy of a replacement of subjects.
pub fn clone_subject_replacement(replacement: &Replacement<Subject>) -> (copy: Replacement<Subject>)
    ensures
        copy.deep_view() == replacement.deep_view(),
{
    let from = match &replacement.from {
        Some(from) => Some(from.clone()),
        None => None,
    };
    Replacement { from, to: replacement.to.clone() }
}

/// A copy of a replacement of lists.
pub fn clone_list_replacement(replacement: &Replacement<Vec<String>>) -> (copy: Replacement<
    Vec<String>,
>)
    ensures
        copy.deep_view() == replacement.deep_view(),
{
    let from = match &replacement.from {
        Some(from) => Some(clone_texts(from)),
        None => None,
    };
    Replacement { from, to: clone_texts(&replacement.to) }
}

/// The slot of a change.
pub open spec fn lesson_of(change: ChangeView) -> u8 {
    match change {
        ChangeView::Cancel { lesson, .. } => lesson,
        ChangeView::PlaceChange { lesson, .. } => lesson,
        ChangeView::Addition { lesson, .. } => lesson,
        ChangeView::Replacement { lesson, .. } => lesson,
        ChangeView::ClassIsMissing { lesson, .. } => lesson,
        ChangeView::Other { lesson, .. } => lesson,
    }
}

/// The notice of a change.
pub open spec fn notice_of(change: ChangeView) -> Option<Seq<char>> {
    match change {
        ChangeView::Cancel { notice, .. } => notice,
        ChangeView::PlaceChange { notice, .. } => notice,
        ChangeView::Addition { notice, .. } => notice,
        ChangeView::Replacement { notice, .. } => notice,
        ChangeView::ClassIsMissing { notice, .. } => notice,
        ChangeView::Other { notice, .. } => notice,
    }
}

/// A change states the slot and the notice that it was made with.
pub proof fn lemma_change_keeps_lesson_and_notice(
    lesson: u8,
    value: Seq<char>,
    subject: Seq<char>,
    place: Seq<char>,
    teacher: Seq<char>,
    notice: Option<Seq<char>>,
)
    ensures
        lesson_of(change_of(lesson, value, subject, place, teacher, notice)) == lesson,
        notice_of(change_of(lesson, value, subject, place, teacher, notice)) == notice,
{
}

impl Change {
    /// The notice of the change.
    pub fn notice(&self) -> (notice: &Option<String>)
        ensures
            notice.deep_view() == notice_of(self.deep_view()),
    {
        match self {
            Change::Cancel { notice, .. } => notice,
            Change::PlaceChange { notice, .. } => notice,
            Change::Addition { notice, .. } => notice,
            Change::Replacement { notice, .. } => notice,
            Change::ClassIsMissing { notice, .. } => notice,
            Change::Other { notice, .. } => notice,
        }
    }

    /// Whether two changes say the same.
    pub fn same_as(&self, other: &Change) -> (same: bool)
        ensures
            same == (self.deep_view() == other.deep_view()),
    {
        match self {
            Change::Cancel { lesson, subject, teachers, place, notice } => match other {
                Change::Cancel { lesson: other_lesson, subject: other_subject, teachers: other_teachers, place: other_place, notice: other_notice } => {
                    *lesson == *other_lesson
                        && subject.same_as(other_subject)
                        && same_texts(teachers, other_teachers)
                        && *place == *other_place
                        && same_optional_text(notice, other_notice)
                },
                _ => false,
            },
            Change::PlaceChange { lesson, subject, teachers, place, notice } => match other {
                Change::PlaceChange { lesson: other_lesson, subject: other_subject, teachers: other_teachers, place: other_place, notice: other_notice } => {
                    *lesson == *other_lesson
                        && subject.same_as(other_subject)
                        && same_texts(teachers, other_teachers)
                        && same_text_replacement(place, other_place)
                        && same_optional_text(notice, other_notice)
                },
                _ => false,
            },
            Change::Addition { lesson, subject, teachers, place, notice } => match other {
                Change::Addition { lesson: other_lesson, subject: other_subject, teachers: other_teachers, place: other_place, notice: other_notice } => {
                    *lesson == *other_lesson
                        && subject.same_as(other_subject)
                        && same_texts(teachers, other_teachers)
                        && same_optional_text(place, other_place)
                        && same_optional_text(notice, other_notice)
                },
                _ => false,
            },
            Change::Replacement { lesson, subject, teachers, place, notice } => match other {
                Change::Replacement { lesson: other_lesson, subject: other_subject, teachers: other_teachers, place: other_place, notice: other_notice } => {
                    *lesson == *other_lesson
                        && same_subject_replacement(subject, other_subject)
                        && same_list_replacement(teachers, other_teachers)
                        && same_text_replacement(place, other_place)
                        && same_optional_text(notice, other_notice)
                },
                _ => false,
            },
            Change::ClassIsMissing { lesson, subject, teachers, place, notice } => match other {
                Change::ClassIsMissing { lesson: other_lesson, subject: other_subject, teachers: other_teachers, place: other_place, notice: other_notice } => {
                    *lesson == *other_lesson
                        && subject.same_as(other_subject)
                        && same_texts(teachers, other_teachers)
                        && *place == *other_place
                        && same_optional_text(notice, other_notice)
                },
                _ => false,
            },
            Change::Other { lesson, value, subject, teachers, place, notice } => match other {
                Change::Other { lesson: other_lesson, value: other_value, subject: other_subject, teachers: other_teachers, place: other_place, notice: other_notice } => {
                    *lesson == *other_lesson
                        && *value == *other_value
                        && subject.same_as(other_subject)
                        && same_texts(teachers, other_teachers)
                        && *place == *other_place
                        && same_optional_text(notice, other_notice)
                },
                _ => false,
            },
        }
    }
}

impl Clone for Change {
    fn clone(&self) -> (copy: Change)
        ensures
            copy.deep_view() == self.deep_view(),
    {
        match self {
            Change::Cancel { lesson, subject, teachers, place, notice } => Change::Cancel {
                lesson: *lesson,
                subject: subject.clone(),
                teachers: clone_texts(teachers),
                place: place.clone(),
                notice: clone_text(notice),
            },
            Change::PlaceChange { lesson, subject, teachers, place, notice } => Change::PlaceChange {
                lesson: *lesson,
                subject: subject.clone(),
                teachers: clone_texts(teachers),
                place: clone_text_replacement(place),
                notice: clone_text(notice),
            },
            Change::Addition { lesson, subject, teachers, place, notice } => Change::Addition {
                lesson: *lesson,
                subject: subject.clone(),
                teachers: clone_texts(teachers),
                place: clone_text(place),
                notice: clone_text(notice),
            },
            Change::Replacement { lesson, subject, teachers, place, notice } => Change::Replacement {
                lesson: *lesson,
                subject: clone_subject_replacement(subject),
                teachers: clone_list_replacement(teachers),
                place: clone_text_replacement(place),
                notice: clone_text(notice),
            },
            Change::ClassIsMissing { lesson, subject, teachers, place, notice } => Change::ClassIsMissing {
                lesson: *lesson,
                subject: subject.clone(),
                teachers: clone_texts(teachers),
                place: place.clone(),
                notice: clone_text(notice),
            },
            Change::Other { lesson, value, subject, teachers, place, notice } => Change::Other {
                lesson: *lesson,
                value: value.clone(),
                subject: subject.clone(),
                teachers: clone_texts(teachers),
                place: place.clone(),
                notice: clone_text(notice),
            },
        }
    }
}

impl PartialEq for Change {
    fn eq(&self, other: &Change) -> (same: bool) {
        self.same_as(other)
    }
}

impl PartialEqSpecImpl for Change {
    open spec fn obeys_eq_spec() -> bool {
        true
    }

    open spec fn eq_spec(&self, other: &Change) -> bool {
        self.deep_view() == other.deep_view()
    }
}

impl Eq for Change {
}

} // verus!
