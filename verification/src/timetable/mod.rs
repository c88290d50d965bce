use crate::text::{chars_of, clone_text, text_is};
use vstd::prelude::*;
use vstd::std_specs::cmp::PartialEqSpecImpl;
use vstd::string::*;

pub mod igd21;

verus! {

/// A subject of the timetable.
#[derive(Debug, Hash)]
pub enum Subject {
    GermanBasic,
    GermanAdvanced,
    MathBasic,
    MathAdvanced,
    EnglishBasic,
    EnglishAdvanced,
    Art,
    History,
    French,
    Ethics,
    Russian,
    Chemistry,
    Physics,
    PhysicalEducation,
    Literature,
    Lf6_7_9,
    Lf9_12,
    Lf8,
    Lf10,
    Lf11,
    Lf13,
    FaeVerb,
    /// The subject of an empty code.
    NoSubject,
    /// A lesson of the wrapped subject that does not take place.
    Cancel(Box<Subject>),
    /// A subject code that the catalog does not know, kept as it was read.
    Other(String),
}

/// What a `Subject` stands for: a subject of the catalog, a cancelled
/// subject, or the text of an unknown code.
pub ghost enum SubjectView {
    /// One of the subjects of the catalog, held as the variant itself.
    Known(Subject),
    Cancel(Box<SubjectView>),
    Other(Seq<char>),
}

/// The subject that the timetable code `code` stands for.
pub open spec fn subject_of(code: Seq<char>) -> SubjectView {
    if code == "DEU"@ {
        SubjectView::Known(Subject::GermanBasic)
    } else if code == "LK-DEU"@ {
        SubjectView::Known(Subject::GermanAdvanced)
    } else if code == "MA"@ {
        SubjectView::Known(Subject::MathBasic)
    } else if code == "LK-MA"@ {
        SubjectView::Known(Subject::MathAdvanced)
    } else if code == "ENG"@ {
        SubjectView::Known(Subject::EnglishBasic)
    } else if code == "LK-ENG"@ {
        SubjectView::Known(Subject::EnglishAdvanced)
    } else if code == "BK"@ {
        SubjectView::Known(Subject::Art)
    } else if code == "BK1"@ {
        SubjectView::Known(Subject::Art)
    } else if code == "BK2"@ {
        SubjectView::Known(Subject::Art)
    } else if code == "GGK"@ {
        SubjectView::Known(Subject::History)
    } else if code == "F-B"@ {
        SubjectView::Known(Subject::French)
    } else if code == "ETH"@ {
        SubjectView::Known(Subject::Ethics)
    } else if code == "R-B"@ {
        SubjectView::Known(Subject::Russian)
    } else if code == "CH"@ {
        SubjectView::Known(Subject::Chemistry)
    } else if code == "PHY"@ {
        SubjectView::Known(Subject::Physics)
    } else if code == "SP"@ {
        SubjectView::Known(Subject::PhysicalEducation)
    } else if code == "LIT"@ {
        SubjectView::Known(Subject::Literature)
    } else if code == "LF 6+7+9"@ {
        SubjectView::Known(Subject::Lf6_7_9)
    } else if code == "LF 9+12"@ {
        SubjectView::Known(Subject::Lf9_12)
    } else if code == "IS-GP"@ {
        SubjectView::Known(Subject::Lf9_12)
    } else if code == "LF8D_I1"@ {
        SubjectView::Known(Subject::Lf8)
    } else if code == "LF8D_I2"@ {
        SubjectView::Known(Subject::Lf8)
    } else if code == "LF10D_I1"@ {
        SubjectView::Known(Subject::Lf10)
    } else if code == "LF10D_I2"@ {
        SubjectView::Known(Subject::Lf10)
    } else if code == "LF11D"@ {
        SubjectView::Known(Subject::Lf11)
    } else if code == "LF11D_I1"@ {
        SubjectView::Known(Subject::Lf11)
    } else if code == "LF11D_I2"@ {
        SubjectView::Known(Subject::Lf11)
    } else if code == "LF13D_I1"@ {
        SubjectView::Known(Subject::Lf13)
    } else if code == "LF13D_I2"@ {
        SubjectView::Known(Subject::Lf13)
    } else if code == "_fä.verb."@ {
        SubjectView::Known(Subject::FaeVerb)
    } else if code == ""@ {
        SubjectView::Known(Subject::NoSubject)
    } else {
        SubjectView::Other(code)
    }
}

/// The label under which a subject is shown. A cancelled subject shows the
/// label of the subject it wraps, in brackets; an unknown code shows itself.
pub open spec fn label_of(subject: SubjectView) -> Seq<char>
    decreases subject,
{
    match subject {
        SubjectView::Cancel(inner) => seq!['('] + label_of(*inner) + seq![')'],
        SubjectView::Other(code) => code,
        SubjectView::Known(known) => {
            match known {
                Subject::GermanBasic => "D"@,
                Subject::GermanAdvanced => "LK-D"@,
                Subject::MathBasic => "Ma"@,
                Subject::MathAdvanced => "LK-Ma"@,
                Subject::EnglishBasic => "En"@,
                Subject::EnglishAdvanced => "LK-En"@,
                Subject::Art => "BK"@,
                Subject::History => "Ge"@,
                Subject::French => "Frz"@,
                Subject::Ethics => "Eth"@,
                Subject::Russian => "Ru"@,
                Subject::Chemistry => "Ch"@,
                Subject::Physics => "Ph"@,
                Subject::PhysicalEducation => "Sp"@,
                Subject::Literature => "Lit"@,
                Subject::Lf6_7_9 => "LF 6+7+9"@,
                Subject::Lf9_12 => "LF 9+12"@,
                Subject::Lf8 => "LF 8"@,
                Subject::Lf10 => "LF 10"@,
                Subject::Lf11 => "LF 11"@,
                Subject::Lf13 => "LF 13"@,
                Subject::FaeVerb => "Fä-Verb"@,
                Subject::NoSubject => "None"@,
                Subject::Cancel(_) => Seq::empty(),
                Subject::Other(_) => Seq::empty(),
            }
        },
    }
}

/// Two subjects of the catalog that have the same rank are the same.
pub proof fn lemma_rank_tells_known_subjects_apart(a: Subject, b: Subject)
    requires
        a.model() is Known,
        b.model() is Known,
        a.spec_rank() == b.spec_rank(),
    ensures
        a == b,
{
}

impl Subject {
    /// What this subject stands for.
    pub open spec fn model(self) -> SubjectView
        decreases self,
    {
        match self {
            Subject::Cancel(inner) => SubjectView::Cancel(Box::new((*inner).model())),
            Subject::Other(text) => SubjectView::Other(text@),
            _ => SubjectView::Known(self),
        }
    }

    /// The place of a subject in the catalog, counted from 0; the two
    /// open variants come after the catalog.
    pub open spec fn spec_rank(&self) -> u8 {
        match self {
            Subject::GermanBasic => 0,
            Subject::GermanAdvanced => 1,
            Subject::MathBasic => 2,
            Subject::MathAdvanced => 3,
            Subject::EnglishBasic => 4,
            Subject::EnglishAdvanced => 5,
            Subject::Art => 6,
            Subject::History => 7,
            Subject::French => 8,
            Subject::Ethics => 9,
            Subject::Russian => 10,
            Subject::Chemistry => 11,
            Subject::Physics => 12,
            Subject::PhysicalEducation => 13,
            Subject::Literature => 14,
            Subject::Lf6_7_9 => 15,
            Subject::Lf9_12 => 16,
            Subject::Lf8 => 17,
            Subject::Lf10 => 18,
            Subject::Lf11 => 19,
            Subject::Lf13 => 20,
            Subject::FaeVerb => 21,
            Subject::NoSubject => 22,
            Subject::Cancel(_) => 23,
            Subject::Other(_) => 24,
        }
    }

    /// The place of a subject in the catalog, counted from 0; the two
    /// open variants come after the catalog.
    #[verifier::when_used_as_spec(spec_rank)]
    pub fn rank(&self) -> (rank: u8)
        ensures
            rank == self.spec_rank(),
    {
        match self {
            Subject::GermanBasic => 0,
            Subject::GermanAdvanced => 1,
            Subject::MathBasic => 2,
            Subject::MathAdvanced => 3,
            Subject::EnglishBasic => 4,
            Subject::EnglishAdvanced => 5,
            Subject::Art => 6,
            Subject::History => 7,
            Subject::French => 8,
            Subject::Ethics => 9,
            Subject::Russian => 10,
            Subject::Chemistry => 11,
            Subject::Physics => 12,
            Subject::PhysicalEducation => 13,
            Subject::Literature => 14,
            Subject::Lf6_7_9 => 15,
            Subject::Lf9_12 => 16,
            Subject::Lf8 => 17,
            Subject::Lf10 => 18,
            Subject::Lf11 => 19,
            Subject::Lf13 => 20,
            Subject::FaeVerb => 21,
            Subject::NoSubject => 22,
            Subject::Cancel(_) => 23,
            Subject::Other(_) => 24,
        }
    }

    /// Whether two subjects stand for the same thing.
    pub fn same_as(&self, other: &Subject) -> (same: bool)
        ensures
            same == (self.deep_view() == other.deep_view()),
        decreases self,
    {
        match self {
            Subject::Cancel(inner) => match other {
                Subject::Cancel(other_inner) => inner.same_as(other_inner),
                _ => false,
            },
            Subject::Other(code) => match other {
                Subject::Other(other_code) => *code == *other_code,
                _ => false,
            },
            _ => match other {
                Subject::Cancel(_) => false,
                Subject::Other(_) => false,
                _ => {
                    let same = self.rank() == other.rank();
                    proof {
                        if same {
                            lemma_rank_tells_known_subjects_apart(*self, *other);
                        }
                    }
                    same
                },
            },
        }
    }

    /// The subject that the timetable code `value` stands for. A code that
    /// the catalog does not know is kept as `Other`.
    pub fn from(value: &str) -> (subject: Subject)
        ensures
            subject.deep_view() == subject_of(value@),
    {
        let code = chars_of(value);
        if text_is(&code, "DEU") {
            Subject::GermanBasic
        } else if text_is(&code, "LK-DEU") {
            Subject::GermanAdvanced
        } else if text_is(&code, "MA") {
            Subject::MathBasic
        } else if text_is(&code, "LK-MA") {
            Subject::MathAdvanced
        } else if text_is(&code, "ENG") {
            Subject::EnglishBasic
        } else if text_is(&code, "LK-ENG") {
            Subject::EnglishAdvanced
        } else if text_is(&code, "BK") {
            Subject::Art
        } else if text_is(&code, "BK1") {
            Subject::Art
        } else if text_is(&code, "BK2") {
            Subject::Art
        } else if text_is(&code, "GGK") {
            Subject::History
        } else if text_is(&code, "F-B") {
            Subject::French
        } else if text_is(&code, "ETH") {
            Subject::Ethics
        } else if text_is(&code, "R-B") {
            Subject::Russian
        } else if text_is(&code, "CH") {
            Subject::Chemistry
        } else if text_is(&code, "PHY") {
            Subject::Physics
        } else if text_is(&code, "SP") {
            Subject::PhysicalEducation
        } else if text_is(&code, "LIT") {
            Subject::Literature
        } else if text_is(&code, "LF 6+7+9") {
            Subject::Lf6_7_9
        } else if text_is(&code, "LF 9+12") {
            Subject::Lf9_12
        } else if text_is(&code, "IS-GP") {
            Subject::Lf9_12
        } else if text_is(&code, "LF8D_I1") {
            Subject::Lf8
        } else if text_is(&code, "LF8D_I2") {
            Subject::Lf8
        } else if text_is(&code, "LF10D_I1") {
            Subject::Lf10
        } else if text_is(&code, "LF10D_I2") {
            Subject::Lf10
        } else if text_is(&code, "LF11D") {
            Subject::Lf11
        } else if text_is(&code, "LF11D_I1") {
            Subject::Lf11
        } else if text_is(&code, "LF11D_I2") {
            Subject::Lf11
        } else if text_is(&code, "LF13D_I1") {
            Subject::Lf13
        } else if text_is(&code, "LF13D_I2") {
            Subject::Lf13
        } else if text_is(&code, "_fä.verb.") {
            Subject::FaeVerb
        } else if text_is(&code, "") {
            Subject::NoSubject
        } else {
            Subject::Other(value.to_owned())
        }
    }

    /// The subject that takes or took place, and whether it is
    /// cancelled: of a cancelled subject, the one that it wraps.
    pub fn without_cancel(self) -> (result: (Subject, bool))
        ensures
            match self.deep_view() {
                SubjectView::Cancel(inner) => result.0.deep_view() == *inner && result.1,
                other => result.0.deep_view() == other && !result.1,
            },
    {
        match self {
            Subject::Cancel(inner) => (*inner, true),
            subject => (subject, false),
        }
    }

    /// The label under which the subject is shown.
    pub fn label(&self) -> (label: String)
        ensures
            label@ == label_of(self.deep_view()),
        decreases self,
    {
        match self {
            Subject::GermanBasic => "D".to_owned(),
            Subject::GermanAdvanced => "LK-D".to_owned(),
            Subject::MathBasic => "Ma".to_owned(),
            Subject::MathAdvanced => "LK-Ma".to_owned(),
            Subject::EnglishBasic => "En".to_owned(),
            Subject::EnglishAdvanced => "LK-En".to_owned(),
            Subject::Art => "BK".to_owned(),
            Subject::History => "Ge".to_owned(),
            Subject::French => "Frz".to_owned(),
            Subject::Ethics => "Eth".to_owned(),
            Subject::Russian => "Ru".to_owned(),
            Subject::Chemistry => "Ch".to_owned(),
            Subject::Physics => "Ph".to_owned(),
            Subject::PhysicalEducation => "Sp".to_owned(),
            Subject::Literature => "Lit".to_owned(),
            Subject::Lf6_7_9 => "LF 6+7+9".to_owned(),
            Subject::Lf9_12 => "LF 9+12".to_owned(),
            Subject::Lf8 => "LF 8".to_owned(),
            Subject::Lf10 => "LF 10".to_owned(),
            Subject::Lf11 => "LF 11".to_owned(),
            Subject::Lf13 => "LF 13".to_owned(),
            Subject::FaeVerb => "Fä-Verb".to_owned(),
            Subject::NoSubject => "None".to_owned(),
            Subject::Cancel(inner) => {
                let mut label = "(".to_owned();
                let inner_label = inner.label();
                label.append(inner_label.as_str());
                label.append(")");
                proof {
                    reveal_strlit("(");
                    reveal_strlit(")");
                    assert("("@ == seq!['(']);
                    assert(")"@ == seq![')']);
                    assert(label@ == seq!['('] + inner_label@ + seq![')']);
                }
                label
            },
            Subject::Other(code) => code.clone(),
        }
    }
}

impl Clone for Subject {
    fn clone(&self) -> (copy: Subject)
        ensures
            copy.deep_view() == self.deep_view(),
        decreases self,
    {
        match self {
            Subject::GermanBasic => Subject::GermanBasic,
            Subject::GermanAdvanced => Subject::GermanAdvanced,
            Subject::MathBasic => Subject::MathBasic,
            Subject::MathAdvanced => Subject::MathAdvanced,
            Subject::EnglishBasic => Subject::EnglishBasic,
            Subject::EnglishAdvanced => Subject::EnglishAdvanced,
            Subject::Art => Subject::Art,
            Subject::History => Subject::History,
            Subject::French => Subject::French,
            Subject::Ethics => Subject::Ethics,
            Subject::Russian => Subject::Russian,
            Subject::Chemistry => Subject::Chemistry,
            Subject::Physics => Subject::Physics,
            Subject::PhysicalEducation => Subject::PhysicalEducation,
            Subject::Literature => Subject::Literature,
            Subject::Lf6_7_9 => Subject::Lf6_7_9,
            Subject::Lf9_12 => Subject::Lf9_12,
            Subject::Lf8 => Subject::Lf8,
            Subject::Lf10 => Subject::Lf10,
            Subject::Lf11 => Subject::Lf11,
            Subject::Lf13 => Subject::Lf13,
            Subject::FaeVerb => Subject::FaeVerb,
            Subject::NoSubject => Subject::NoSubject,
            Subject::Cancel(inner) => Subject::Cancel(Box::new((**inner).clone())),
            Subject::Other(code) => Subject::Other(code.clone()),
        }
    }
}

impl PartialEq for Subject {
    fn eq(&self, other: &Subject) -> (same: bool) {
        self.same_as(other)
    }
}

impl PartialEqSpecImpl for Subject {
    open spec fn obeys_eq_spec() -> bool {
        true
    }

    open spec fn eq_spec(&self, other: &Subject) -> bool {
        self.deep_view() == other.deep_view()
    }
}

impl Eq for Subject {
}

impl DeepView for Subject {
    type V = SubjectView;

    open spec fn deep_view(&self) -> SubjectView {
        self.model()
    }
}

/// One lesson of a day: a slot of the base timetable, or one that a change
/// has added.
#[derive(Debug)]
pub struct Lesson {
    /// The block lesson of the day, counted from 1.
    pub lesson: u8,
    pub subject: Subject,
    /// The timetable variant in which the lesson takes place; `None` for
    /// a lesson of every week.
    pub iteration: Option<u8>,
    pub place: Option<String>,
    pub notice: Option<String>,
}

/// What a `Lesson` says.
pub ghost struct LessonView {
    pub lesson: u8,
    pub subject: SubjectView,
    pub iteration: Option<u8>,
    pub place: Option<Seq<char>>,
    pub notice: Option<Seq<char>>,
}

impl DeepView for Lesson {
    type V = LessonView;

    open spec fn deep_view(&self) -> LessonView {
        LessonView {
            lesson: self.lesson,
            subject: self.subject.deep_view(),
            iteration: self.iteration,
            place: self.place.deep_view(),
            notice: self.notice.deep_view(),
        }
    }
}

/// The lesson of the base timetable in slot `lesson`, held in `place`.
pub open spec fn new_lesson(
    lesson: u8,
    iteration: Option<u8>,
    subject: SubjectView,
    place: Seq<char>,
) -> LessonView {
    LessonView { lesson, subject, iteration, place: Some(place), notice: None }
}

impl Lesson {
    /// A lesson of the base timetable: it has a place and no notice.
    pub fn new(lesson: u8, iteration: Option<u8>, subject: Subject, place: &str) -> (new: Lesson)
        ensures
            new.deep_view() == new_lesson(lesson, iteration, subject.deep_view(), place@),
    {
        Lesson { lesson, subject, iteration, place: Some(place.to_owned()), notice: None }
    }
}

impl Clone for Lesson {
    fn clone(&self) -> (copy: Lesson)
        ensures
            copy.deep_view() == self.deep_view(),
    {
        Lesson {
            lesson: self.lesson,
            subject: self.subject.clone(),
            iteration: self.iteration,
            place: clone_text(&self.place),
            notice: clone_text(&self.notice),
        }
    }
}

} // verus!
