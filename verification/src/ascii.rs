use crate::text::{blanks, decimal_of, decimal_string, pad};
use crate::timetable::{label_of, Lesson, LessonView};
use vstd::prelude::*;
use vstd::string::*;

verus! {

/// What a lesson shows in column `column` of the table: its number in
/// column 0, the label of its subject in column 1, its place in column 2.
/// A lesson without a place shows nothing there.
pub open spec fn cell(lesson: LessonView, column: int) -> Seq<char> {
    if column == 0 {
        decimal_of(lesson.lesson as nat)
    } else if column == 1 {
        label_of(lesson.subject)
    } else {
        match lesson.place {
            Some(place) => place,
            None => Seq::empty(),
        }
    }
}

/// The width of column `column`: the length of its longest cell, counted in
/// characters.
pub open spec fn width(day: Seq<LessonView>, column: int) -> nat
    decreases day.len(),
{
    if day.len() == 0 {
        0
    } else {
        let rest = width(day.drop_last(), column);
        let last = cell(day.last(), column).len();
        if rest >= last {
            rest
        } else {
            last
        }
    }
}

/// A cell followed by the blanks that fill it up to `width`.
pub open spec fn filled(cell: Seq<char>, width: nat) -> Seq<char> {
    cell + blanks((width - cell.len()) as nat)
}

/// The line of one lesson: number, subject and place, a blank between
/// them, the first two filled up to the width of their columns. A notice
/// follows the place, which is then filled up too.
pub open spec fn line(lesson: LessonView, widths: (nat, nat, nat)) -> Seq<char> {
    let start = filled(cell(lesson, 0), widths.0) + seq![' '] + filled(cell(lesson, 1), widths.1)
        + seq![' '];
    match lesson.notice {
        Some(notice) => start + filled(cell(lesson, 2), widths.2) + seq![' '] + notice,
        None => start + cell(lesson, 2),
    }
}

/// The lines of the first `n` lessons of `day`, a line feed between them.
pub open spec fn lines(day: Seq<LessonView>, widths: (nat, nat, nat), n: nat) -> Seq<char>
    decreases n,
{
    if n == 0 {
        Seq::empty()
    } else if n == 1 {
        line(day[0], widths)
    } else {
        lines(day, widths, (n - 1) as nat) + seq!['\n'] + line(day[n - 1], widths)
    }
}

/// The table of the lessons of a day: one line for each lesson, in the
/// order of `day`, its columns as wide as their longest cell.
pub open spec fn table_of(day: Seq<LessonView>) -> Seq<char> {
    lines(day, (width(day, 0), width(day, 1), width(day, 2)), day.len())
}

/// No cell is wider than its column.
pub proof fn lemma_cell_fits(day: Seq<LessonView>, column: int, i: int)
    requires
        0 <= i < day.len(),
    ensures
        cell(day[i], column).len() <= width(day, column),
    decreases day.len(),
{
    if i < day.len() - 1 {
        lemma_cell_fits(day.drop_last(), column, i);
    }
}

/// The larger of two lengths.
fn longer(a: usize, b: usize) -> (longest: usize)
    ensures
        longest == if a >= b {
            a
        } else {
            b
        },
{
    if a >= b {
        a
    } else {
        b
    }
}

/// The place of a lesson, or nothing where it has none.
fn place_of(lesson: &Lesson) -> (place: &str)
    ensures
        place@ == cell(lesson.deep_view(), 2),
{
    match &lesson.place {
        Some(place) => place.as_str(),
        None => {
            proof {
                reveal_strlit("");
            }
            ""
        },
    }
}

/// Lays out the lessons of a day as a table of text with the columns
/// lesson, subject, place and notice.
pub fn table(day: Vec<Lesson>) -> (out: String)
    ensures
        out@ == table_of(day.deep_view()),
{
    let ghost all = day.deep_view();
    let mut lesson_w: usize = 0;
    let mut subject_w: usize = 0;
    let mut place_w: usize = 0;
    let mut i: usize = 0;
    while i < day.len()
        invariant
            i <= day.len(),
            all == day.deep_view(),
            lesson_w == width(all.take(i as int), 0),
            subject_w == width(all.take(i as int), 1),
            place_w == width(all.take(i as int), 2),
        decreases day.len() - i,
    {
        let l = decimal_string(day[i].lesson);
        let s = day[i].subject.label();
        let p = place_of(&day[i]);
        proof {
            assert(all.take(i + 1).drop_last() == all.take(i as int));
            assert(all.take(i + 1).last() == day@[i as int].deep_view());
        }
        lesson_w = longer(lesson_w, l.as_str().unicode_len());
        subject_w = longer(subject_w, s.as_str().unicode_len());
        place_w = longer(place_w, p.unicode_len());
        i += 1;
    }
    assert(all.take(day.len() as int) == all);
    let ghost widths = (lesson_w as nat, subject_w as nat, place_w as nat);
    let mut out = String::new();
    let mut i: usize = 0;
    proof {
        reveal_strlit(" ");
        reveal_strlit("\n");
    }
    while i < day.len()
        invariant
            i <= day.len(),
            all == day.deep_view(),
            widths == (width(all, 0), width(all, 1), width(all, 2)),
            widths == (lesson_w as nat, subject_w as nat, place_w as nat),
            " "@ == seq![' '],
            "\n"@ == seq!['\n'],
            out@ == lines(all, widths, i as nat),
        decreases day.len() - i,
    {
        let l = decimal_string(day[i].lesson);
        let s = day[i].subject.label();
        let p = place_of(&day[i]);
        let ghost lesson = all[i as int];
        let ghost above = out@;
        proof {
            assert(lesson == day@[i as int].deep_view());
            lemma_cell_fits(all, 0, i as int);
            lemma_cell_fits(all, 1, i as int);
            lemma_cell_fits(all, 2, i as int);
        }
        if i > 0 {
            out.append("\n");
        }
        let ghost begun = out@;
        out.append(l.as_str());
        pad(&mut out, lesson_w - l.as_str().unicode_len());
        out.append(" ");
        out.append(s.as_str());
        pad(&mut out, subject_w - s.as_str().unicode_len());
        out.append(" ");
        out.append(p);
        match &day[i].notice {
            Some(notice) => {
                pad(&mut out, place_w - p.unicode_len());
                out.append(" ");
                out.append(notice.as_str());
            },
            None => {},
        }
        proof {
            assert(out@ == begun + line(lesson, widths));
            if i > 0 {
                assert(begun == above + seq!['\n']);
            } else {
                assert(above == Seq::<char>::empty());
                assert(begun + line(lesson, widths) == line(lesson, widths));
            }
        }
        i += 1;
    }
    out
}

} // verus!
