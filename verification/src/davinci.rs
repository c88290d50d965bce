use crate::change::{applied, apply_result, AmbiguousLesson, Change, ChangeView};
use crate::date::{weekday_of, Date};
use crate::iteration::{get_iteration, iteration_on};
use crate::text::{clone_texts, same_text, same_texts};
use crate::timetable::igd21::{igd21, lessons_on};
use crate::timetable::{Lesson, LessonView};
use vstd::prelude::*;
use vstd::std_specs::cmp::PartialEqSpecImpl;

verus! {

/// One row of the substitution plan.
///
/// Two rows are equal when they state the same change: `index` and `raw`
/// do not count.
#[derive(Debug)]
pub struct Row {
    /// The place of the row in the table it was read from.
    pub index: u8,
    pub date: Date,
    pub class: Vec<String>,
    pub change: Change,
    /// The cells of the row as they were read.
    pub raw: Vec<String>,
}

/// What a `Row` says.
pub ghost struct RowView {
    pub index: u8,
    pub date: Date,
    pub class: Seq<Seq<char>>,
    pub change: ChangeView,
    pub raw: Seq<Seq<char>>,
}

/// What tells one row from another: the day, the classes and the change.
pub ghost struct RowKey {
    pub date: Date,
    pub class: Seq<Seq<char>>,
    pub change: ChangeView,
}

/// What tells the row `row` from another.
pub open spec fn key_of(row: RowView) -> RowKey {
    RowKey { date: row.date, class: row.class, change: row.change }
}

impl DeepView for Row {
    type V = RowView;

    open spec fn deep_view(&self) -> RowView {
        RowView {
            index: self.index,
            date: self.date,
            class: self.class.deep_view(),
            change: self.change.deep_view(),
            raw: self.raw.deep_view(),
        }
    }
}

impl Row {
    /// Whether two rows state the same change.
    pub fn same_as(&self, other: &Row) -> (same: bool)
        ensures
            same == (key_of(self.deep_view()) == key_of(other.deep_view())),
    {
        self.date == other.date && same_texts(&self.class, &other.class) && self.change.same_as(
            &other.change,
        )
    }
}

impl Clone for Row {
    fn clone(&self) -> (copy: Row)
        ensures
            copy.deep_view() == self.deep_view(),
    {
        Row {
            index: self.index,
            date: self.date,
            class: clone_texts(&self.class),
            change: self.change.clone(),
            raw: clone_texts(&self.raw),
        }
    }
}

impl PartialEq for Row {
    fn eq(&self, other: &Row) -> (same: bool) {
        self.same_as(other)
    }
}

impl PartialEqSpecImpl for Row {
    open spec fn obeys_eq_spec() -> bool {
        true
    }

    open spec fn eq_spec(&self, other: &Row) -> bool {
        key_of(self.deep_view()) == key_of(other.deep_view())
    }
}

impl Eq for Row {
}

/// A point in time, counted in nanoseconds since the start of 1970 in UTC.
#[derive(Clone, Copy, Debug, PartialEq, Eq, Structural, Hash, PartialOrd, Ord)]
pub struct Timestamp {
    pub unix_nanos: i128,
}

/// The changes that `rows` state, each once: the keys of the rows.
pub open spec fn keys(rows: Seq<RowView>) -> Set<RowKey> {
    Set::new(|key: RowKey| exists|i: int| 0 <= i < rows.len() && key_of(#[trigger] rows[i]) == key)
}

/// Whether no two of `rows` state the same change.
pub open spec fn all_distinct(rows: Seq<RowView>) -> bool {
    forall|i: int, j: int|
        0 <= i < j < rows.len() ==> key_of(#[trigger] rows[i]) != key_of(#[trigger] rows[j])
}

/// `rows` without the rows that state a change which a row before them
/// states already.
pub open spec fn distinct(rows: Seq<RowView>) -> Seq<RowView>
    decreases rows.len(),
{
    if rows.len() == 0 {
        rows
    } else {
        let above = distinct(rows.drop_last());
        if keys(above).contains(key_of(rows.last())) {
            above
        } else {
            above.push(rows.last())
        }
    }
}

/// Leaving out repeated changes leaves every change in, once.
pub proof fn lemma_distinct(rows: Seq<RowView>)
    ensures
        keys(distinct(rows)) == keys(rows),
        all_distinct(distinct(rows)),
        distinct(rows).len() <= rows.len(),
    decreases rows.len(),
{
    if rows.len() > 0 {
        let init = rows.drop_last();
        let above = distinct(init);
        lemma_distinct(init);
        let last = rows.last();
        assert forall|key: RowKey| keys(rows).contains(key) <==> (keys(init).contains(key) || key
            == key_of(last)) by {
            if keys(rows).contains(key) {
                let i = choose|i: int| 0 <= i < rows.len() && key_of(#[trigger] rows[i]) == key;
                if i < init.len() {
                    assert(init[i] == rows[i]);
                }
            }
            if keys(init).contains(key) {
                let i = choose|i: int| 0 <= i < init.len() && key_of(#[trigger] init[i]) == key;
                assert(rows[i] == init[i]);
            }
            if key == key_of(last) {
                assert(rows[rows.len() - 1] == last);
            }
        }
        if keys(above).contains(key_of(last)) {
            assert(keys(above) =~= keys(rows));
        } else {
            let all = above.push(last);
            assert forall|key: RowKey| keys(all).contains(key) <==> (keys(above).contains(key)
                || key == key_of(last)) by {
                if keys(all).contains(key) {
                    let i = choose|i: int| 0 <= i < all.len() && key_of(#[trigger] all[i]) == key;
                    if i < above.len() {
                        assert(above[i] == all[i]);
                    }
                }
                if keys(above).contains(key) {
                    let i = choose|i: int|
                        0 <= i < above.len() && key_of(#[trigger] above[i]) == key;
                    assert(all[i] == above[i]);
                }
                if key == key_of(last) {
                    assert(all[all.len() - 1] == last);
                }
            }
            assert(keys(all) =~= keys(rows));
            assert forall|i: int, j: int| 0 <= i < j < all.len() implies key_of(
                #[trigger] all[i],
            ) != key_of(#[trigger] all[j]) by {
                if j < above.len() {
                    assert(all[i] == above[i] && all[j] == above[j]);
                } else {
                    assert(all[i] == above[i]);
                    assert(keys(above).contains(key_of(above[i])));
                }
            }
        }
    }
}

/// Rows that state the same changes, row by row, state the same set of
/// changes, whatever their cells and their places in the table are.
pub proof fn lemma_same_changes(a: Seq<RowView>, b: Seq<RowView>)
    requires
        a.len() == b.len(),
        forall|i: int| 0 <= i < a.len() ==> key_of(#[trigger] a[i]) == key_of(b[i]),
    ensures
        keys(a) == keys(b),
{
    assert forall|key: RowKey| keys(a).contains(key) <==> keys(b).contains(key) by {
        if keys(a).contains(key) {
            let i = choose|i: int| 0 <= i < a.len() && key_of(#[trigger] a[i]) == key;
            assert(key_of(b[i]) == key);
        }
        if keys(b).contains(key) {
            let i = choose|i: int| 0 <= i < b.len() && key_of(#[trigger] b[i]) == key;
            assert(key_of(a[i]) == key);
        }
    }
    assert(keys(a) =~= keys(b));
}

/// Whether one of `rows` states the change of `row`.
pub fn contains_row(rows: &Vec<Row>, row: &Row) -> (found: bool)
    ensures
        found == keys(rows.deep_view()).contains(key_of(row.deep_view())),
{
    let ghost all = rows.deep_view();
    let mut i: usize = 0;
    while i < rows.len()
        invariant
            i <= rows.len(),
            all == rows.deep_view(),
            forall|j: int| 0 <= j < i ==> key_of(#[trigger] all[j]) != key_of(row.deep_view()),
        decreases rows.len() - i,
    {
        assert(all[i as int] == rows@[i as int].deep_view());
        if rows[i].same_as(row) {
            return true;
        }
        i += 1;
    }
    false
}

/// Whether every change that `rows` state is stated by `others` too.
pub fn included_in(rows: &Vec<Row>, others: &Vec<Row>) -> (included: bool)
    ensures
        included == keys(rows.deep_view()).subset_of(keys(others.deep_view())),
{
    let ghost all = rows.deep_view();
    let mut i: usize = 0;
    while i < rows.len()
        invariant
            i <= rows.len(),
            all == rows.deep_view(),
            forall|j: int|
                0 <= j < i ==> keys(others.deep_view()).contains(key_of(#[trigger] all[j])),
        decreases rows.len() - i,
    {
        assert(all[i as int] == rows@[i as int].deep_view());
        if !contains_row(others, &rows[i]) {
            assert(keys(all).contains(key_of(all[i as int])));
            return false;
        }
        i += 1;
    }
    true
}

/// Whether two lists of rows state the same set of changes.
pub fn same_changes(rows: &Vec<Row>, others: &Vec<Row>) -> (same: bool)
    ensures
        same == (keys(rows.deep_view()) == keys(others.deep_view())),
{
    let same = included_in(rows, others) && included_in(others, rows);
    proof {
        if same {
            assert(keys(rows.deep_view()) =~= keys(others.deep_view()));
        }
    }
    same
}

/// Leaves out every row that states a change which a row before it states
/// already.
pub fn distinct_rows(rows: Vec<Row>) -> (kept: Vec<Row>)
    ensures
        kept.deep_view() == distinct(rows.deep_view()),
{
    let ghost all = rows.deep_view();
    let mut kept: Vec<Row> = Vec::new();
    let mut i: usize = 0;
    assert(kept.deep_view() == distinct(all.take(0)));
    while i < rows.len()
        invariant
            i <= rows.len(),
            all == rows.deep_view(),
            kept.deep_view() == distinct(all.take(i as int)),
        decreases rows.len() - i,
    {
        proof {
            assert(all.take(i + 1).drop_last() == all.take(i as int));
            assert(all.take(i + 1).last() == rows@[i as int].deep_view());
        }
        if !contains_row(&kept, &rows[i]) {
            let ghost above = kept.deep_view();
            let row = rows[i].clone();
            kept.push(row);
            assert(kept.deep_view() == above.push(row.deep_view()));
        }
        i += 1;
    }
    assert(all.take(rows.len() as int) == all);
    kept
}

/// The plan as it was last read.
#[derive(Debug)]
pub struct Data {
    last_checked: Timestamp,
    last_modified: Timestamp,
    rows: Vec<Row>,
}

/// What a `Data` says.
pub ghost struct DataView {
    /// When the plan was last read.
    pub last_checked: Timestamp,
    /// When the plan was last read and found to have changed.
    pub last_modified: Timestamp,
    /// The rows of the plan.
    pub rows: Seq<RowView>,
}

impl DeepView for Data {
    type V = DataView;

    closed spec fn deep_view(&self) -> DataView {
        DataView {
            last_checked: self.last_checked,
            last_modified: self.last_modified,
            rows: self.rows.deep_view(),
        }
    }
}

/// The plan after `rows` were read at the time `now`, `stored` being the
/// plan before. Where the rows state the changes that the plan holds
/// already, the plan only notes that it was read; else the rows take the
/// place of the plan, each change once.
pub open spec fn updated(stored: Option<DataView>, rows: Seq<RowView>, now: Timestamp) -> DataView {
    if is_unchanged(stored, rows) {
        DataView { last_checked: now, ..stored->0 }
    } else {
        DataView { last_checked: now, last_modified: now, rows: distinct(rows) }
    }
}

/// Whether `rows` state the changes that the plan `stored` holds, and no
/// others.
pub open spec fn is_unchanged(stored: Option<DataView>, rows: Seq<RowView>) -> bool {
    stored is Some && keys(stored->0.rows) == keys(rows)
}

/// Rows that state the changes which the plan holds already, and no
/// others, leave the plan as it is, but for the time at which it was last
/// read.
pub proof fn lemma_same_changes_leave_the_plan(stored: DataView, rows: Seq<RowView>, now: Timestamp)
    requires
        keys(rows) == keys(stored.rows),
    ensures
        is_unchanged(Some(stored), rows),
        updated(Some(stored), rows, now) == (DataView { last_checked: now, ..stored }),
{
}

impl Data {
    #[verifier::type_invariant]
    spec fn states_each_change_once(self) -> bool {
        all_distinct(self.rows.deep_view())
    }

    /// The plan that the rows `rows`, read at the time `now`, make up:
    /// each change once.
    pub fn new(rows: Vec<Row>, now: Timestamp) -> (data: Data)
        ensures
            data.deep_view() == (DataView {
                last_checked: now,
                last_modified: now,
                rows: distinct(rows.deep_view()),
            }),
    {
        let kept = distinct_rows(rows);
        proof {
            lemma_distinct(rows.deep_view());
        }
        Data { last_checked: now, last_modified: now, rows: kept }
    }

    /// When the plan was last read.
    pub fn last_checked(&self) -> (time: Timestamp)
        ensures
            time == self.deep_view().last_checked,
    {
        self.last_checked
    }

    /// When the plan was last read and found to have changed.
    pub fn last_modified(&self) -> (time: Timestamp)
        ensures
            time == self.deep_view().last_modified,
    {
        self.last_modified
    }

    /// The rows of the plan. No two of them state the same change.
    pub fn rows(&self) -> (rows: &Vec<Row>)
        ensures
            rows.deep_view() == self.deep_view().rows,
            all_distinct(rows.deep_view()),
    {
        proof {
            use_type_invariant(self);
        }
        &self.rows
    }

    /// Notes that the plan was read at the time `now` and had not changed.
    pub fn touch(&mut self, now: Timestamp)
        ensures
            final(self).deep_view() == (DataView { last_checked: now, ..old(self).deep_view() }),
    {
        proof {
            use_type_invariant(&*self);
        }
        self.last_checked = now;
    }

    /// Takes in the rows that were read at the time `now`. Says whether
    /// they state other changes than the plan held before.
    pub fn update(stored: &mut Option<Data>, rows: Vec<Row>, now: Timestamp) -> (changed: bool)
        ensures
            changed == !is_unchanged(old(stored).deep_view(), rows.deep_view()),
            final(stored).deep_view() == Some(
                updated(old(stored).deep_view(), rows.deep_view(), now),
            ),
    {
        match stored {
            Some(data) => {
                if same_changes(&rows, data.rows()) {
                    data.touch(now);
                    return false;
                }
            },
            None => {},
        }
        *stored = Some(Data::new(rows, now));
        true
    }
}

/// Whether a lesson of the base timetable takes place in the weeks of
/// variant `iteration`.
pub open spec fn takes_place(lesson: LessonView, iteration: u8) -> bool {
    match lesson.iteration {
        Some(own) => own == iteration,
        None => true,
    }
}

/// The lessons among `lessons` that take place in the weeks of variant
/// `iteration`, in their order.
pub open spec fn in_iteration(lessons: Seq<LessonView>, iteration: u8) -> Seq<LessonView>
    decreases lessons.len(),
{
    if lessons.len() == 0 {
        lessons
    } else if takes_place(lessons.last(), iteration) {
        in_iteration(lessons.drop_last(), iteration).push(lessons.last())
    } else {
        in_iteration(lessons.drop_last(), iteration)
    }
}

/// Whether a row is about the day `date` and about the class of the base
/// timetable, which the plan writes `IGD21` or `IGD 21`.
pub open spec fn concerns(row: RowView, date: Date) -> bool {
    row.date == date && (row.class.contains("IGD21"@) || row.class.contains("IGD 21"@))
}

/// The lessons of a day and the rows left over, after the first `n` of
/// `rows` have been applied to the lessons `day` in their order. A row
/// that does not concern the day is passed over. A row that changes the
/// day is taken in; every other row, one that finds no lesson or cannot
/// tell its lesson, leaves the day as it is and is left over.
pub open spec fn reconciled(day: Seq<LessonView>, rows: Seq<RowView>, date: Date, n: nat) -> (
    Seq<LessonView>,
    Seq<RowView>,
)
    decreases n,
{
    if n == 0 {
        (day, Seq::empty())
    } else {
        let (lessons, unresolved) = reconciled(day, rows, date, (n - 1) as nat);
        let row = rows[n - 1];
        if !concerns(row, date) {
            (lessons, unresolved)
        } else if apply_result(row.change, lessons) == Ok::<bool, AmbiguousLesson>(true) {
            (applied(row.change, lessons), unresolved)
        } else {
            (lessons, unresolved.push(row))
        }
    }
}

/// The lessons among `lessons` that take place in the weeks of variant
/// `iteration`.
pub fn lessons_in_iteration(lessons: &Vec<Lesson>, iteration: u8) -> (kept: Vec<Lesson>)
    ensures
        kept.deep_view() == in_iteration(lessons.deep_view(), iteration),
{
    let ghost all = lessons.deep_view();
    let mut kept: Vec<Lesson> = Vec::new();
    let mut i: usize = 0;
    assert(kept.deep_view() == in_iteration(all.take(0), iteration));
    while i < lessons.len()
        invariant
            i <= lessons.len(),
            all == lessons.deep_view(),
            kept.deep_view() == in_iteration(all.take(i as int), iteration),
        decreases lessons.len() - i,
    {
        proof {
            assert(all.take(i + 1).drop_last() == all.take(i as int));
            assert(all.take(i + 1).last() == lessons@[i as int].deep_view());
        }
        let fits = match lessons[i].iteration {
            Some(own) => own == iteration,
            None => true,
        };
        if fits {
            let ghost above = kept.deep_view();
            let lesson = lessons[i].clone();
            kept.push(lesson);
            assert(kept.deep_view() == above.push(lesson.deep_view()));
        }
        i += 1;
    }
    assert(all.take(lessons.len() as int) == all);
    kept
}

/// Whether one of `texts` is `wanted`.
pub fn contains_text(texts: &Vec<String>, wanted: &str) -> (found: bool)
    ensures
        found == texts.deep_view().contains(wanted@),
{
    let ghost all = texts.deep_view();
    let mut i: usize = 0;
    while i < texts.len()
        invariant
            i <= texts.len(),
            all == texts.deep_view(),
            forall|j: int| 0 <= j < i ==> all[j] != wanted@,
        decreases texts.len() - i,
    {
        assert(all[i as int] == texts@[i as int]@);
        if same_text(texts[i].as_str(), wanted) {
            return true;
        }
        i += 1;
    }
    false
}

/// Applies the rows that concern the day `date` to the lessons `day`, in
/// the order of `rows`. Gives the lessons of the day after that, and the
/// rows that could not be applied.
pub fn apply_rows(day: Vec<Lesson>, rows: &Vec<Row>, date: Date) -> (result: (Vec<Lesson>, Vec<Row>))
    ensures
        (result.0.deep_view(), result.1.deep_view()) == reconciled(
            day.deep_view(),
            rows.deep_view(),
            date,
            rows.len() as nat,
        ),
{
    let ghost base = day.deep_view();
    let ghost all = rows.deep_view();
    let mut day = day;
    let mut unresolved: Vec<Row> = Vec::new();
    let mut i: usize = 0;
    assert(unresolved.deep_view() == Seq::<RowView>::empty());
    while i < rows.len()
        invariant
            i <= rows.len(),
            all == rows.deep_view(),
            (day.deep_view(), unresolved.deep_view()) == reconciled(base, all, date, i as nat),
        decreases rows.len() - i,
    {
        let row = &rows[i];
        assert(all[i as int] == row.deep_view());
        let concerned = row.date == date && (contains_text(&row.class, "IGD21") || contains_text(
            &row.class,
            "IGD 21",
        ));
        if concerned {
            let applied = match row.change.apply(&mut day) {
                Ok(changed) => changed,
                Err(_) => false,
            };
            if !applied {
                let ghost above = unresolved.deep_view();
                let left = row.clone();
                unresolved.push(left);
                assert(unresolved.deep_view() == above.push(left.deep_view()));
            }
        }
        i += 1;
    }
    (day, unresolved)
}

/// The cells of the rows among `rows` that are about the day `date` and
/// stand at place `index` of their table, in the order of `rows`.
pub open spec fn raws_at(rows: Seq<RowView>, date: Date, index: u8) -> Seq<Seq<Seq<char>>>
    decreases rows.len(),
{
    if rows.len() == 0 {
        Seq::empty()
    } else if rows.last().date == date && rows.last().index == index {
        raws_at(rows.drop_last(), date, index).push(rows.last().raw)
    } else {
        raws_at(rows.drop_last(), date, index)
    }
}

/// The cells of the rows among `rows` that are about the day `date` and
/// stand at a place below `n` of their table: those at place 0 first,
/// then those at place 1, and so on.
pub open spec fn raws_below(rows: Seq<RowView>, date: Date, n: nat) -> Seq<Seq<Seq<char>>>
    decreases n,
{
    if n == 0 {
        Seq::empty()
    } else {
        raws_below(rows, date, (n - 1) as nat) + raws_at(rows, date, (n - 1) as u8)
    }
}

/// The table of the plan for the day `date` as it was read: the cells of
/// the rows of that day, in the order of their places in the table. Rows
/// with the same place keep the order of `rows`.
pub open spec fn raw_table_of(rows: Seq<RowView>, date: Date) -> Seq<Seq<Seq<char>>> {
    raws_below(rows, date, 256)
}

/// The cells of the rows of the day `date`, in the order of their places
/// in the table.
pub fn raw_table(rows: &Vec<Row>, date: Date) -> (table: Vec<Vec<String>>)
    ensures
        table.deep_view() == raw_table_of(rows.deep_view(), date),
{
    let ghost all = rows.deep_view();
    let mut table: Vec<Vec<String>> = Vec::new();
    let mut index: u16 = 0;
    assert(table.deep_view() == raws_below(all, date, 0));
    while index < 256
        invariant
            index <= 256,
            all == rows.deep_view(),
            table.deep_view() == raws_below(all, date, index as nat),
        decreases 256 - index,
    {
        let ghost above = table.deep_view();
        let mut i: usize = 0;
        assert(above + raws_at(all.take(0), date, index as u8) == above);
        while i < rows.len()
            invariant
                i <= rows.len(),
                index < 256,
                all == rows.deep_view(),
                table.deep_view() == above + raws_at(all.take(i as int), date, index as u8),
            decreases rows.len() - i,
        {
            proof {
                assert(all.take(i + 1).drop_last() == all.take(i as int));
                assert(all.take(i + 1).last() == rows@[i as int].deep_view());
            }
            if rows[i].date == date && rows[i].index as u16 == index {
                let ghost so_far = table.deep_view();
                let raw = clone_texts(&rows[i].raw);
                table.push(raw);
                assert(table.deep_view() == so_far.push(raw.deep_view()));
                assert(table.deep_view() == above + raws_at(
                    all.take(i as int),
                    date,
                    index as u8,
                ).push(raw.deep_view()));
            }
            i += 1;
        }
        assert(all.take(rows.len() as int) == all);
        index += 1;
    }
    table
}

/// Whether `dates` are the days that `rows` are about, each once, the
/// earliest first.
pub open spec fn are_days_of(dates: Seq<Date>, rows: Seq<RowView>) -> bool {
    &&& forall|i: int, j: int|
        0 <= i < j < dates.len() ==> (#[trigger] dates[i]).julian_day < (
        #[trigger] dates[j]).julian_day
    &&& forall|date: Date|
        dates.contains(date) <==> exists|i: int|
            0 <= i < rows.len() && (#[trigger] rows[i]).date == date
}

/// The days that `rows` are about, each once, the earliest first.
pub fn days_of(rows: &Vec<Row>) -> (dates: Vec<Date>)
    ensures
        are_days_of(dates@, rows.deep_view()),
{
    let ghost all = rows.deep_view();
    let mut dates: Vec<Date> = Vec::new();
    let mut i: usize = 0;
    while i < rows.len()
        invariant
            i <= rows.len(),
            all == rows.deep_view(),
            are_days_of(dates@, all.take(i as int)),
        decreases rows.len() - i,
    {
        let date = rows[i].date;
        assert(all[i as int] == rows@[i as int].deep_view());
        let mut place: usize = 0;
        while place < dates.len() && dates[place].julian_day < date.julian_day
            invariant
                place <= dates.len(),
                forall|k: int| 0 <= k < place ==> (#[trigger] dates@[k]).julian_day < date.julian_day,
            decreases dates.len() - place,
        {
            place += 1;
        }
        let ghost before = dates@;
        let ghost seen = all.take(i as int);
        let ghost now = all.take(i + 1);
        let known = place < dates.len() && dates[place].julian_day == date.julian_day;
        if !known {
            dates.insert(place, date);
        }
        proof {
            let after = dates@;
            assert(now.drop_last() == seen);
            assert(now.last().date == date);
            assert forall|k: int, l: int| 0 <= k < l < after.len() implies (
            #[trigger] after[k]).julian_day < (#[trigger] after[l]).julian_day by {
                if !known {
                    if k < place && l > place {
                        assert(after[k] == before[k] && after[l] == before[l - 1]);
                    } else if k == place {
                        assert(after[l] == before[l - 1]);
                        assert(before[place as int].julian_day != date.julian_day);
                    } else if l == place {
                        assert(after[k] == before[k]);
                    } else if l < place {
                        assert(after[k] == before[k] && after[l] == before[l]);
                    } else {
                        assert(after[k] == before[k - 1] && after[l] == before[l - 1]);
                    }
                }
            }
            assert forall|day: Date| after.contains(day) <==> exists|k: int|
                0 <= k < now.len() && (#[trigger] now[k]).date == day by {
                if after.contains(day) {
                    if day == date {
                        assert(now[i as int].date == day);
                    } else {
                        let k = choose|k: int| 0 <= k < after.len() && after[k] == day;
                        if !known {
                            if k < place {
                                assert(before[k] == day);
                            } else {
                                assert(before[k - 1] == day);
                            }
                        }
                        assert(before.contains(day));
                        let m = choose|m: int| 0 <= m < seen.len() && (#[trigger] seen[m]).date == day;
                        assert(now[m] == seen[m]);
                    }
                }
                if exists|k: int| 0 <= k < now.len() && (#[trigger] now[k]).date == day {
                    let k = choose|k: int| 0 <= k < now.len() && (#[trigger] now[k]).date == day;
                    if day == date {
                        if known {
                            assert(before[place as int] == date);
                        } else {
                            assert(after[place as int] == date);
                        }
                    } else {
                        assert(k < i);
                        assert(seen[k] == now[k]);
                        assert(before.contains(day));
                        let m = choose|m: int| 0 <= m < before.len() && before[m] == day;
                        if !known {
                            if m < place {
                                assert(after[m] == day);
                            } else {
                                assert(after[m + 1] == day);
                            }
                        }
                    }
                }
            }
        }
        i += 1;
    }
    assert(all.take(rows.len() as int) == all);
    dates
}

/// The substitution plan of the school: where it is read from, and what
/// was last read.
pub struct Davinci {
    entrypoint: String,
    data: Option<Data>,
}

impl Davinci {
    /// The address of the first page of the plan.
    pub closed spec fn spec_entrypoint(&self) -> Seq<char> {
        self.entrypoint@
    }

    /// What was last read of the plan.
    pub closed spec fn spec_data(&self) -> Option<DataView> {
        self.data.deep_view()
    }

    /// A plan that is read from the page at `entrypoint` on, with nothing
    /// read yet.
    pub fn new(entrypoint: String) -> (davinci: Davinci)
        ensures
            davinci.spec_entrypoint() == entrypoint@,
            davinci.spec_data() is None,
    {
        Davinci { entrypoint, data: None }
    }

    /// The address of the first page of the plan.
    pub fn entrypoint(&self) -> (entrypoint: &str)
        ensures
            entrypoint@ == self.spec_entrypoint(),
    {
        self.entrypoint.as_str()
    }

    /// What was last read of the plan, if it has been read.
    pub fn data(&self) -> (data: &Option<Data>)
        ensures
            data.deep_view() == self.spec_data(),
    {
        &self.data
    }

    /// Takes in the rows of all pages of the plan, read at the time `now`.
    /// Says whether they state other changes than the plan held before;
    /// if they do not, the plan only notes that it was read.
    pub fn update(&mut self, rows: Vec<Row>, now: Timestamp) -> (changed: bool)
        ensures
            changed == !is_unchanged(old(self).spec_data(), rows.deep_view()),
            final(self).spec_data() == Some(updated(old(self).spec_data(), rows.deep_view(), now)),
            final(self).spec_entrypoint() == old(self).spec_entrypoint(),
    {
        Data::update(&mut self.data, rows, now)
    }

    /// The table of the plan for the day `date` as it was read, or `None`
    /// where the plan has not been read yet.
    pub fn get_raw_table(&self, date: Date) -> (table: Option<Vec<Vec<String>>>)
        ensures
            match self.spec_data() {
                Some(data) => table is Some && table->0.deep_view() == raw_table_of(
                    data.rows,
                    date,
                ),
                None => table is None,
            },
    {
        match &self.data {
            Some(data) => Some(raw_table(data.rows(), date)),
            None => None,
        }
    }

    /// The lessons of the class on the day `date`, after the changes of
    /// the plan for that day, and the rows of the plan for that day that
    /// could not be applied. The day must be a school day of a week whose
    /// variant of the timetable is known.
    pub fn get_applied_timetable(&self, date: Date) -> (result: (Vec<Lesson>, Vec<Row>))
        requires
            iteration_on(date.julian_day as int) is Some,
            igd21(weekday_of(date.julian_day as int)) is Some,
        ensures
            (result.0.deep_view(), result.1.deep_view()) == reconciled(
                in_iteration(
                    igd21(weekday_of(date.julian_day as int))->0,
                    iteration_on(date.julian_day as int)->0,
                ),
                stored_rows(self.spec_data()),
                date,
                stored_rows(self.spec_data()).len(),
            ),
    {
        let iteration = get_iteration(date).unwrap();
        let base = lessons_on(date.weekday()).unwrap();
        let day = lessons_in_iteration(&base, iteration);
        match &self.data {
            Some(data) => apply_rows(day, data.rows(), date),
            None => (day, Vec::new()),
        }
    }
}

/// The rows of the plan `data`; none where nothing has been read.
pub open spec fn stored_rows(data: Option<DataView>) -> Seq<RowView> {
    match data {
        Some(data) => data.rows,
        None => Seq::empty(),
    }
}

} // verus!
