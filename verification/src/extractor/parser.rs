use crate::change::{
    change_of, lemma_change_keeps_lesson_and_notice, lesson_of, notice_of, Change,
};
use crate::davinci::{Row, RowView};
use crate::date::Date;
use crate::extractor::ExtractError;
use crate::text::{
    chars_of, clone_text, clone_texts, lemma_list_is_not_empty, list_of, parse_decimal,
    parse_list, parse_unsigned,
};
use vstd::prelude::*;
use vstd::string::*;

verus! {

/// The double-lesson block in which teaching period `lesson` falls: periods
/// 1 and 2 make up block 1, periods 3 and 4 block 2, and so on.
pub open spec fn block_of(lesson: int) -> int {
    (lesson + lesson % 2) / 2
}

/// The block lesson that a cell of the plan names: the cell holds the
/// number of a teaching period and one more character, a full stop.
pub open spec fn lesson_in(cell: Seq<char>) -> Option<u8> {
    if cell.len() == 0 {
        None
    } else {
        match parse_unsigned(cell.drop_last(), 255) {
            Some(period) => Some(block_of(period as int) as u8),
            None => None,
        }
    }
}

/// The row that the cells `cells` state, `index` being their place in the
/// table and `last` the row before them, if there is one. Where the cell
/// of the classes, of the lesson or of the notice is empty, the row takes
/// over what the row before it says there.
pub open spec fn parsed_row(
    index: int,
    cells: Seq<Seq<char>>,
    date: Date,
    last: Option<RowView>,
) -> Result<RowView, ExtractError> {
    if cells.len() != 7 {
        Err(ExtractError::ColumnCount { found: cells.len() as usize })
    } else if cells[1].len() > 0 && lesson_in(cells[1]) is None {
        Err(ExtractError::InvalidLesson)
    } else if last is None && (cells[0].len() == 0 || cells[1].len() == 0 || cells[6].len() == 0) {
        Err(ExtractError::MissingField)
    } else {
        let class = if cells[0].len() == 0 {
            last->0.class
        } else {
            list_of(cells[0])
        };
        let lesson = if cells[1].len() == 0 {
            lesson_of(last->0.change)
        } else {
            lesson_in(cells[1])->0
        };
        let notice = if cells[6].len() == 0 {
            notice_of(last->0.change)
        } else {
            Some(cells[6])
        };
        Ok(
            RowView {
                index: (index % 256) as u8,
                date,
                class,
                change: change_of(lesson, cells[5], cells[2], cells[3], cells[4], notice),
                raw: cells,
            },
        )
    }
}

/// The last of `rows`, if there is one.
pub open spec fn last_of(rows: Seq<RowView>) -> Option<RowView> {
    if rows.len() == 0 {
        None
    } else {
        Some(rows.last())
    }
}

/// What reading the first `n` rows of `table` gives, `before` being the
/// rows read so far: the rows after it, and the error at which reading
/// stopped, if it did. The rows that were read before the error stay.
pub open spec fn parsed_rows(
    table: Seq<Seq<Seq<char>>>,
    date: Date,
    before: Seq<RowView>,
    n: nat,
) -> (Seq<RowView>, Option<ExtractError>)
    decreases n,
{
    if n == 0 {
        (before, None)
    } else {
        let (rows, error) = parsed_rows(table, date, before, (n - 1) as nat);
        if error is Some {
            (rows, error)
        } else {
            match parsed_row(n - 1, table[n - 1], date, last_of(rows)) {
                Ok(row) => (rows.push(row), None),
                Err(error) => (rows, Some(error)),
            }
        }
    }
}

/// An odd teaching period and the one after it lie in the same block, and
/// the number of the block is half that of the second period.
pub proof fn lemma_periods_pair_up(period: int)
    requires
        period % 2 == 1,
    ensures
        block_of(period) == block_of(period + 1),
        block_of(period) == (period + 1) / 2,
{
}

/// Converts a teaching period to the block lesson that holds it.
pub fn convert_lesson(lesson: u8) -> (block: u8)
    ensures
        block == block_of(lesson as int),
{
    lesson / 2 + lesson % 2
}

/// A cell that holds something.
pub fn parse_optional(value: &str) -> (present: Option<&str>)
    ensures
        value@.len() == 0 ==> present is None,
        value@.len() > 0 ==> present == Some(value),
{
    if value.unicode_len() == 0 {
        None
    } else {
        Some(value)
    }
}

/// Reads the cell of the lesson: the number of a teaching period, then
/// one more character. Gives the block lesson of the period.
pub fn parse_lesson(value: &str) -> (lesson: Result<u8, ExtractError>)
    ensures
        match lesson_in(value@) {
            Some(block) => lesson == Ok::<u8, ExtractError>(block),
            None => lesson == Err::<u8, ExtractError>(ExtractError::InvalidLesson),
        },
{
    let chars = chars_of(value);
    if chars.len() == 0 {
        return Err(ExtractError::InvalidLesson);
    }
    assert(chars@.subrange(0, chars.len() - 1) == value@.drop_last());
    match parse_decimal(&chars, 0, chars.len() - 1, 255) {
        Some(period) => Ok(convert_lesson(period as u8)),
        None => Err(ExtractError::InvalidLesson),
    }
}

/// Reads the cells of one row; `index` is the row's place in its table,
/// `last` the row before it, if there is one.
pub fn parse_row(index: usize, columns: &Vec<String>, date: &Date, last: Option<&Row>) -> (row:
    Result<Row, ExtractError>)
    ensures
        match parsed_row(index as int, columns.deep_view(), *date, last.deep_view()) {
            Ok(view) => row is Ok && row->Ok_0.deep_view() == view,
            Err(error) => row is Err && row->Err_0 == error,
        },
{
    if columns.len() != 7 {
        return Err(ExtractError::ColumnCount { found: columns.len() });
    }
    let ghost cells = columns.deep_view();
    assert(forall|i: int| 0 <= i < 7 ==> cells[i] == (#[trigger] columns@[i])@);
    let read_lesson = match parse_optional(columns[1].as_str()) {
        Some(cell) => match parse_lesson(cell) {
            Ok(lesson) => Some(lesson),
            Err(error) => {
                return Err(error);
            },
        },
        None => None,
    };
    let read_class = match parse_optional(columns[0].as_str()) {
        Some(cell) => Some(parse_list(cell)),
        None => None,
    };
    let read_notice = match parse_optional(columns[6].as_str()) {
        Some(cell) => Some(cell.to_owned()),
        None => None,
    };
    let class = match read_class {
        Some(class) => class,
        None => match last {
            Some(last) => clone_texts(&last.class),
            None => {
                return Err(ExtractError::MissingField);
            },
        },
    };
    let lesson = match read_lesson {
        Some(lesson) => lesson,
        None => match last {
            Some(last) => last.change.lesson(),
            None => {
                return Err(ExtractError::MissingField);
            },
        },
    };
    let notice = match read_notice {
        Some(notice) => Some(notice),
        None => match last {
            Some(last) => clone_text(last.change.notice()),
            None => {
                return Err(ExtractError::MissingField);
            },
        },
    };
    let change = Change::new(
        lesson,
        columns[5].as_str(),
        columns[2].as_str(),
        columns[3].clone(),
        columns[4].as_str(),
        notice,
    );
    Ok(Row { index: (index % 256) as u8, date: *date, class, change, raw: clone_texts(columns) })
}

/// Reads the rows of `table`, the table of one page about the day `date`,
/// and puts them after `rows`, the rows of the pages before it. Each row
/// must have seven cells: classes, lesson, subject, place, teachers, type
/// of change, notice. A row's place in the table is counted from 0 and
/// starts again at 0 after 255. Reading stops at the first row that cannot
/// be read; the rows before it stay in `rows`.
pub fn parse(table: Vec<Vec<String>>, date: &Date, rows: &mut Vec<Row>) -> (result: Result<
    (),
    ExtractError,
>)
    ensures
        final(rows).deep_view() == parsed_rows(
            table.deep_view(),
            *date,
            old(rows).deep_view(),
            table.len() as nat,
        ).0,
        match parsed_rows(table.deep_view(), *date, old(rows).deep_view(), table.len() as nat).1 {
            Some(error) => result == Err::<(), ExtractError>(error),
            None => result is Ok,
        },
{
    let ghost before = rows.deep_view();
    let ghost cells = table.deep_view();
    let mut index: usize = 0;
    while index < table.len()
        invariant
            index <= table.len(),
            cells == table.deep_view(),
            before == old(rows).deep_view(),
            parsed_rows(cells, *date, before, index as nat) == (rows.deep_view(), None::<
                ExtractError,
            >),
        decreases table.len() - index,
    {
        let last = if rows.len() > 0 {
            Some(&rows[rows.len() - 1])
        } else {
            None
        };
        proof {
            assert(last.deep_view() == last_of(rows.deep_view()));
            assert(cells[index as int] == table@[index as int].deep_view());
        }
        match parse_row(index, &table[index], date, last) {
            Ok(row) => {
                let ghost so_far = rows.deep_view();
                rows.push(row);
                assert(rows.deep_view() == so_far.push(row.deep_view()));
            },
            Err(error) => {
                proof {
                    assert(parsed_rows(cells, *date, before, (index + 1) as nat) == (
                        rows.deep_view(),
                        Some(error),
                    ));
                    lemma_parsing_stops(
                        cells,
                        *date,
                        before,
                        (index + 1) as nat,
                        table.len() as nat,
                    );
                }
                return Err(error);
            },
        }
        index += 1;
    }
    Ok(())
}

/// Once reading has stopped at an error, reading further rows changes
/// nothing.
pub proof fn lemma_parsing_stops(
    table: Seq<Seq<Seq<char>>>,
    date: Date,
    before: Seq<RowView>,
    n: nat,
    m: nat,
)
    requires
        n <= m,
        parsed_rows(table, date, before, n).1 is Some,
    ensures
        parsed_rows(table, date, before, m) == parsed_rows(table, date, before, n),
    decreases m,
{
    if n < m {
        lemma_parsing_stops(table, date, before, n, (m - 1) as nat);
    }
}

/// Every row that is read names at least one class, as long as the rows
/// before it do.
pub proof fn lemma_rows_name_classes(
    table: Seq<Seq<Seq<char>>>,
    date: Date,
    before: Seq<RowView>,
    n: nat,
)
    requires
        forall|i: int| 0 <= i < before.len() ==> (#[trigger] before[i]).class.len() >= 1,
    ensures
        forall|i: int|
            0 <= i < parsed_rows(table, date, before, n).0.len() ==> (#[trigger] parsed_rows(
                table,
                date,
                before,
                n,
            ).0[i]).class.len() >= 1,
    decreases n,
{
    if n > 0 {
        lemma_rows_name_classes(table, date, before, (n - 1) as nat);
        let (rows, error) = parsed_rows(table, date, before, (n - 1) as nat);
        if error is None {
            let cells = table[n - 1];
            if cells.len() == 7 {
                lemma_list_is_not_empty(cells[0]);
            }
            if rows.len() > 0 {
                assert(rows[rows.len() - 1].class.len() >= 1);
            }
        }
    }
}

/// Whether two rows name the same classes, the same lesson and the same
/// notice.
pub open spec fn says_the_same(row: RowView, other: RowView) -> bool {
    &&& row.class == other.class
    &&& lesson_of(row.change) == lesson_of(other.change)
    &&& notice_of(row.change) == notice_of(other.change)
}

/// A table whose first row is read without error, and whose later rows
/// have seven cells each and leave the cells of the classes, the lesson
/// and the notice empty, is read without error, and every row of it says
/// what the first row says of the classes, the lesson and the notice.
pub proof fn lemma_carry_forward(table: Seq<Seq<Seq<char>>>, date: Date, n: nat)
    requires
        1 <= n <= table.len(),
        parsed_row(0, table[0], date, None) is Ok,
        forall|i: int|
            1 <= i < n ==> (#[trigger] table[i]).len() == 7 && table[i][0].len() == 0
                && table[i][1].len() == 0 && table[i][6].len() == 0,
    ensures
        parsed_rows(table, date, Seq::empty(), n).1 is None,
        parsed_rows(table, date, Seq::empty(), n).0.len() == n,
        forall|i: int|
            0 <= i < n ==> says_the_same(
                #[trigger] parsed_rows(table, date, Seq::empty(), n).0[i],
                parsed_rows(table, date, Seq::empty(), n).0[0],
            ),
    decreases n,
{
    let empty = Seq::<RowView>::empty();
    if n == 1 {
        assert(parsed_rows(table, date, empty, 0) == (empty, None::<ExtractError>));
        assert(last_of(empty) is None);
        let first = parsed_row(0, table[0], date, None)->Ok_0;
        assert(parsed_rows(table, date, empty, 1).0 == empty.push(first));
    } else {
        lemma_carry_forward(table, date, (n - 1) as nat);
        let rows = parsed_rows(table, date, empty, (n - 1) as nat).0;
        let cells = table[n - 1];
        let last = rows.last();
        assert(last_of(rows) == Some(last));
        let row = parsed_row(n - 1, cells, date, Some(last))->Ok_0;
        lemma_change_keeps_lesson_and_notice(
            lesson_of(last.change),
            cells[5],
            cells[2],
            cells[3],
            cells[4],
            notice_of(last.change),
        );
        assert(parsed_rows(table, date, empty, n).0 == rows.push(row));
        assert(rows[n - 2] == last);
        let all = parsed_rows(table, date, empty, n).0;
        assert forall|i: int| 0 <= i < n implies says_the_same(#[trigger] all[i], all[0]) by {
            if i < n - 1 {
                assert(all[i] == rows[i]);
            }
            assert(all[0] == rows[0]);
        }
    }
}

} // verus!
