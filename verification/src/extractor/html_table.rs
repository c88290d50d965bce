use crate::extractor::{clean, cleaned};
use crate::markup::{nested_element_texts, nested_texts_of};
use vstd::prelude::*;

verus! {

/// The cells of a row, each cleaned.
pub open spec fn cleaned_row(row: Seq<Seq<char>>) -> Seq<Seq<char>> {
    row.map_values(|cell: Seq<char>| cleaned(cell))
}

/// The table that the rows `raw` make up: the rows that have cells, in
/// their order, their cells cleaned.
pub open spec fn cleaned_table(raw: Seq<Seq<Seq<char>>>) -> Seq<Seq<Seq<char>>>
    decreases raw.len(),
{
    if raw.len() == 0 {
        Seq::empty()
    } else if raw.last().len() == 0 {
        cleaned_table(raw.drop_last())
    } else {
        cleaned_table(raw.drop_last()).push(cleaned_row(raw.last()))
    }
}

/// Makes the table out of the texts of the cells of each row.
pub fn clean_table(raw: &Vec<Vec<String>>) -> (table: Vec<Vec<String>>)
    ensures
        table.deep_view() == cleaned_table(raw.deep_view()),
{
    let ghost all = raw.deep_view();
    let mut table: Vec<Vec<String>> = Vec::new();
    let mut i: usize = 0;
    assert(table.deep_view() == cleaned_table(all.take(0)));
    while i < raw.len()
        invariant
            i <= raw.len(),
            all == raw.deep_view(),
            table.deep_view() == cleaned_table(all.take(i as int)),
        decreases raw.len() - i,
    {
        let row = &raw[i];
        let mut columns: Vec<String> = Vec::new();
        let mut j: usize = 0;
        while j < row.len()
            invariant
                j <= row.len(),
                columns.len() == j,
                forall|k: int| 0 <= k < j ==> columns@[k]@ == cleaned(row@[k]@),
            decreases row.len() - j,
        {
            columns.push(clean(row[j].as_str()).to_owned());
            j += 1;
        }
        proof {
            assert(all.take(i + 1).drop_last() == all.take(i as int));
            assert(all.take(i + 1).last() == row.deep_view());
            assert(columns.deep_view() == cleaned_row(row.deep_view()));
        }
        if columns.len() > 0 {
            let ghost above = table.deep_view();
            table.push(columns);
            assert(table.deep_view() == above.push(columns.deep_view()));
        }
        i += 1;
    }
    assert(all.take(raw.len() as int) == all);
    table
}

/// The table of the plan that the page `html` holds: the cells of every
/// table row that has cells.
pub fn extract_html_table(html: &str) -> (table: Vec<Vec<String>>)
    ensures
        table.deep_view() == cleaned_table(nested_element_texts(html@, "tr"@, "td"@)),
{
    let raw = nested_texts_of(html, "tr", "td");
    clean_table(&raw)
}

} // verus!
