use crate::date::{julian_day_of, month_of, Date, Month};
use crate::markup::{attributes_of, element_attributes, element_texts, texts_of};
use crate::pattern::{captures, regex_captures};
use crate::text::{chars_of, parse_decimal, parse_unsigned, trim, trim_bounds};
use vstd::prelude::*;
use vstd::string::*;

pub mod html_table;
pub mod parser;

verus! {

/// Why a page of the plan could not be read.
#[derive(Clone, Copy, Debug, PartialEq, Eq, Structural, Hash)]
pub enum ExtractError {
    /// A row of the table does not have seven cells; `found` is the
    /// number it has.
    ColumnCount { found: usize },
    /// The first row leaves out a cell that later rows may take from the
    /// row before them.
    MissingField,
    /// The cell of the lesson does not hold a number and a full stop.
    InvalidLesson,
    /// No heading of the page holds a date.
    MissingDate,
    /// The date in the heading is no day of the calendar.
    InvalidDate,
    /// The link to the next page is too short to hold an address.
    InvalidNextPage,
}

/// The form of a heading that names the day of the plan: a word, then the
/// day of the month, the month and the year, with full stops between them.
pub open spec fn date_pattern() -> Seq<char> {
    "\\S+ (\\d{2})\\.(\\d{2})\\.(\\d{4})"@
}

/// The text of a cell without the white space around it and, where what
/// is left stands in round brackets, without those.
pub open spec fn cleaned(value: Seq<char>) -> Seq<char> {
    let inner = trim(value);
    if inner.len() > 0 && inner.first() == '(' && inner.last() == ')' {
        inner.subrange(1, inner.len() - 1)
    } else {
        inner
    }
}

/// The day that the groups of the date pattern name: day of the month,
/// month and year, in this order after the whole match.
pub open spec fn date_in(groups: Seq<Option<Seq<char>>>) -> Result<Date, ExtractError> {
    if groups.len() < 4 || groups[1] is None || groups[2] is None || groups[3] is None {
        Err(ExtractError::InvalidDate)
    } else {
        let day = parse_unsigned(groups[1]->0, 255);
        let month = parse_unsigned(groups[2]->0, 255);
        let year = parse_unsigned(groups[3]->0, 9999);
        if day is None || month is None || year is None || month_of(month->0 as int) is None {
            Err(ExtractError::InvalidDate)
        } else {
            match julian_day_of(year->0 as i32, month->0 as u8, day->0 as u8) {
                Some(julian_day) => Ok(Date { julian_day }),
                None => Err(ExtractError::InvalidDate),
            }
        }
    }
}

/// The day of the plan that the headings of a page name: that of the
/// first heading that has the form of the date pattern.
pub open spec fn date_of(headings: Seq<Seq<char>>) -> Result<Date, ExtractError>
    decreases headings.len(),
{
    if headings.len() == 0 {
        Err(ExtractError::MissingDate)
    } else {
        match regex_captures(date_pattern(), headings.first()) {
            Some(groups) => date_in(groups),
            None => date_of(headings.drop_first()),
        }
    }
}

/// The last of `values` that is there.
pub open spec fn last_present(values: Seq<Option<Seq<char>>>) -> Option<Seq<char>>
    decreases values.len(),
{
    if values.len() == 0 {
        None
    } else {
        match values.last() {
            Some(value) => Some(value),
            None => last_present(values.drop_last()),
        }
    }
}

/// The link to the next page that the buttons of a page hold, given what
/// each of them does on a click: the last button that does something calls
/// a function with the address of the next page, and the address is what
/// follows the first 22 characters of the call, but for its last
/// character. A page without such a button has no next page.
pub open spec fn next_page_in(onclicks: Seq<Option<Seq<char>>>) -> Result<
    Option<Seq<char>>,
    ExtractError,
> {
    match last_present(onclicks) {
        None => Ok(None),
        Some(call) => if call.len() < 23 {
            Err(ExtractError::InvalidNextPage)
        } else {
            Ok(Some(call.subrange(22, call.len() - 1)))
        },
    }
}

/// What a link that was looked for says.
pub open spec fn link_view(link: Result<Option<String>, ExtractError>) -> Result<
    Option<Seq<char>>,
    ExtractError,
> {
    match link {
        Ok(link) => Ok(link.deep_view()),
        Err(error) => Err(error),
    }
}

/// Removes the white space around a text and, where what is left stands in
/// round brackets, the brackets.
pub fn clean(value: &str) -> (inner: &str)
    ensures
        inner@ == cleaned(value@),
{
    let chars = chars_of(value);
    let (start, end) = trim_bounds(&chars, 0, chars.len());
    assert(chars@.subrange(0, chars.len() as int) == chars@);
    if start < end && chars[start] == '(' && chars[end - 1] == ')' {
        proof {
            let inner = chars@.subrange(start as int, end as int);
            assert(inner.first() == chars@[start as int]);
            assert(inner.last() == chars@[end - 1]);
            assert(inner.subrange(1, inner.len() - 1) == chars@.subrange(start + 1, end - 1));
        }
        value.substring_char(start + 1, end - 1)
    } else {
        proof {
            let inner = chars@.subrange(start as int, end as int);
            if start < end {
                assert(inner.first() == chars@[start as int]);
                assert(inner.last() == chars@[end - 1]);
            }
        }
        value.substring_char(start, end)
    }
}

/// Reads a number without a sign of its own that is no larger than `max`.
fn parse_number(text: &str, max: u32) -> (value: Option<u32>)
    ensures
        match value {
            Some(value) => parse_unsigned(text@, max as nat) == Some(value as nat),
            None => parse_unsigned(text@, max as nat) is None,
        },
{
    let chars = chars_of(text);
    assert(chars@.subrange(0, chars.len() as int) == text@);
    parse_decimal(&chars, 0, chars.len(), max)
}

/// The day that the groups of the date pattern name.
pub fn date_from_groups(groups: &Vec<Option<String>>) -> (date: Result<Date, ExtractError>)
    ensures
        date == date_in(groups.deep_view()),
{
    if groups.len() < 4 {
        return Err(ExtractError::InvalidDate);
    }
    let ghost texts = groups.deep_view();
    assert(forall|i: int| 0 <= i < 4 ==> texts[i] == (#[trigger] groups@[i]).deep_view());
    match (&groups[1], &groups[2], &groups[3]) {
        (Some(day), Some(month), Some(year)) => {
            let day = parse_number(day.as_str(), 255);
            let month = parse_number(month.as_str(), 255);
            let year = parse_number(year.as_str(), 9999);
            match (day, month, year) {
                (Some(day), Some(month), Some(year)) => {
                    match Month::from_number(month as u8) {
                        Some(month) => {
                            match Date::from_calendar_date(year as i32, month, day as u8) {
                                Some(date) => Ok(date),
                                None => Err(ExtractError::InvalidDate),
                            }
                        },
                        None => Err(ExtractError::InvalidDate),
                    }
                },
                _ => Err(ExtractError::InvalidDate),
            }
        },
        _ => Err(ExtractError::InvalidDate),
    }
}

/// The day of the plan that the page `html` is about: the one that its
/// first heading of the form of the date pattern names.
pub fn extract_date(html: &str) -> (date: Result<Date, ExtractError>)
    ensures
        date == date_of(element_texts(html@, "h1"@)),
{
    let headings = texts_of(html, "h1");
    let ghost all = headings.deep_view();
    let mut i: usize = 0;
    assert(all.skip(0) == all);
    while i < headings.len()
        invariant
            i <= headings.len(),
            all == headings.deep_view(),
            all == element_texts(html@, "h1"@),
            date_of(all) == date_of(all.skip(i as int)),
        decreases headings.len() - i,
    {
        proof {
            assert(all.skip(i as int).first() == headings@[i as int]@);
            assert(all.skip(i as int).drop_first() == all.skip(i + 1));
        }
        match captures("\\S+ (\\d{2})\\.(\\d{2})\\.(\\d{4})", headings[i].as_str()) {
            Some(groups) => {
                return date_from_groups(&groups);
            },
            None => {},
        }
        i += 1;
    }
    Err(ExtractError::MissingDate)
}

/// The link to the next page, given what each button of a page does on a
/// click.
pub fn next_page_link(onclicks: &Vec<Option<String>>) -> (link: Result<
    Option<String>,
    ExtractError,
>)
    ensures
        link_view(link) == next_page_in(onclicks.deep_view()),
{
    let ghost all = onclicks.deep_view();
    let mut i: usize = onclicks.len();
    assert(all.take(i as int) == all);
    while i > 0
        invariant
            i <= onclicks.len(),
            all == onclicks.deep_view(),
            last_present(all) == last_present(all.take(i as int)),
        decreases i,
    {
        proof {
            assert(all.take(i as int).last() == onclicks@[i - 1].deep_view());
            assert(all.take(i as int).drop_last() == all.take(i - 1));
        }
        match &onclicks[i - 1] {
            Some(call) => {
                let length = call.as_str().unicode_len();
                if length < 23 {
                    return Err(ExtractError::InvalidNextPage);
                }
                return Ok(Some(call.as_str().substring_char(22, length - 1).to_owned()));
            },
            None => {},
        }
        i -= 1;
    }
    Ok(None)
}

/// The link to the page that follows the page `html`, if one follows.
pub fn extract_next_page(html: &str) -> (link: Result<Option<String>, ExtractError>)
    ensures
        link_view(link) == next_page_in(element_attributes(html@, "input"@, "onclick"@)),
{
    let onclicks = attributes_of(html, "input", "onclick");
    next_page_link(&onclicks)
}

} // verus!
