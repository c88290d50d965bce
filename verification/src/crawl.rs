use crate::davinci::{Row, RowView, Timestamp};
use crate::extractor::html_table::{cleaned_table, extract_html_table};
use crate::extractor::parser::{parse, parsed_rows};
use crate::extractor::{
    date_of, extract_date, extract_next_page, next_page_in, ExtractError,
};
use crate::markup::{element_attributes, element_texts, nested_element_texts};
use crate::text::same_text;
use crate::web::{join_url, joined_url, parse_rfc2822, rfc2822_instant};
use vstd::prelude::*;
use vstd::string::*;

verus! {

/// Why the plan could not be read.
#[derive(Clone, Copy, Debug, PartialEq, Eq, Structural, Hash)]
pub enum CrawlError {
    /// The answer of the server does not say when the page was last
    /// modified.
    MissingLastModified,
    /// What the server says of the last modification is no date.
    InvalidLastModified,
    /// The page could not be read.
    Page(ExtractError),
    /// The link to the next page gives no address.
    InvalidUrl,
}

/// What reading one page of the plan gives, besides its rows.
#[derive(Clone, Debug, PartialEq, Eq, Hash)]
pub struct Fetched {
    /// When the page was last modified.
    pub last_modified: Timestamp,
    /// The address of the page to read next; `None` after the last page.
    pub next: Option<String>,
}

/// What a `Fetched` says.
pub ghost struct FetchedView {
    pub last_modified: Timestamp,
    pub next: Option<Seq<char>>,
}

impl DeepView for Fetched {
    type V = FetchedView;

    open spec fn deep_view(&self) -> FetchedView {
        FetchedView { last_modified: self.last_modified, next: self.next.deep_view() }
    }
}

/// The page to read after the page at `url`, `joined` being the address
/// that the link of the page stands for. A link without an address is an
/// error. A link to the page itself ends the plan: the page is the last.
pub open spec fn next_url(url: Seq<char>, joined: Option<Seq<char>>) -> Result<
    Option<Seq<char>>,
    CrawlError,
> {
    match joined {
        None => Err(CrawlError::InvalidUrl),
        Some(next) => if next == url {
            Ok(None)
        } else {
            Ok(Some(next))
        },
    }
}

/// What reading the page at `url` gives: the rows read so far, `before`
/// being those of the pages before it, and the page to read next or the
/// error that ended the reading. `last_modified` is what the server said
/// of the page's last modification, `body` the text of the page.
///
/// The page must come with the date of its last modification. Its
/// heading names the day of the plan, its table holds the rows, and its
/// last button leads to the next page.
pub open spec fn page_outcome(
    url: Seq<char>,
    last_modified: Option<Seq<char>>,
    body: Seq<char>,
    before: Seq<RowView>,
) -> (Seq<RowView>, Result<FetchedView, CrawlError>) {
    if last_modified is None {
        (before, Err(CrawlError::MissingLastModified))
    } else if rfc2822_instant(last_modified->0) is None {
        (before, Err(CrawlError::InvalidLastModified))
    } else {
        let modified = Timestamp { unix_nanos: rfc2822_instant(last_modified->0)->0 };
        match date_of(element_texts(body, "h1"@)) {
            Err(error) => (before, Err(CrawlError::Page(error))),
            Ok(date) => {
                let table = cleaned_table(nested_element_texts(body, "tr"@, "td"@));
                let (rows, error) = parsed_rows(table, date, before, table.len());
                if error is Some {
                    (rows, Err(CrawlError::Page(error->0)))
                } else {
                    match next_page_in(element_attributes(body, "input"@, "onclick"@)) {
                        Err(error) => (rows, Err(CrawlError::Page(error))),
                        Ok(None) => (rows, Ok(FetchedView { last_modified: modified, next: None })),
                        Ok(Some(link)) => match next_url(url, joined_url(url, link)) {
                            Err(error) => (rows, Err(error)),
                            Ok(next) => (rows, Ok(FetchedView { last_modified: modified, next })),
                        },
                    }
                }
            },
        }
    }
}

/// What the outcome of reading a page says.
pub open spec fn outcome_view(outcome: Result<Fetched, CrawlError>) -> Result<
    FetchedView,
    CrawlError,
> {
    match outcome {
        Ok(fetched) => Ok(fetched.deep_view()),
        Err(error) => Err(error),
    }
}

/// What the page to read next says.
pub open spec fn next_view(next: Result<Option<String>, CrawlError>) -> Result<
    Option<Seq<char>>,
    CrawlError,
> {
    match next {
        Ok(next) => Ok(next.deep_view()),
        Err(error) => Err(error),
    }
}

/// The page to read after the page at `url`, `joined` being the address
/// that the link of the page stands for.
pub fn follow(url: &str, joined: Option<String>) -> (next: Result<Option<String>, CrawlError>)
    ensures
        next_view(next) == next_url(url@, joined.deep_view()),
        joined.deep_view() == Some(url@) ==> next == Ok::<Option<String>, CrawlError>(None),
{
    match joined {
        None => Err(CrawlError::InvalidUrl),
        Some(next) => {
            if same_text(next.as_str(), url) {
                Ok(None)
            } else {
                Ok(Some(next))
            }
        },
    }
}

/// Reads the page of the plan that was fetched from `url`: checks the
/// date of its last modification, reads its rows and puts them after
/// `rows`, and finds the page to read next.
pub fn read_page(url: &str, last_modified: Option<&str>, body: &str, rows: &mut Vec<Row>) -> (outcome:
    Result<Fetched, CrawlError>)
    ensures
        final(rows).deep_view() == page_outcome(
            url@,
            last_modified.deep_view(),
            body@,
            old(rows).deep_view(),
        ).0,
        outcome_view(outcome) == page_outcome(
            url@,
            last_modified.deep_view(),
            body@,
            old(rows).deep_view(),
        ).1,
{
    let modified = match last_modified {
        None => {
            return Err(CrawlError::MissingLastModified);
        },
        Some(text) => match parse_rfc2822(text) {
            None => {
                return Err(CrawlError::InvalidLastModified);
            },
            Some(unix_nanos) => Timestamp { unix_nanos },
        },
    };
    let date = match extract_date(body) {
        Ok(date) => date,
        Err(error) => {
            return Err(CrawlError::Page(error));
        },
    };
    let table = extract_html_table(body);
    match parse(table, &date, rows) {
        Ok(()) => {},
        Err(error) => {
            return Err(CrawlError::Page(error));
        },
    }
    let link = match extract_next_page(body) {
        Ok(link) => link,
        Err(error) => {
            return Err(CrawlError::Page(error));
        },
    };
    match link {
        None => Ok(Fetched { last_modified: modified, next: None }),
        Some(link) => match follow(url, join_url(url, link.as_str())) {
            Ok(next) => Ok(Fetched { last_modified: modified, next }),
            Err(error) => Err(error),
        },
    }
}

/// A page whose link leads back to the page itself is the last page: the
/// reading goes on to no further page.
pub proof fn lemma_link_to_itself_ends_the_plan(
    url: Seq<char>,
    last_modified: Option<Seq<char>>,
    body: Seq<char>,
    before: Seq<RowView>,
)
    requires
        next_page_in(element_attributes(body, "input"@, "onclick"@)) matches Ok(Some(link))
            && joined_url(url, link) == Some(url),
    ensures
        page_outcome(url, last_modified, body, before).1 matches Ok(fetched)
            ==> fetched.next is None,
{
}

} // verus!
