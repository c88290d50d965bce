use vstd::prelude::*;

verus! {

/// The texts of the elements named `name` in the document that the
/// `select` crate reads from `html`, in the order of the document. The
/// text of an element is that of all the text nodes below it.
pub uninterp spec fn element_texts(html: Seq<char>, name: Seq<char>) -> Seq<Seq<char>>;

/// For each element named `outer` in the document that the `select` crate
/// reads from `html`, the texts of the elements named `inner` below it.
pub uninterp spec fn nested_element_texts(
    html: Seq<char>,
    outer: Seq<char>,
    inner: Seq<char>,
) -> Seq<Seq<Seq<char>>>;

/// For each element named `name` in the document that the `select` crate
/// reads from `html`, the value of its attribute `attribute`, or `None`
/// where it has no such attribute.
pub uninterp spec fn element_attributes(
    html: Seq<char>,
    name: Seq<char>,
    attribute: Seq<char>,
) -> Seq<Option<Seq<char>>>;

/// Reads `html` with `select::document::Document::from`, walks the
/// elements named `name` with `Document::find` and takes the text of each
/// with `Node::text`. The contract only names the result.
#[verifier::external_body]
pub(crate) fn texts_of(html: &str, name: &str) -> (texts: Vec<String>)
    ensures
        texts.deep_view() == element_texts(html@, name@),
{
    let document = select::document::Document::from(html);
    document.find(select::predicate::Name(name)).map(|node| node.text()).collect()
}

/// Reads `html` with `select::document::Document::from`, walks the
/// elements named `outer` with `Document::find` and, below each of them,
/// the elements named `inner` with `Node::find`, and takes the text of
/// each of these with `Node::text`. The contract only names the result.
#[verifier::external_body]
pub(crate) fn nested_texts_of(html: &str, outer: &str, inner: &str) -> (texts: Vec<Vec<String>>)
    ensures
        texts.deep_view() == nested_element_texts(html@, outer@, inner@),
{
    let document = select::document::Document::from(html);
    document.find(select::predicate::Name(outer)).map(
        |row| row.find(select::predicate::Name(inner)).map(|node| node.text()).collect(),
    ).collect()
}

/// Reads `html` with `select::document::Document::from`, walks the
/// elements named `name` with `Document::find` and asks each for its
/// attribute `attribute` with `Node::attr`. The contract only names the
/// result.
#[verifier::external_body]
pub(crate) fn attributes_of(html: &str, name: &str, attribute: &str) -> (values: Vec<
    Option<String>,
>)
    ensures
        values.deep_view() == element_attributes(html@, name@, attribute@),
{
    let document = select::document::Document::from(html);
    document.find(select::predicate::Name(name)).map(
        |node| node.attr(attribute).map(|value| value.to_string()),
    ).collect()
}

} // verus!
