use vstd::prelude::*;

verus! {

/// The address that the reference `reference` stands for on the page at
/// `base`, as the `url` crate resolves it and writes it out; `None` where
/// `base` is no absolute address or the reference cannot be resolved.
pub uninterp spec fn joined_url(base: Seq<char>, reference: Seq<char>) -> Option<Seq<char>>;

/// The point in time, in nanoseconds since the start of 1970 in UTC, that
/// `text` names in the date format of RFC 2822 as the `time` crate reads
/// it; `None` where `text` is no such date.
pub uninterp spec fn rfc2822_instant(text: Seq<char>) -> Option<i128>;

/// Reads `base` with `reqwest::Url::parse`, resolves `reference` against it
/// with `Url::join` and writes the result out with `Url::as_str`. `None`
/// where one of the first two fails. The contract only names the result.
#[verifier::external_body]
pub(crate) fn join_url(base: &str, reference: &str) -> (joined: Option<String>)
    ensures
        joined.deep_view() == joined_url(base@, reference@),
{
    let base = reqwest::Url::parse(base).ok()?;
    let joined = base.join(reference).ok()?;
    Some(joined.as_str().to_string())
}

/// Reads `text` with `time::OffsetDateTime::parse` in the format
/// `Rfc2822` and gives the point in time as
/// `OffsetDateTime::unix_timestamp_nanos` counts it. `None` where the text
/// cannot be read. The contract only names the result.
#[verifier::external_body]
pub(crate) fn parse_rfc2822(text: &str) -> (instant: Option<i128>)
    ensures
        instant == rfc2822_instant(text@),
{
    let format = time::format_description::well_known::Rfc2822;
    let read = time::OffsetDateTime::parse(text, &format).ok()?;
    Some(read.unix_timestamp_nanos())
}

} // verus!
