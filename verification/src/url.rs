//! URLs, parsed and written back as text.

use vstd::prelude::*;

verus! {

/// The text of the URL that `text` parses to, as `Url::to_string` writes
/// it, or `None` when `text` is not a valid absolute URL.
pub uninterp spec fn url_serialization(text: Seq<char>) -> Option<Seq<char>>;

/// Parses a URL with `reqwest::Url::parse` and writes it back with
/// `to_string`. What the parser accepts and how it normalizes is named by
/// `url_serialization` and not stated.
#[verifier::external_body]
pub(crate) fn parse_url(text: &str) -> (url: Option<String>)
    ensures
        url matches Some(u) ==> url_serialization(text@) == Some(u@),
        url is None ==> url_serialization(text@) is None,
{
    reqwest::Url::parse(text).ok().map(|url| url.to_string())
}

} // verus!
