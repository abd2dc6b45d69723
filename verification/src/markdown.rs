//! Markdown text and its rendering to HTML.

use vstd::prelude::*;

verus! {

/// Markdown text.
pub struct Markdown(String);

impl Markdown {
    /// The Markdown source.
    pub closed spec fn spec_source(&self) -> Seq<char> {
        self.0@
    }

    /// The Markdown source.
    pub fn as_str(&self) -> (s: &str)
        ensures
            s@ == self.spec_source(),
    {
        self.0.as_str()
    }
}

impl From<String> for Markdown {
    fn from(s: String) -> (m: Self)
        ensures
            m.spec_source() == s@,
    {
        Markdown(s)
    }
}

impl vstd::std_specs::convert::FromSpecImpl<String> for Markdown {
    open spec fn obeys_from_spec() -> bool {
        true
    }

    closed spec fn from_spec(v: String) -> Self {
        Markdown(v)
    }
}

/// The HTML that `comrak` renders from Markdown with its default options.
pub uninterp spec fn comrak_html(markdown: Seq<char>) -> Seq<char>;

/// Renders Markdown to HTML with `comrak::markdown_to_html` and the default
/// options. What the HTML is, is named by `comrak_html` and not stated.
#[verifier::external_body]
fn markdown_to_html(markdown: &str) -> (html: String)
    ensures
        html@ == comrak_html(markdown@),
{
    comrak::markdown_to_html(markdown, &comrak::Options::default())
}

impl Markdown {
    /// The HTML of the Markdown.
    pub fn to_html(&self) -> (html: String)
        ensures
            html@ == comrak_html(self.spec_source()),
    {
        markdown_to_html(self.0.as_str())
    }
}

} // verus!
