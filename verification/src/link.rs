//! The links that showcase a mob.

use vstd::prelude::*;

use crate::expected_files::ExpectedFiles;
use crate::text::{html_escaped, push_escaped};
use crate::url::{parse_url, url_serialization};

verus! {

/// A link that showcases a mob.
pub enum Link {
    /// A YouTube channel, by its path such as `@mobseattle`.
    YouTube(String),
}

/// The address of a YouTube channel, before it is parsed as a URL.
pub open spec fn youtube_url_text(path: Seq<char>) -> Seq<char> {
    "https://www.youtube.com/"@ + path
}

/// The address a link points to, before it is parsed as a URL.
pub open spec fn link_url_text(link: Link) -> Seq<char> {
    match link {
        Link::YouTube(path) => youtube_url_text(path@),
    }
}

/// The text that the image of a link's kind is described by.
pub open spec fn link_alt(link: Link) -> Seq<char> {
    match link {
        Link::YouTube(_) => "YouTube"@,
    }
}

impl Link {
    /// The address the link points to, before it is parsed as a URL.
    pub fn url_text(&self) -> (text: String)
        ensures
            text@ == link_url_text(*self),
    {
        match self {
            Link::YouTube(path) => {
                let mut text = String::from_str("https://www.youtube.com/");
                text.append(path.as_str());
                text
            },
        }
    }

    /// Whether the link's address is a valid URL.
    pub fn has_valid_url(&self) -> (valid: bool)
        ensures
            valid == url_serialization(link_url_text(*self)) is Some,
    {
        let text = self.url_text();
        match parse_url(text.as_str()) {
            Some(_) => true,
            None => false,
        }
    }
}

/// The path of the logo of a link's kind, which the site holds.
pub open spec fn link_image_path(link: Link) -> Seq<char> {
    match link {
        Link::YouTube(_) => "/youtube_logo.svg"@,
    }
}

/// The element that shows a link: a logo that points to the address.
pub struct LinkElement {
    url: String,
    alt: &'static str,
    image_path: String,
}

/// The HTML of a link element.
pub open spec fn link_element_html(url: Seq<char>, alt: Seq<char>, image_path: Seq<char>) -> Seq<char> {
    "<a href=\""@ + html_escaped(url) + "\"><img class=\"h-8\" alt=\""@ + html_escaped(alt)
        + "\" src=\""@ + html_escaped(image_path) + "\"></a>"@
}

/// Whether `e` is the element of `link`: the address of the link as a URL
/// gives it back, the description of the link's kind and its logo.
pub open spec fn is_element_of(e: LinkElement, link: Link) -> bool {
    &&& e.spec_url() == url_serialization(link_url_text(link))->Some_0
    &&& e.spec_alt() == link_alt(link)
    &&& e.spec_image_path() == link_image_path(link)
}

impl LinkElement {
    /// The address the element points to.
    pub closed spec fn spec_url(&self) -> Seq<char> {
        self.url@
    }

    /// The description of the element's image.
    pub closed spec fn spec_alt(&self) -> Seq<char> {
        self.alt@
    }

    /// The path of the element's image.
    pub closed spec fn spec_image_path(&self) -> Seq<char> {
        self.image_path@
    }

    /// The element that shows `image_path`, described by `alt`, pointing to
    /// `url`.
    pub fn new(url: String, alt: &'static str, image_path: String) -> (e: Self)
        ensures
            e.spec_url() == url@,
            e.spec_alt() == alt@,
            e.spec_image_path() == image_path@,
    {
        LinkElement { url, alt, image_path }
    }

    /// The element of a link whose address is a valid URL, showing the logo
    /// of its kind; the logo's file is recorded in `expected_files`.
    pub fn from_link(link: Link, expected_files: &mut ExpectedFiles) -> (e: Self)
        requires
            url_serialization(link_url_text(link)) is Some,
        ensures
            e.spec_url() == url_serialization(link_url_text(link))->Some_0,
            e.spec_alt() == link_alt(link),
            e.spec_image_path() == link_image_path(link),
            final(expected_files)@ == old(expected_files)@.insert(link_image_path(link)),
    {
        match link {
            Link::YouTube(path) => {
                let mut text = String::from_str("https://www.youtube.com/");
                text.append(path.as_str());
                let url = match parse_url(text.as_str()) {
                    Some(url) => url,
                    None => {
                        assert(false);
                        String::new()
                    },
                };
                let image_path = expected_files.insert(String::from_str("/youtube_logo.svg"));
                LinkElement::new(url, "YouTube", image_path)
            },
        }
    }

    /// The element of a link, or `None`, with `expected_files` left as it
    /// was, when its address is not a valid URL.
    pub fn try_from_link(link: Link, expected_files: &mut ExpectedFiles) -> (e: Option<Self>)
        ensures
            e is Some <==> url_serialization(link_url_text(link)) is Some,
            e matches Some(e) ==> e.spec_url() == url_serialization(link_url_text(link))->Some_0
                && e.spec_alt() == link_alt(link) && e.spec_image_path() == link_image_path(link),
            e is Some ==> final(expected_files)@ == old(expected_files)@.insert(link_image_path(link)),
            e is None ==> final(expected_files)@ == old(expected_files)@,
    {
        if link.has_valid_url() {
            Some(LinkElement::from_link(link, expected_files))
        } else {
            None
        }
    }

    /// The HTML of the element.
    pub fn render(&self) -> (html: String)
        ensures
            html@ == link_element_html(self.spec_url(), self.spec_alt(), self.spec_image_path()),
    {
        let mut out = String::from_str("<a href=\"");
        push_escaped(&mut out, self.url.as_str());
        out.append("\"><img class=\"h-8\" alt=\"");
        push_escaped(&mut out, self.alt);
        out.append("\" src=\"");
        push_escaped(&mut out, self.image_path.as_str());
        out.append("\"></a>");
        out
    }
}

} // verus!
