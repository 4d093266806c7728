//! The parts of a web address that decisions are made on.

use vstd::prelude::*;

use crate::text;

verus! {

/// What a [`PageUrl`] reads, part by part.
pub struct PageView {
    pub href: Seq<char>,
    pub host: Option<Seq<char>>,
    pub path: Seq<char>,
    pub query: Option<Seq<char>>,
}

impl PageView {
    /// The host, or the empty text for an address without one.
    pub open spec fn host_or_empty(self) -> Seq<char> {
        match self.host {
            Some(host) => host,
            None => Seq::<char>::empty(),
        }
    }

    /// The `/`-separated segments of a path that begins with `/`.
    pub open spec fn segments(self) -> Option<Seq<Seq<char>>> {
        if self.path.len() > 0 && self.path[0] == '/' {
            Some(text::split_at_each(self.path.drop_first(), '/'))
        } else {
            None
        }
    }
}

/// A parsed address: its normalised spelling, and the host, path and query
/// that stand in it.
#[derive(Debug, Clone)]
pub struct PageUrl {
    /// The whole address, normalised.
    pub href: String,
    /// Domain or IP address, where the address has one.
    pub host: Option<String>,
    /// The path, percent-encoded.
    pub path: String,
    /// What follows `?`, percent-encoded, where there is a `?`.
    pub query: Option<String>,
}

/// What an optional string reads.
pub open spec fn optional_text(s: Option<String>) -> Option<Seq<char>> {
    match s {
        Some(s) => Some(s@),
        None => None,
    }
}

impl View for PageUrl {
    type V = PageView;

    open spec fn view(&self) -> PageView {
        PageView {
            href: self.href@,
            host: optional_text(self.host),
            path: self.path@,
            query: optional_text(self.query),
        }
    }
}

/// What `url::Url::parse` makes of a text: the parts of the address, or the
/// text of the error.
pub uninterp spec fn parsed_address(input: Seq<char>) -> Result<PageView, Seq<char>>;

/// Calls `url::Url::parse` and hands out what `as_str`, `host_str`, `path` and
/// `query` say of the address, or the error's text.
///
/// Believed without proof: the outcome depends on `input` alone, so that it has
/// a name, `parsed_address`. Which texts parse, and into what, is left to that
/// name.
#[verifier::external_body]
fn parse_address(input: &str) -> (r: Result<PageUrl, String>)
    ensures
        match r {
            Ok(page) => parsed_address(input@) == Ok::<PageView, Seq<char>>(page@),
            Err(message) => parsed_address(input@) == Err::<PageView, Seq<char>>(message@),
        },
{
    match url::Url::parse(input) {
        Ok(address) => Ok(
            PageUrl {
                href: address.as_str().to_string(),
                host: address.host_str().map(String::from),
                path: address.path().to_string(),
                query: address.query().map(String::from),
            },
        ),
        Err(error) => Err(error.to_string()),
    }
}

impl PageUrl {
    /// Parses an absolute address; the error says in words what is wrong.
    pub fn parse(input: &str) -> (r: Result<PageUrl, String>)
        ensures
            match r {
                Ok(page) => parsed_address(input@) == Ok::<PageView, Seq<char>>(page@),
                Err(message) => parsed_address(input@) == Err::<PageView, Seq<char>>(message@),
            },
    {
        parse_address(input)
    }

    /// The `/`-separated segments of the path, at least one; `None` for a path
    /// that does not begin with `/`.
    pub fn path_segments(&self) -> (r: Option<Vec<String>>)
        ensures
            match r {
                Some(segments) => self@.segments() == Some(text::texts(segments@)),
                None => self@.segments() is None,
            },
    {
        let path = self.path.as_str();
        let length: usize = path.unicode_len();
        if length == 0 || path.get_char(0) != '/' {
            return None;
        }
        let remainder = path.substring_char(1, length);
        assert(remainder@ =~= path@.drop_first());
        Some(text::split(remainder, '/'))
    }
}

} // verus!
