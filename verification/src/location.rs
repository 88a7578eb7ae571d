//! URLs, read through the `url` crate into plain parts.

use vstd::prelude::*;

verus! {

/// The parts of a parsed URL that the providers read.
#[derive(Debug, Clone)]
pub struct ParsedUrl {
    /// The whole URL, serialized.
    pub serialization: String,
    /// The scheme, lower-cased, without the `:`.
    pub scheme: String,
    /// The host, for a URL that has one.
    pub host: Option<String>,
    /// The authority (user info, host and port), possibly empty.
    pub authority: String,
    /// The path.
    pub path: String,
}

impl View for ParsedUrl {
    type V = (Seq<char>, Seq<char>, Option<Seq<char>>, Seq<char>, Seq<char>);

    open spec fn view(&self) -> Self::V {
        (
            self.serialization@,
            self.scheme@,
            match self.host {
                Some(h) => Some(h@),
                None => None,
            },
            self.authority@,
            self.path@,
        )
    }
}

/// What `url::Url::parse` makes of `input`: `None` where it fails, else the
/// serialization, scheme, host, authority and path of the URL, in that order.
pub uninterp spec fn spec_url_parse(input: Seq<char>) -> Option<(Seq<char>, Seq<char>, Option<Seq<char>>, Seq<char>, Seq<char>)>;

/// `url::Url::parse`, with the parts of the URL read out (`as_str`,
/// `scheme`, `host_str`, `authority`, `path`).
///
/// Trusted: the result is named `spec_url_parse` of the input; the URL
/// grammar is not restated.
#[verifier::external_body]
fn parse_url(input: &str) -> (r: Option<ParsedUrl>)
    ensures
        match r {
            Some(u) => spec_url_parse(input@) == Some(u@),
            None => spec_url_parse(input@) is None,
        },
{
    match url::Url::parse(input) {
        Ok(u) => Some(ParsedUrl {
            serialization: u.as_str().to_string(),
            scheme: u.scheme().to_string(),
            host: match u.host_str() {
                Some(h) => Some(h.to_string()),
                None => None,
            },
            authority: u.authority().to_string(),
            path: u.path().to_string(),
        }),
        Err(_) => None,
    }
}

impl ParsedUrl {
    /// Parses an absolute URL; `None` where `input` is not one.
    pub fn parse(input: &str) -> (r: Option<ParsedUrl>)
        ensures
            match r {
                Some(u) => spec_url_parse(input@) == Some(u@),
                None => spec_url_parse(input@) is None,
            },
    {
        parse_url(input)
    }
}

} // verus!
