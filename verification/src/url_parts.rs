//! The parts of a parsed URL that the analysis reads.

use vstd::prelude::*;

verus! {

#[verifier::external_type_specification]
#[verifier::external_body]
pub struct ExUrlParseError(url::ParseError);

/// Scheme, host, path and query of a URL, as plain text.
pub struct ParsedUrl {
    /// The scheme, without the `:` delimiter.
    pub scheme: String,
    /// The host, if the URL has one.
    pub host: Option<String>,
    /// The path.
    pub path: String,
    /// The query, if the URL has one, without the `?`.
    pub query: Option<String>,
}

/// The text of an optional string.
pub open spec fn opt_text(s: Option<String>) -> Option<Seq<char>> {
    match s {
        Some(t) => Some(t@),
        None => None,
    }
}

/// Scheme, host, path and query.
pub type UrlView = (Seq<char>, Option<Seq<char>>, Seq<char>, Option<Seq<char>>);

impl View for ParsedUrl {
    type V = UrlView;

    open spec fn view(&self) -> UrlView {
        (self.scheme@, opt_text(self.host), self.path@, opt_text(self.query))
    }
}

/// What `url::Url::parse` makes of a text, read through `scheme`,
/// `host_str`, `path` and `query`; `None` where it refuses the text.
pub uninterp spec fn url_parse(input: Seq<char>) -> Option<UrlView>;

/// Calls `url::Url::parse` and reads the scheme, host, path and query of the
/// result. Claimed: it succeeds exactly when `url_parse` gives a value, and
/// the parts read are that value.
#[verifier::external_body]
fn parse_url_parts(input: &str) -> (res: Result<ParsedUrl, url::ParseError>)
    ensures
        res is Ok <==> url_parse(input@) is Some,
        res matches Ok(u) ==> url_parse(input@) == Some(u@),
{
    match url::Url::parse(input) {
        Ok(u) => Ok(ParsedUrl {
            scheme: u.scheme().to_string(),
            host: u.host_str().map(|h| h.to_string()),
            path: u.path().to_string(),
            query: u.query().map(|q| q.to_string()),
        }),
        Err(e) => Err(e),
    }
}

/// Parses a URL into its parts; `None` where it is not a valid URL.
pub fn parse_url(input: &str) -> (res: Option<ParsedUrl>)
    ensures
        match res {
            Some(u) => url_parse(input@) == Some(u@),
            None => url_parse(input@) is None,
        },
{
    match parse_url_parts(input) {
        Ok(u) => Some(u),
        Err(_) => None,
    }
}

/// The host of a URL, if it parses and has one.
pub fn url_host(input: &str) -> (res: Option<String>)
    ensures
        match url_parse(input@) {
            Some(v) => opt_text(res) == v.1,
            None => res is None,
        },
{
    match parse_url(input) {
        Some(u) => u.host,
        None => None,
    }
}

} // verus!
