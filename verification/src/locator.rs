//! Parsed URLs as plain values: the parts of a URL that the library reads.

use vstd::prelude::*;
use crate::text::optional_text;

verus! {

/// A parsed URL: its normalized text and the parts by which results are
/// compared.
#[derive(Debug, Clone, PartialEq, Eq)]
pub struct ParsedUrl {
    /// The whole URL, normalized.
    pub href: String,
    /// The host, where the URL has one.
    pub host: Option<String>,
    /// The path.
    pub path: String,
    /// The query string without its `?`, where the URL has one.
    pub query: Option<String>,
}

/// The parts of a URL over plain sequences.
pub ghost struct UrlParts {
    pub href: Seq<char>,
    pub host: Option<Seq<char>>,
    pub path: Seq<char>,
    pub query: Option<Seq<char>>,
}

/// The part of a URL that tells two results apart: host, path and query. The
/// scheme is not part of it.
pub ghost struct UrlKey {
    pub host: Option<Seq<char>>,
    pub path: Seq<char>,
    pub query: Option<Seq<char>>,
}

impl UrlParts {
    /// The identity of the URL among results.
    pub open spec fn key(self) -> UrlKey {
        UrlKey { host: self.host, path: self.path, query: self.query }
    }
}

impl View for ParsedUrl {
    type V = UrlParts;

    open spec fn view(&self) -> UrlParts {
        UrlParts {
            href: self.href@,
            host: optional_text(self.host),
            path: self.path@,
            query: optional_text(self.query),
        }
    }
}

/// What `url::Url::parse` makes of a text: `None` where it rejects the text,
/// else the parts of the URL it returns.
pub uninterp spec fn parsed_url(text: Seq<char>) -> Option<UrlParts>;

/// What `url::form_urlencoded::parse` yields for a query string: the decoded
/// name and value of each pair, in order.
pub uninterp spec fn query_pairs(query: Seq<char>) -> Seq<(Seq<char>, Seq<char>)>;

/// The names and values of a list of pairs over plain sequences.
pub open spec fn pairs_view(pairs: Seq<(String, String)>) -> Seq<(Seq<char>, Seq<char>)> {
    pairs.map_values(|pair: (String, String)| (pair.0@, pair.1@))
}

/// Parses a URL with `url::Url::parse` and hands out what the parsed URL
/// reports as its text (`as_str`), host (`host_str`), path (`path`) and query
/// (`query`). The result is the named value [`parsed_url`] of the text.
#[verifier::external_body]
pub(crate) fn parse_url(text: &str) -> (r: Option<ParsedUrl>)
    ensures
        r is Some == parsed_url(text@) is Some,
        r is Some ==> r->0@ == parsed_url(text@)->0,
{
    match url::Url::parse(text) {
        Ok(u) => Some(
            ParsedUrl {
                href: u.as_str().to_string(),
                host: u.host_str().map(str::to_string),
                path: u.path().to_string(),
                query: u.query().map(str::to_string),
            },
        ),
        Err(_) => None,
    }
}

/// Splits a query string into its pairs with `url::form_urlencoded::parse`.
/// The result is the named value [`query_pairs`] of the query.
#[verifier::external_body]
pub(crate) fn parse_query_pairs(query: &str) -> (pairs: Vec<(String, String)>)
    ensures
        pairs_view(pairs@) == query_pairs(query@),
{
    url::form_urlencoded::parse(query.as_bytes()).into_owned().collect()
}

fn same_optional(a: &Option<String>, b: &Option<String>) -> (r: bool)
    ensures
        r == (optional_text(*a) == optional_text(*b)),
{
    match a {
        Some(x) => match b {
            Some(y) => *x == *y,
            None => false,
        },
        None => b.is_none(),
    }
}

fn clone_optional(a: &Option<String>) -> (r: Option<String>)
    ensures
        optional_text(r) == optional_text(*a),
{
    match a {
        Some(x) => Some(x.clone()),
        None => None,
    }
}

impl ParsedUrl {
    /// Parses `text`. `None` where the text is no URL.
    pub fn parse(text: &str) -> (r: Option<ParsedUrl>)
        ensures
            r is Some == parsed_url(text@) is Some,
            r is Some ==> r->0@ == parsed_url(text@)->0,
    {
        parse_url(text)
    }

    /// Whether two URLs name the same result: host, path and query agree.
    pub fn same_target(&self, other: &ParsedUrl) -> (r: bool)
        ensures
            r == (self@.key() == other@.key()),
    {
        same_optional(&self.host, &other.host) && self.path == other.path && same_optional(
            &self.query,
            &other.query,
        )
    }

    /// A copy of this URL.
    pub fn duplicate(&self) -> (r: ParsedUrl)
        ensures
            r@ == self@,
    {
        ParsedUrl {
            href: self.href.clone(),
            host: clone_optional(&self.host),
            path: self.path.clone(),
            query: clone_optional(&self.query),
        }
    }
}

} // verus!
