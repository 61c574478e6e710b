//! Parsed URLs, user-input normalization and origins.

use vstd::prelude::*;

use crate::text::{starts_with_folded, starts_with_ignoring_case, trim, trimmed};

verus! {

/// Whether `url::Url::parse` accepts `s` as an absolute URL.
pub uninterp spec fn url_parses(s: Seq<char>) -> bool;

/// The serialization (`Url::as_str`) of the URL parsed from `s`.
pub uninterp spec fn url_href(s: Seq<char>) -> Seq<char>;

/// The ASCII serialization of the origin of the URL parsed from `s`.
pub uninterp spec fn url_origin(s: Seq<char>) -> Seq<char>;

/// The host (`Url::host_str`) of the URL parsed from `s`.
pub uninterp spec fn url_host(s: Seq<char>) -> Option<Seq<char>>;

/// The serialization of `input` resolved against the URL serialized as `base`
/// (`Url::join`), or `None` where that fails.
pub uninterp spec fn url_join(base: Seq<char>, input: Seq<char>) -> Option<Seq<char>>;

/// The parts of a parsed absolute URL that the library reads.
#[derive(Clone, Debug)]
pub struct ParsedUrl {
    /// The normalized serialization.
    pub href: String,
    /// The ASCII serialization of the origin (scheme, host and non-default port).
    pub origin: String,
    /// The host, where the URL has one.
    pub host: Option<String>,
}

pub open spec fn opt_view(o: Option<String>) -> Option<Seq<char>> {
    match o {
        Some(s) => Some(s@),
        None => None,
    }
}

impl ParsedUrl {
    /// `self` holds the parts of the URL parsed from `s`.
    pub open spec fn is_parse_of(&self, s: Seq<char>) -> bool {
        &&& url_parses(s)
        &&& self.href@ == url_href(s)
        &&& self.origin@ == url_origin(s)
        &&& opt_view(self.host) == url_host(s)
    }

    /// Parses an absolute URL.
    pub fn parse(s: &str) -> (r: Option<ParsedUrl>)
        ensures
            r is Some <==> url_parses(s@),
            r matches Some(u) ==> u.is_parse_of(s@),
    {
        parse_url(s)
    }

    pub fn as_str(&self) -> (r: &str)
        ensures
            r@ == self.href@,
    {
        self.href.as_str()
    }

    pub fn host_str(&self) -> (r: Option<String>)
        ensures
            opt_view(r) == opt_view(self.host),
    {
        match &self.host {
            Some(h) => Some(h.clone()),
            None => None,
        }
    }
}

/// Relies on `url::Url::parse`, `Url::as_str`, `Url::origin` with
/// `Origin::ascii_serialization`, and `Url::host_str`: each result depends on `s` alone.
#[verifier::external_body]
fn parse_url(s: &str) -> (r: Option<ParsedUrl>)
    ensures
        r is Some <==> url_parses(s@),
        r matches Some(u) ==> u.href@ == url_href(s@),
        r matches Some(u) ==> u.origin@ == url_origin(s@),
        r matches Some(u) ==> opt_view(u.host) == url_host(s@),
{
    match url::Url::parse(s) {
        Ok(u) => Some(
            ParsedUrl {
                href: u.as_str().to_string(),
                origin: u.origin().ascii_serialization(),
                host: u.host_str().map(|h| h.to_string()),
            },
        ),
        Err(_) => None,
    }
}

/// Relies on `url::Url::parse` of `base` and `Url::join`: the result depends on the two
/// texts alone.
#[verifier::external_body]
fn join_url(base: &str, input: &str) -> (r: Option<String>)
    ensures
        opt_view(r) == url_join(base@, input@),
{
    match url::Url::parse(base).and_then(|b| b.join(input)) {
        Ok(u) => Some(u.as_str().to_string()),
        Err(_) => None,
    }
}

/// Resolves `input` against `base`, giving the serialization of the result.
pub fn resolve(base: &ParsedUrl, input: &str) -> (r: Option<String>)
    ensures
        opt_view(r) == url_join(base.href@, input@),
{
    join_url(base.href.as_str(), input)
}

/// The text that `normalize_url` hands to the URL parser for a user-entered `input`:
/// trimmed, with `https://` prepended unless it already starts with `http://` or
/// `https://` in any letter case.
pub open spec fn normalized_source(input: Seq<char>) -> Seq<char> {
    let t = trimmed(input);
    if starts_with_folded(t, "http://"@) || starts_with_folded(t, "https://"@) {
        t
    } else {
        "https://"@ + t
    }
}

/// Canonicalizes a user-entered URL; `None` where it does not parse.
pub fn normalize_url(input: &str) -> (r: Option<ParsedUrl>)
    ensures
        r is Some <==> url_parses(normalized_source(input@)),
        r matches Some(u) ==> u.is_parse_of(normalized_source(input@)),
{
    let t = trim(input);
    let source = if starts_with_ignoring_case(t.as_str(), "http://") || starts_with_ignoring_case(
        t.as_str(),
        "https://",
    ) {
        t
    } else {
        String::from_str("https://").concat(t.as_str())
    };
    parse_url(source.as_str())
}

/// The URL that an origin typed into the permissions window names: the trimmed text
/// parsed as it is, or with `https://` in front where that fails.
pub open spec fn origin_input_source(input: Seq<char>) -> Seq<char> {
    let t = trimmed(input);
    if url_parses(t) {
        t
    } else {
        "https://"@ + t
    }
}

/// Parses an origin typed into the permissions window; `None` where neither form parses.
pub fn parse_origin_input(input: &str) -> (r: Option<ParsedUrl>)
    ensures
        r is Some <==> url_parses(origin_input_source(input@)),
        r matches Some(u) ==> u.is_parse_of(origin_input_source(input@)),
{
    let t = trim(input);
    match parse_url(t.as_str()) {
        Some(u) => Some(u),
        None => {
            let prefixed = String::from_str("https://").concat(t.as_str());
            parse_url(prefixed.as_str())
        },
    }
}

/// The canonical primary origin of a URL, used for storage and comparison.
pub fn origin_for(url: &ParsedUrl) -> (r: String)
    ensures
        r@ == url.origin@,
{
    url.origin.clone()
}

} // verus!
