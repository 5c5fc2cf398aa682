//! The parts of a URL that the configuration rules and the header read.
use vstd::prelude::*;
use vstd::string::*;

use crate::text::{decimal, decimal_of};

verus! {

/// What the rest of the crate reads of a parsed URL.
#[derive(Debug, Clone)]
pub struct UrlParts {
    pub scheme: String,
    pub host: Option<String>,
    /// The port, unless it is the default one of the scheme.
    pub port: Option<u16>,
}

/// Mathematical model of [`UrlParts`].
pub struct UrlPartsView {
    pub scheme: Seq<char>,
    pub host: Option<Seq<char>>,
    pub port: Option<u16>,
}

/// A parsed URL, or the text of the parser's complaint.
pub type ParsedUrl = Result<UrlPartsView, Seq<char>>;

impl View for UrlParts {
    type V = UrlPartsView;

    open spec fn view(&self) -> UrlPartsView {
        UrlPartsView {
            scheme: self.scheme@,
            host: match self.host {
                Some(h) => Some(h@),
                None => None,
            },
            port: self.port,
        }
    }
}

/// The model of a parse result.
pub open spec fn parsed_view(r: Result<UrlParts, String>) -> ParsedUrl {
    match r {
        Ok(p) => Ok(p@),
        Err(e) => Err(e@),
    }
}

/// What `url::Url::parse` makes of a string: scheme, host and explicit port of the URL,
/// or the message of the `url::ParseError`.
pub uninterp spec fn url_parts(s: Seq<char>) -> Result<UrlPartsView, Seq<char>>;

/// Parses an absolute URL with `url::Url::parse` and copies out `Url::scheme`,
/// `Url::host_str` and `Url::port`, or the display text of the `url::ParseError`.
/// All of them depend on the string alone.
#[verifier::external_body]
pub(crate) fn parse_url(s: &str) -> (r: Result<UrlParts, String>)
    ensures
        parsed_view(r) == url_parts(s@),
{
    match url::Url::parse(s) {
        Ok(u) => Ok(UrlParts {
            scheme: u.scheme().to_string(),
            host: u.host_str().map(|h| h.to_string()),
            port: u.port(),
        }),
        Err(e) => Err(e.to_string()),
    }
}

/// `host`, `host:port`, or the whole string when it is not a URL with a host.
pub open spec fn host_text(parsed: ParsedUrl, url: Seq<char>) -> Seq<char> {
    match parsed {
        Ok(p) => match (p.host, p.port) {
            (Some(host), Some(port)) => host + seq![':'] + decimal(port as nat),
            (Some(host), None) => host,
            (None, _) => url,
        },
        Err(_) => url,
    }
}

/// The host to show for a parsed URL; falls back to `url` itself.
pub fn host_from(parsed: Result<UrlParts, String>, url: &str) -> (r: String)
    ensures
        r@ == host_text(parsed_view(parsed), url@),
{
    match parsed {
        Ok(UrlParts { scheme: _, host: Some(host), port: Some(port) }) => {
            let mut r = host;
            r.push(':');
            r.append(decimal_of(port as u64).as_str());
            assert(r@ =~= host@ + seq![':'] + decimal(port as nat));
            r
        },
        Ok(UrlParts { scheme: _, host: Some(host), port: None }) => host,
        _ => url.to_owned(),
    }
}

/// The host part of `url`, with its port when it is not the scheme's default.
pub fn host_of(url: &str) -> (r: String)
    ensures
        r@ == host_text(url_parts(url@), url@),
{
    host_from(parse_url(url), url)
}

} // verus!
