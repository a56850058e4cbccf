//! Upstream URLs. Parsing a URL and replacing its path is the work of the
//! `url` crate; this file names what it computes and holds the result as plain
//! values.

use reqwest::Url;
use vstd::prelude::*;
use vstd::utf8::encode_utf8;

verus! {

/// The longest text, in bytes, that is handed to the URL parser: a target or a
/// path beyond it is refused before any parsing. The parser keeps positions in
/// 32 bits; texts this short stay far below that, however they are encoded.
pub const MAX_URL_TEXT: usize = 0x100_0000;

/// Scheme, host and port of a URL, as plain values.
pub type Origin = (Seq<char>, Option<Seq<char>>, Option<u16>);

/// The length of `text` in bytes, as UTF-8.
pub open spec fn byte_len(text: Seq<char>) -> nat {
    encode_utf8(text).len()
}

/// Whether `text` is short enough to be handed to the URL parser.
pub open spec fn fits_url(text: Seq<char>) -> bool {
    byte_len(text) <= MAX_URL_TEXT
}

/// Whether `text` parses as an absolute URL.
pub open spec fn is_absolute_url(text: Seq<char>) -> bool {
    url_origin(text) is Some
}

/// A URL as the proxy reads it: its serialisation, its scheme, the host it
/// names, if any, and its port where one is written that is not the scheme's
/// own.
#[derive(Debug, PartialEq, Eq)]
pub struct Location {
    pub href: String,
    pub scheme: String,
    pub host: Option<String>,
    pub port: Option<u16>,
}

impl Location {
    /// Scheme, host and port.
    pub open spec fn origin(&self) -> Origin {
        (
            self.scheme@,
            match self.host {
                Some(host) => Some(host@),
                None => None,
            },
            self.port,
        )
    }

    /// Says whether the URL names a host.
    pub fn has_host(&self) -> (r: bool)
        ensures
            r == self.host is Some,
    {
        self.host.is_some()
    }
}

/// Says whether `text` can be handed to the URL parser.
pub fn fits(text: &str) -> (r: bool)
    ensures
        r == fits_url(text@),
{
    text.as_bytes().len() <= MAX_URL_TEXT
}

/// Scheme, host and port of the URL that `text` parses to; `None` where it
/// does not parse as an absolute URL.
pub uninterp spec fn url_origin(text: Seq<char>) -> Option<Origin>;

/// The serialisation of the URL that `target` parses to, with `path` in place
/// of its own path; `None` where `target` does not parse.
pub uninterp spec fn url_with_path(target: Seq<char>, path: Seq<char>) -> Option<Seq<char>>;

/// `Url::parse`: whether the text parses as an absolute URL.
#[verifier::external_body]
pub(crate) fn url_is_valid(text: &str) -> (valid: bool)
    requires
        fits_url(text@),
    ensures
        valid == is_absolute_url(text@),
{
    Url::parse(text).is_ok()
}

/// `Url::set_path` on the URL that `target` parses to. The call cannot fail, so
/// there is a result exactly where `target` parses. It rewrites the path and
/// nothing before it: scheme, host and port of the result are the target's.
#[verifier::external_body]
pub(crate) fn replace_path(target: &str, path: &str) -> (replaced: Option<Location>)
    requires
        fits_url(target@),
        fits_url(path@),
    ensures
        match replaced {
            Some(location) => {
                &&& url_with_path(target@, path@) == Some(location.href@)
                &&& url_origin(target@) == Some(location.origin())
            },
            None => url_with_path(target@, path@) is None && url_origin(target@) is None,
        },
{
    match Url::parse(target) {
        Ok(mut url) => {
            url.set_path(path);
            Some(
                Location {
                    scheme: url.scheme().to_string(),
                    host: url.host_str().map(str::to_string),
                    port: url.port(),
                    href: String::from(url),
                },
            )
        },
        Err(_) => None,
    }
}

} // verus!
