//! The endpoint's URL.

use vstd::prelude::*;

verus! {

/// The scheme that the `url` crate finds in a string: `Some` of the scheme of
/// `url::Url::parse(end_point)` where that parse succeeds, `None` where it
/// fails.
pub uninterp spec fn url_scheme(end_point: Seq<char>) -> Option<Seq<char>>;

/// The view of an optional string.
pub open spec fn text_of(s: Option<String>) -> Option<Seq<char>> {
    match s {
        Some(s) => Some(s@),
        None => None,
    }
}

/// Parses `end_point` with `url::Url::parse` and reads the scheme of the
/// result with `url::Url::scheme`.
///
/// Trusted: the parser is a function of its input alone, so its answer is
/// given the name [`url_scheme`]; nothing else is claimed of it.
#[verifier::external_body]
pub(crate) fn parsed_scheme(end_point: &str) -> (scheme: Option<String>)
    ensures
        text_of(scheme) == url_scheme(end_point@),
{
    match url::Url::parse(end_point) {
        Ok(url) => Some(url.scheme().to_string()),
        Err(_) => None,
    }
}

/// Whether a parsed endpoint may be used for sending over HTTP: it has to be
/// an absolute URL with the scheme `http` or `https`.
pub open spec fn is_http_scheme(scheme: Option<Seq<char>>) -> bool {
    scheme == Some("http"@) || scheme == Some("https"@)
}

/// Decides [`is_http_scheme`].
pub fn accepts_scheme(scheme: &Option<String>) -> (accepted: bool)
    ensures
        accepted == is_http_scheme(text_of(*scheme)),
{
    match scheme {
        Some(scheme) => *scheme == "http".to_owned() || *scheme == "https".to_owned(),
        None => false,
    }
}

} // verus!
