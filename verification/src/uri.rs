use vstd::prelude::*;
use crate::text::{ascii_lower, ascii_lowercase_char, eq_ignore_ascii_case, chars_of, str_eq};

verus! {

/// What `url::Url::parse` makes of a text: its scheme, its host (`host_str`) and its
/// port or the scheme's default port (`port_or_known_default`); `None` when it rejects it.
pub uninterp spec fn url_parse(text: Seq<char>) -> Option<(Seq<char>, Option<Seq<char>>, Option<u16>)>;

/// The parts of an absolute URL that origin checks read.
#[derive(Debug)]
pub struct UrlParts {
    pub scheme: String,
    pub host: Option<String>,
    pub port: Option<u16>,
}

/// The view of parsed URL parts.
pub open spec fn parts_view(parts: UrlParts) -> (Seq<char>, Option<Seq<char>>, Option<u16>) {
    (parts.scheme@, match parts.host {
        Some(h) => Some(h@),
        None => None,
    }, parts.port)
}

/// Parses a URL with `url::Url::parse` and reads its scheme, host and port. The contract
/// claims only that the parts are those the `url` crate gives.
#[verifier::external_body]
pub(crate) fn parse_url(text: &str) -> (parts: Option<UrlParts>)
    ensures
        parts is None <==> url_parse(text@) is None,
        parts matches Some(p) ==> url_parse(text@) == Some(parts_view(p)),
{
    match url::Url::parse(text) {
        Ok(url) => Some(UrlParts {
            scheme: url.scheme().to_owned(),
            host: url.host_str().map(str::to_owned),
            port: url.port_or_known_default(),
        }),
        Err(_) => None,
    }
}

/// Whether a text is an absolute `http` or `https` URL with a host.
pub open spec fn is_http_url_with_host(text: Seq<char>) -> bool {
    url_parse(text) matches Some((scheme, host, _))
        && (scheme == "http"@ || scheme == "https"@) && host is Some
}

/// Whether a text parses as an `http` or `https` URL with a host.
pub fn http_url_with_host(text: &str) -> (r: bool)
    ensures
        r == is_http_url_with_host(text@),
{
    match parse_url(text) {
        Some(parts) => (str_eq(parts.scheme.as_str(), "http") || str_eq(parts.scheme.as_str(), "https"))
            && parts.host.is_some(),
        None => false,
    }
}

/// Whether two texts are equal up to ASCII case.
pub fn equal_ignoring_ascii_case(a: &str, b: &str) -> (r: bool)
    ensures
        r == eq_ignore_ascii_case(a@, b@),
{
    let x = chars_of(a);
    let y = chars_of(b);
    if x.len() != y.len() {
        return false;
    }
    let mut i: usize = 0;
    while i < x.len()
        invariant
            x@ == a@,
            y@ == b@,
            x@.len() == y@.len(),
            i <= x@.len(),
            forall|j: int| 0 <= j < i ==> ascii_lower(#[trigger] x@[j]) == ascii_lower(y@[j]),
        decreases x@.len() - i,
    {
        if ascii_lowercase_char(x[i]) != ascii_lowercase_char(y[i]) {
            return false;
        }
        i = i + 1;
    }
    true
}

/// Whether two URLs have the same origin: scheme and host equal up to ASCII case, both
/// hosts present, and equal effective ports.
pub open spec fn same_origin(left: Seq<char>, right: Seq<char>) -> bool {
    url_parse(left) matches Some((ls, lh, lp)) && url_parse(right) matches Some((rs, rh, rp))
        && eq_ignore_ascii_case(ls, rs) && lh is Some && rh is Some
        && eq_ignore_ascii_case(lh->0, rh->0) && lp == rp
}

/// Whether two URLs parse and share their origin.
pub fn same_url_origin(left: &str, right: &str) -> (r: bool)
    ensures
        r == same_origin(left@, right@),
{
    let l = match parse_url(left) {
        Some(p) => p,
        None => {
            return false;
        },
    };
    let r = match parse_url(right) {
        Some(p) => p,
        None => {
            return false;
        },
    };
    if !equal_ignoring_ascii_case(l.scheme.as_str(), r.scheme.as_str()) {
        return false;
    }
    let hosts_match = match (&l.host, &r.host) {
        (Some(lh), Some(rh)) => equal_ignoring_ascii_case(lh.as_str(), rh.as_str()),
        _ => false,
    };
    hosts_match && l.port == r.port
}

} // verus!
