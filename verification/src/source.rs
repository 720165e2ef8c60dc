//! Link sources. A source is deduplicated by its site, the pair of scheme
//! and host of its address; what follows the host names the resource on
//! that site.

use vstd::prelude::*;

verus! {

/// An address taken apart.
#[derive(Clone, Debug, PartialEq, Eq)]
pub struct Location {
    pub scheme: String,
    pub host: Option<String>,
    /// The address from the start of its path to its end.
    pub resource: String,
}

/// A location as plain text.
pub struct LocationView {
    pub scheme: Seq<char>,
    pub host: Option<Seq<char>>,
    pub resource: Seq<char>,
}

impl View for Location {
    type V = LocationView;

    open spec fn view(&self) -> LocationView {
        LocationView {
            scheme: self.scheme@,
            host: match self.host {
                Some(host) => Some(host@),
                None => None,
            },
            resource: self.resource@,
        }
    }
}

/// The parts of the address `text` as the URL parser finds them: the
/// scheme, the host if there is one, and the rest from the path on, each
/// given as the list of its characters. `None` if `text` is no absolute
/// URL.
pub uninterp spec fn url_location(text: Seq<char>) -> Option<
    (Seq<char>, Option<Seq<char>>, Seq<char>),
>;

/// The location that the parser's answer for some text describes.
pub open spec fn parsed(location: Option<Location>) -> Option<
    (Seq<char>, Option<Seq<char>>, Seq<char>),
> {
    match location {
        Some(location) => Some((location@.scheme, location@.host, location@.resource)),
        None => None,
    }
}

/// Calls `url::Url::parse` and, on the URL it returns, `scheme`, `host_str`
/// and the slice from `Position::BeforePath`. The parser reads nothing but
/// its input, so the result is a function of `text`.
#[verifier::external_body]
pub(crate) fn locate(text: &str) -> (r: Option<Location>)
    ensures
        parsed(r) == url_location(text@),
{
    match url::Url::parse(text) {
        Ok(url) => Some(
            Location {
                scheme: url.scheme().to_string(),
                host: url.host_str().map(String::from),
                resource: url[url::Position::BeforePath..].to_string(),
            },
        ),
        Err(_) => None,
    }
}

} // verus!
