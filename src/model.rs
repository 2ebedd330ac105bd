//! The request and response values the library works on, and the host's
//! method and scheme vocabulary.
use vstd::prelude::*;

verus! {

/// The host's method vocabulary; any token outside the nine standard ones is
/// carried verbatim.
#[derive(Debug, PartialEq, Eq)]
pub enum HostMethod {
    Options,
    Get,
    Post,
    Put,
    Delete,
    Head,
    Trace,
    Connect,
    Patch,
    Other(String),
}

/// The host's scheme vocabulary.
#[derive(Debug, Clone, Copy, PartialEq, Eq, Structural)]
pub enum HostScheme {
    Http,
    Https,
}

/// HTTP protocol version of a request or response.
#[derive(Debug, Clone, Copy, PartialEq, Eq, Structural)]
pub enum Version {
    Http09,
    Http10,
    Http11,
    Http2,
    Http3,
}

/// The parts of a URI that the host is given.
#[derive(Debug)]
pub struct Uri {
    pub scheme: Option<String>,
    pub authority: Option<String>,
    pub path_query: Option<String>,
}

/// The scheme, authority and path-with-query that http's URI parser reads
/// from a string, or `None` where it rejects the string.
pub uninterp spec fn parsed_uri(s: Seq<char>) -> Option<
    (Option<Seq<char>>, Option<Seq<char>>, Option<Seq<char>>),
>;

/// The parts of `u` in the model's view.
pub open spec fn uri_parts(u: Uri) -> (Option<Seq<char>>, Option<Seq<char>>, Option<Seq<char>>) {
    (u.scheme.deep_view(), u.authority.deep_view(), u.path_query.deep_view())
}

/// Relies on http's `Uri` parser (`FromStr`) and its `scheme_str`,
/// `authority` and `path_and_query` accessors: the parts depend on the string
/// alone.
#[verifier::external_body]
fn parse_with_http(s: &str) -> (r: Option<Uri>)
    ensures
        r is None <==> parsed_uri(s@) is None,
        r matches Some(u) ==> parsed_uri(s@) == Some(uri_parts(u)),
{
    let u: http::Uri = s.parse().ok()?;
    Some(Uri {
        scheme: u.scheme_str().map(|x| x.to_string()),
        authority: u.authority().map(|a| a.as_str().to_string()),
        path_query: u.path_and_query().map(|p| p.as_str().to_string()),
    })
}

impl Uri {
    /// Parses a URI string into the parts the host is given; `None` where the
    /// string is not a URI.
    pub fn parse(s: &str) -> (r: Option<Uri>)
        ensures
            r is None <==> parsed_uri(s@) is None,
            r matches Some(u) ==> parsed_uri(s@) == Some(uri_parts(u)),
    {
        parse_with_http(s)
    }
}

/// A request: method token, URI, version, ordered header pairs and body.
#[derive(Debug)]
pub struct Request {
    pub method: String,
    pub uri: Uri,
    pub version: Version,
    pub headers: Vec<(String, Vec<u8>)>,
    pub body: Vec<u8>,
}

/// A response: status, version, header entries as the host grouped them, and
/// the body bytes.
#[derive(Debug)]
pub struct Response {
    pub status: u16,
    pub version: Version,
    pub headers: Vec<(String, Vec<Vec<u8>>)>,
    pub body: Vec<u8>,
}

} // verus!
