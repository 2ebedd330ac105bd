//! The caller-facing surface: a request builder and a response wrapper.
use vstd::prelude::*;
use vstd::utf8::{decode_utf8, encode_utf8, valid_utf8};

use crate::bridge::{copy_bytes, lemma_bytes_deep_view, HeaderPairs};
use crate::driver::{send, sent, Action, ErrorKind, Exchange, SendError};
use crate::model::{Request, Response, Uri, Version};

verus! {

/// Relies on String::from_utf8: it succeeds exactly on well-formed UTF-8 and
/// then holds the characters those bytes encode.
#[verifier::external_body]
fn string_from_utf8(b: Vec<u8>) -> (r: Option<String>)
    ensures
        r is Some <==> valid_utf8(b@),
        r is Some ==> r->0@ == decode_utf8(b@),
{
    String::from_utf8(b).ok()
}

/// The name http's `HeaderName` makes of the bytes `k` (lower-cased), or
/// `None` where it refuses them.
pub uninterp spec fn header_name_of(k: Seq<u8>) -> Option<Seq<char>>;

/// Whether http's `HeaderValue` accepts the bytes `v`.
pub uninterp spec fn header_value_ok(v: Seq<u8>) -> bool;

/// Relies on http::HeaderName::from_bytes and HeaderName::as_str: the
/// normalised name, or `None` where the bytes are not a header name.
#[verifier::external_body]
fn header_name(k: &[u8]) -> (r: Option<String>)
    ensures
        r is None <==> header_name_of(k@) is None,
        r matches Some(n) ==> header_name_of(k@) == Some(n@),
{
    http::HeaderName::from_bytes(k).ok().map(|n| n.as_str().to_string())
}

/// Relies on http::HeaderValue::from_bytes: whether the bytes are accepted as
/// a header value.
#[verifier::external_body]
fn header_value_valid(v: &[u8]) -> (r: bool)
    ensures
        r == header_value_ok(v@),
{
    http::HeaderValue::from_bytes(v).is_ok()
}

/// A response whose body has been read in full.
#[derive(Debug)]
pub struct ByteResponse(pub Response);

impl From<Response> for ByteResponse {
    fn from(response: Response) -> (r: ByteResponse) {
        ByteResponse(response)
    }
}

impl vstd::std_specs::convert::FromSpecImpl<Response> for ByteResponse {
    open spec fn obeys_from_spec() -> bool {
        true
    }

    open spec fn from_spec(v: Response) -> ByteResponse {
        ByteResponse(v)
    }
}

impl ByteResponse {
    /// The body as text; `None` where it is not UTF-8.
    pub fn text(self) -> (r: Option<String>)
        ensures
            r is Some <==> valid_utf8(self.0.body@),
            r is Some ==> r->0@ == decode_utf8(self.0.body@),
    {
        string_from_utf8(self.0.body)
    }

    /// The body bytes.
    pub fn bytes(self) -> (r: Vec<u8>)
        ensures
            r == self.0.body,
    {
        self.0.body
    }

    /// The body bytes, borrowed.
    pub fn as_slice(&self) -> (r: &[u8])
        ensures
            r@ == self.0.body@,
    {
        self.0.body.as_slice()
    }

    /// The response itself.
    pub fn into_inner(self) -> (r: Response)
        ensures
            r == self.0,
    {
        self.0
    }
}

/// Builds a request around a body: headers, version, then the method and URI
/// at the point of sending. A header whose name or value is refused marks the
/// builder malformed, and sending it then fails before any host call. Typed
/// request extensions are not carried: the host request never reads them.
#[derive(Debug)]
pub struct BodyBuilder {
    pub body: Vec<u8>,
    pub version: Version,
    pub headers: Vec<(String, Vec<u8>)>,
    pub malformed: bool,
}

/// A header pair in the generic model's view.
pub open spec fn pair(k: Seq<char>, v: Seq<u8>) -> (Seq<char>, Seq<u8>) {
    (k, v)
}

/// Whether the header `key: value` is refused.
pub open spec fn header_refused(key: Seq<u8>, value: Seq<u8>) -> bool {
    header_name_of(key) is None || !header_value_ok(value)
}

/// The header pairs `hs` after adding `key: value`: the pair under its
/// normalised name, or nothing where the header is refused.
pub open spec fn with_header(hs: HeaderPairs, key: Seq<u8>, value: Seq<u8>) -> HeaderPairs {
    if header_refused(key, value) {
        hs
    } else {
        hs.push(pair(header_name_of(key)->0, value))
    }
}

/// The request that a builder sends with method `m` to `uri`.
pub open spec fn built(b: BodyBuilder, m: Seq<char>, uri: Uri, r: Request) -> bool {
    r.method@ == m && r.uri == uri && r.version == b.version && r.headers == b.headers && r.body
        == b.body
}

/// What sending builder `b` with method `m` to `uri` gives: an error before
/// any host call where `b` is malformed, else the started exchange.
pub open spec fn sent_from(
    b: BodyBuilder,
    m: Seq<char>,
    uri: Uri,
    r: Result<(Exchange, Action), SendError>,
) -> bool {
    &&& (r is Ok <==> !b.malformed)
    &&& r is Ok ==> exists|req: Request| built(b, m, uri, req) && sent(req, r->Ok_0)
    &&& r is Err ==> r->Err_0.kind == ErrorKind::MalformedHeader && r->Err_0.detail@ == Seq::<
        char,
    >::empty()
}

impl BodyBuilder {
    /// A builder with an empty body, no headers and HTTP/1.1.
    pub fn empty() -> (r: Self)
        ensures
            r.body@ == Seq::<u8>::empty(),
            r.headers@ == Seq::<(String, Vec<u8>)>::empty(),
            r.version == Version::Http11,
            !r.malformed,
    {
        BodyBuilder { body: Vec::new(), version: Version::Http11, headers: Vec::new(), malformed: false }
    }

    /// The body.
    pub fn body(self) -> (r: Vec<u8>)
        ensures
            r == self.body,
    {
        self.body
    }

    /// The body, borrowed.
    pub fn body_ref(&self) -> (r: &Vec<u8>)
        ensures
            *r == self.body,
    {
        &self.body
    }

    /// Sets the protocol version.
    pub fn version(self, version: Version) -> (r: Self)
        ensures
            r.version == version,
            r.body == self.body,
            r.headers == self.headers,
            r.malformed == self.malformed,
    {
        BodyBuilder { version, ..self }
    }

    /// Appends a header pair under the name's normalised (lower-case) form;
    /// earlier values of the same name are kept. A refused name or value
    /// adds nothing and marks the builder malformed.
    pub fn header(self, key: &str, value: &[u8]) -> (r: Self)
        ensures
            r.headers.deep_view() == with_header(
                self.headers.deep_view(),
                encode_utf8(key@),
                value@,
            ),
            r.malformed == (self.malformed || header_refused(encode_utf8(key@), value@)),
            r.body == self.body,
            r.version == self.version,
    {
        let name = header_name(key.as_bytes());
        let accepted = header_value_valid(value);
        match name {
            Some(n) => if accepted {
                let mut headers = self.headers;
                let ghost before = headers.deep_view();
                let v = copy_bytes(value);
                proof {
                    lemma_bytes_deep_view(v);
                }
                let ghost nv = n@;
                headers.push((n, v));
                assert(headers.deep_view() =~= before.push(pair(nv, value@)));
                BodyBuilder { body: self.body, version: self.version, headers, malformed: self.malformed }
            } else {
                BodyBuilder { malformed: true, ..self }
            },
            None => BodyBuilder { malformed: true, ..self },
        }
    }

    /// Sets the `authorization` header to `token`.
    pub fn auth(self, token: &[u8]) -> (r: Self)
        ensures
            r.headers.deep_view() == with_header(
                self.headers.deep_view(),
                encode_utf8("authorization"@),
                token@,
            ),
            r.malformed == (self.malformed || header_refused(encode_utf8("authorization"@), token@)),
            r.body == self.body,
            r.version == self.version,
    {
        self.header("authorization", token)
    }

    /// Sets `authorization: Bearer <token>`.
    pub fn bearer(self, token: &str) -> (r: Self)
        ensures
            r.headers.deep_view() == with_header(
                self.headers.deep_view(),
                encode_utf8("authorization"@),
                encode_utf8("Bearer "@) + encode_utf8(token@),
            ),
            r.malformed == (self.malformed || header_refused(
                encode_utf8("authorization"@),
                encode_utf8("Bearer "@) + encode_utf8(token@),
            )),
            r.body == self.body,
            r.version == self.version,
    {
        let prefix = "Bearer ".as_bytes();
        let rest = token.as_bytes();
        let mut value = copy_bytes(prefix);
        let mut tail = copy_bytes(rest);
        value.append(&mut tail);
        self.auth(value.as_slice())
    }

    fn into_request(self, method: &str, uri: Uri) -> (r: Request)
        ensures
            built(self, method@, uri, r),
    {
        Request {
            method: method.to_owned(),
            uri,
            version: self.version,
            headers: self.headers,
            body: self.body,
        }
    }

    fn send_with(self, method: &str, uri: Uri) -> (r: Result<(Exchange, Action), SendError>)
        ensures
            sent_from(self, method@, uri, r),
    {
        if self.malformed {
            return Err(SendError { kind: ErrorKind::MalformedHeader, detail: String::new() });
        }
        let ghost b = self;
        let req = self.into_request(method, uri);
        let ghost g = req;
        let x = send(req);
        assert(built(b, method@, uri, g) && sent(g, x));
        let r: Result<(Exchange, Action), SendError> = Ok(x);
        assert(r->Ok_0 == x);
        assert(r is Ok ==> exists|req: Request| built(b, method@, uri, req) && sent(req, r->Ok_0));
        assert(sent_from(b, method@, uri, r));
        r
    }

    /// Starts a `POST` exchange of this body to `uri`, or fails before any
    /// host call where a header was refused.
    pub fn post(self, uri: Uri) -> (r: Result<(Exchange, Action), SendError>)
        ensures
            sent_from(self, "POST"@, uri, r),
    {
        self.send_with("POST", uri)
    }

    /// Starts a `GET` exchange of this body to `uri`, or fails before any
    /// host call where a header was refused.
    pub fn get(self, uri: Uri) -> (r: Result<(Exchange, Action), SendError>)
        ensures
            sent_from(self, "GET"@, uri, r),
    {
        self.send_with("GET", uri)
    }
}

/// Starts a `GET` exchange with an empty body and no headers.
pub fn get(uri: Uri) -> (r: Result<(Exchange, Action), SendError>)
    ensures
        match r {
            Ok(x) => exists|req: Request|
                req.method@ == "GET"@ && req.uri == uri && req.version == Version::Http11
                    && req.headers@.len() == 0 && req.body@.len() == 0 && sent(req, x),
            Err(_) => false,
        },
{
    BodyBuilder::empty().get(uri)
}

/// A builder for a JSON body: `content-type: application/json` is set.
pub fn json(body: Vec<u8>) -> (r: BodyBuilder)
    ensures
        r.body == body,
        r.version == Version::Http11,
        r.headers.deep_view() == with_header(
            Seq::empty(),
            encode_utf8("content-type"@),
            encode_utf8("application/json"@),
        ),
        r.malformed == header_refused(encode_utf8("content-type"@), encode_utf8("application/json"@)),
{
    let b = BodyBuilder { body, version: Version::Http11, headers: Vec::new(), malformed: false };
    proof {
        assert(b.headers.deep_view() =~= Seq::empty());
    }
    b.header("content-type", "application/json".as_bytes())
}

} // verus!
