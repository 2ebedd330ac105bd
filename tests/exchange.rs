use sdf_http::bridge::{check_status, headers_to_host, method_to_host, scheme_to_host};
use sdf_http::client::{get, json, BodyBuilder, ByteResponse};
use sdf_http::driver::{send, Action, ErrorKind, Event, SendError, CHUNK_SIZE};
use sdf_http::model::{HostMethod, HostScheme, Request, Response, Uri, Version};

fn uri(path: &str) -> Uri {
    Uri {
        scheme: Some("http".to_string()),
        authority: Some("localhost:3000".to_string()),
        path_query: Some(path.to_string()),
    }
}

/// A host that answers every call with success, then gives the scripted poll
/// and read answers in turn.
struct Host {
    polls: Vec<Event>,
    reads: Vec<Event>,
    fail_on: Option<(&'static str, Event)>,
    log: Vec<String>,
}

impl Host {
    fn new(polls: Vec<Event>, reads: Vec<Event>) -> Host {
        Host { polls, reads, fail_on: None, log: Vec::new() }
    }

    fn answer(&mut self, a: &Action) -> Event {
        let name = match a {
            Action::SetHeader(..) => "header",
            Action::SetMethod(_) => "method",
            Action::SetScheme(_) => "scheme",
            Action::SetAuthority(_) => "authority",
            Action::SetPathWithQuery(_) => "path",
            Action::OpenWriter => "writer",
            Action::Write(_) => "write",
            Action::Dispatch => "dispatch",
            Action::FinishBody => "finish",
            Action::Poll => "poll",
            Action::AwaitAndPoll => "await",
            Action::OpenBodyStream => "stream",
            Action::Read(_) => "read",
            Action::Finished(_) => "finished",
        };
        self.log.push(name.to_string());
        if let Some((n, _)) = &self.fail_on {
            if *n == name {
                return self.fail_on.take().unwrap().1;
            }
        }
        match a {
            Action::Poll | Action::AwaitAndPoll => self.polls.remove(0),
            Action::Read(_) => self.reads.remove(0),
            _ => Event::Done,
        }
    }
}

fn run(start: (sdf_http::driver::Exchange, Action), host: &mut Host) -> Result<Response, SendError> {
    let (mut ex, mut action) = start;
    loop {
        if let Action::Finished(r) = action {
            return r;
        }
        let e = host.answer(&action);
        action = ex.step(e);
    }
}

fn ready(status: u16) -> Event {
    Event::Ready(status, vec![("content-type".to_string(), vec![b"text/plain".to_vec()])])
}

fn request(method: &str, headers: Vec<(&str, &[u8])>) -> Request {
    Request {
        method: method.to_string(),
        uri: uri("/"),
        version: Version::Http11,
        headers: headers.into_iter().map(|(k, v)| (k.to_string(), v.to_vec())).collect(),
        body: Vec::new(),
    }
}

fn fails_with(kind: ErrorKind, step: &'static str, answer: Event) -> SendError {
    let mut host = Host::new(vec![ready(200)], vec![Event::Closed]);
    host.fail_on = Some((step, answer));
    let r = run(send(request("GET", vec![("a", b"1")])), &mut host);
    let e = r.unwrap_err();
    assert_eq!(e.kind, kind);
    e
}

#[test]
fn standard_methods_map_to_variants() {
    let cases = [
        ("OPTIONS", HostMethod::Options),
        ("GET", HostMethod::Get),
        ("POST", HostMethod::Post),
        ("PUT", HostMethod::Put),
        ("DELETE", HostMethod::Delete),
        ("HEAD", HostMethod::Head),
        ("TRACE", HostMethod::Trace),
        ("CONNECT", HostMethod::Connect),
        ("PATCH", HostMethod::Patch),
    ];
    for (t, m) in cases {
        assert_eq!(method_to_host(&t.to_string()), m);
    }
}

#[test]
fn other_methods_are_carried_verbatim() {
    assert_eq!(method_to_host(&"PROPFIND".to_string()), HostMethod::Other("PROPFIND".to_string()));
    assert_eq!(method_to_host(&"get".to_string()), HostMethod::Other("get".to_string()));
}

#[test]
fn https_in_any_case_is_secure() {
    for s in ["https", "HTTPS", "HtTpS"] {
        assert_eq!(scheme_to_host(&Some(s.to_string())), HostScheme::Https);
    }
    for s in ["http", "", "ftp", "httpss", "hppts"] {
        assert_eq!(scheme_to_host(&Some(s.to_string())), HostScheme::Http);
    }
    assert_eq!(scheme_to_host(&None), HostScheme::Http);
}

#[test]
fn headers_group_by_key_in_order() {
    let hs = request("GET", vec![("a", b"1"), ("b", b"2"), ("a", b"3")]).headers;
    let host = headers_to_host(&hs);
    assert_eq!(
        host,
        vec![
            ("a".to_string(), vec![b"1".to_vec(), b"3".to_vec()]),
            ("b".to_string(), vec![b"2".to_vec()]),
        ]
    );
}

#[test]
fn non_utf8_header_value_is_dropped() {
    let hs = request("GET", vec![("a", &[0xff, 0xfe]), ("b", b"ok"), ("a", b"kept")]).headers;
    let host = headers_to_host(&hs);
    assert_eq!(
        host,
        vec![
            ("a".to_string(), vec![b"kept".to_vec()]),
            ("b".to_string(), vec![b"ok".to_vec()]),
        ]
    );
}

#[test]
fn drain_skips_empty_reads() {
    let mut host = Host::new(
        vec![ready(200)],
        vec![
            Event::Chunk(vec![]),
            Event::Chunk(vec![]),
            Event::Chunk(b"bytes".to_vec()),
            Event::Chunk(vec![]),
            Event::Closed,
        ],
    );
    let r = run(send(request("GET", vec![])), &mut host).unwrap();
    assert_eq!(r.body, b"bytes".to_vec());
    assert_eq!(host.log.iter().filter(|n| *n == "read").count(), 5);
    assert!(host.reads.is_empty());
}

#[test]
fn read_asks_for_bounded_chunks() {
    let (mut ex, _) = send(request("GET", vec![]));
    let mut a = Action::Poll;
    for e in [Event::Done, Event::Done, Event::Done, Event::Done, Event::Done, Event::Done, Event::Done, Event::Done] {
        a = ex.step(e);
    }
    assert!(matches!(a, Action::Poll));
    assert!(matches!(ex.step(ready(200)), Action::OpenBodyStream));
    assert!(matches!(ex.step(Event::Done), Action::Read(n) if n == CHUNK_SIZE));
    assert_eq!(CHUNK_SIZE, 1024 * 1024);
}

#[test]
fn transport_failure_differs_from_dispatch_failure() {
    let mut host = Host::new(vec![Event::Pending, Event::TransportFailed("dns".to_string())], vec![]);
    let e = run(send(request("GET", vec![])), &mut host).unwrap_err();
    assert_eq!(e.kind, ErrorKind::Transport);
    assert_eq!(e.detail, "dns");
    assert!(host.log.contains(&"await".to_string()));

    let e = fails_with(ErrorKind::Dispatch, "dispatch", Event::Failed("rejected".to_string()));
    assert_eq!(e.detail, "rejected");
    assert_ne!(ErrorKind::Transport, ErrorKind::Dispatch);
}

#[test]
fn hello_alice() {
    let mut host = Host::new(vec![ready(200)], vec![Event::Chunk(b"hello-alice".to_vec()), Event::Closed]);
    let r = run(get(uri("/hello/alice")).unwrap(), &mut host).unwrap();
    assert_eq!(r.status, 200);
    assert_eq!(ByteResponse::from(r).text(), Some("hello-alice".to_string()));
}

#[test]
fn create_bob() {
    let mut host = Host::new(
        vec![Event::Pending, ready(200)],
        vec![Event::Chunk(br#"{"code":0,"message":"bob"}"#.to_vec()), Event::Closed],
    );
    let target = Uri::parse("http://localhost:3000/create").unwrap();
    let start = json(br#"{"name":"bob"}"#.to_vec()).bearer("123").post(target).unwrap();
    let ex = &start.0;
    assert_eq!(ex.path_query, Some("/create".to_string()));
    assert_eq!(
        ex.headers,
        vec![
            ("content-type".to_string(), vec![b"application/json".to_vec()]),
            ("authorization".to_string(), vec![b"Bearer 123".to_vec()]),
        ]
    );
    assert_eq!(ex.method, HostMethod::Post);
    assert_eq!(ex.body, br#"{"name":"bob"}"#.to_vec());
    let r = run(start, &mut host).unwrap();
    assert_eq!(r.status, 200);
    assert_eq!(ByteResponse::from(r).text(), Some(r#"{"code":0,"message":"bob"}"#.to_string()));
}

#[test]
fn wrong_token_is_relayed_as_401() {
    let mut host = Host::new(vec![ready(401)], vec![Event::Closed]);
    let start = json(br#"{"name":"bob"}"#.to_vec()).bearer("wrong").post(uri("/create")).unwrap();
    let r = run(start, &mut host).unwrap();
    assert_eq!(r.status, 401);
    assert!(r.body.is_empty());
}

#[test]
fn bodiless_response_has_empty_body() {
    let mut host = Host::new(vec![ready(204)], vec![]);
    host.fail_on = Some(("stream", Event::NoBody));
    let r = run(send(request("GET", vec![])), &mut host).unwrap();
    assert_eq!(r.status, 204);
    assert!(r.body.is_empty());
    assert_eq!(r.headers, vec![("content-type".to_string(), vec![b"text/plain".to_vec()])]);
}

#[test]
fn missing_body_stream_is_an_error() {
    fails_with(ErrorKind::BodyStreamUnavailable, "stream", Event::Failed(String::new()));
}

#[test]
fn each_error_kind_has_its_cause() {
    let e = fails_with(ErrorKind::InvalidHeader, "header", Event::Failed("forbidden".to_string()));
    assert_eq!(e.detail, "forbidden");
    fails_with(ErrorKind::InvalidMethod, "method", Event::Failed(String::new()));
    fails_with(ErrorKind::InvalidScheme, "scheme", Event::Failed(String::new()));
    fails_with(ErrorKind::InvalidAuthority, "authority", Event::Failed(String::new()));
    fails_with(ErrorKind::InvalidPathQuery, "path", Event::Failed(String::new()));
    fails_with(ErrorKind::BodyWriteUnavailable, "writer", Event::Failed(String::new()));
    let e = fails_with(ErrorKind::TransportWrite, "write", Event::Failed("io".to_string()));
    assert_eq!(e.detail, "io");
    let e = fails_with(ErrorKind::BodyFinish, "finish", Event::Failed("late".to_string()));
    assert_eq!(e.detail, "late");
    fails_with(ErrorKind::ResponseAlreadyTaken, "poll", Event::AlreadyTaken);
    fails_with(ErrorKind::InvalidStatus(1000), "poll", ready(1000));
    fails_with(ErrorKind::InvalidStatus(99), "poll", ready(99));
    let e = fails_with(ErrorKind::BodyRead, "read", Event::Failed("reset".to_string()));
    assert_eq!(e.detail, "reset");
}

#[test]
fn second_empty_poll_is_missing_response() {
    let mut host = Host::new(vec![Event::Pending, Event::Pending], vec![]);
    let e = run(send(request("GET", vec![])), &mut host).unwrap_err();
    assert_eq!(e.kind, ErrorKind::ResponseMissing);
}

#[test]
fn status_range_bounds() {
    assert!(!check_status(99));
    assert!(check_status(100));
    assert!(check_status(999));
    assert!(!check_status(1000));
}

#[test]
fn first_action_without_headers_sets_method() {
    let (ex, a) = send(request("PROPFIND", vec![]));
    assert!(matches!(a, Action::SetMethod(HostMethod::Other(ref s)) if s == "PROPFIND"));
    assert_eq!(ex.scheme, HostScheme::Http);
}

#[test]
fn text_rejects_invalid_utf8() {
    let r = ByteResponse(Response { status: 200, version: Version::Http11, headers: vec![], body: vec![0xc3, 0x28] });
    assert_eq!(r.text(), None);
    let r = ByteResponse(Response { status: 200, version: Version::Http11, headers: vec![], body: "héllo".as_bytes().to_vec() });
    assert_eq!(r.as_slice(), "héllo".as_bytes());
    assert_eq!(r.text(), Some("héllo".to_string()));
}

#[test]
fn builder_accessors() {
    let b = BodyBuilder::empty().version(Version::Http2).auth(b"token").header("x-a", b"1");
    assert_eq!(b.body_ref(), &Vec::<u8>::new());
    assert_eq!(b.version, Version::Http2);
    assert_eq!(
        b.headers,
        vec![("authorization".to_string(), b"token".to_vec()), ("x-a".to_string(), b"1".to_vec())]
    );
    assert!(b.body().is_empty());
    let r = ByteResponse(Response { status: 200, version: Version::Http11, headers: vec![], body: b"xy".to_vec() });
    assert_eq!(r.into_inner().status, 200);
    let r = ByteResponse(Response { status: 200, version: Version::Http11, headers: vec![], body: b"xy".to_vec() });
    assert_eq!(r.bytes(), b"xy".to_vec());
}

#[test]
fn header_names_differing_in_case_share_one_key() {
    let b = BodyBuilder::empty().header("X-A", b"1").header("x-a", b"2");
    assert!(!b.malformed);
    assert_eq!(
        headers_to_host(&b.headers),
        vec![("x-a".to_string(), vec![b"1".to_vec(), b"2".to_vec()])]
    );
    let j = json(b"{}".to_vec());
    assert!(!j.malformed);
    assert_eq!(j.headers, vec![("content-type".to_string(), b"application/json".to_vec())]);
}

#[test]
fn refused_header_name_fails_before_any_host_call() {
    for name in ["x y", "", "Ünï", "a:b"] {
        let b = BodyBuilder::empty().header(name, b"1").header("x-ok", b"2");
        assert!(b.malformed);
        assert_eq!(b.headers, vec![("x-ok".to_string(), b"2".to_vec())]);
        let e = b.post(uri("/")).unwrap_err();
        assert_eq!(e.kind, ErrorKind::MalformedHeader);
    }
}

#[test]
fn refused_header_value_fails_before_any_host_call() {
    let b = json(b"{}".to_vec()).auth(b"a\nb");
    assert!(b.malformed);
    let e = b.get(uri("/")).unwrap_err();
    assert_eq!(e.kind, ErrorKind::MalformedHeader);
    let b = BodyBuilder::empty().bearer("tok\r");
    assert!(b.get(uri("/")).is_err());
    // http accepts opaque bytes in a value; the host form drops them later.
    let b = BodyBuilder::empty().header("x-raw", &[0xfa]);
    assert!(!b.malformed);
    assert!(b.get(uri("/")).is_ok());
}

#[test]
fn uri_strings_are_parsed_into_parts() {
    let u = Uri::parse("https://example.org:8443/a/b?x=1").unwrap();
    assert_eq!(u.scheme, Some("https".to_string()));
    assert_eq!(u.authority, Some("example.org:8443".to_string()));
    assert_eq!(u.path_query, Some("/a/b?x=1".to_string()));
    let u = Uri::parse("/hello/alice").unwrap();
    assert_eq!(u.scheme, None);
    assert_eq!(u.authority, None);
    assert_eq!(u.path_query, Some("/hello/alice".to_string()));
    assert!(Uri::parse("http://exa mple.org/").is_none());
    assert!(Uri::parse("").is_none());
}
