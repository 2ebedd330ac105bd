//! One request/response exchange with the host transport, as a state machine.
//!
//! The driver never touches the host itself. Each step hands out the next
//! host call to make ([`Action`]) and takes back what the host answered
//! ([`Event`]). The caller performs the calls in order and feeds every answer
//! back until the driver hands out [`Action::Finished`].
use vstd::prelude::*;

use crate::bridge::{
    headers_to_host, host_headers, method_to_host, method_token, scheme_of, scheme_to_host,
    check_status, status_is_legal,
};
use crate::model::{HostMethod, HostScheme, Request, Response, Version};

verus! {

/// Most bytes asked of the body stream in one read.
pub const CHUNK_SIZE: usize = 1048576;

/// What went wrong during an exchange.
#[derive(Debug, Clone, Copy, PartialEq, Eq, Structural)]
pub enum ErrorKind {
    /// The host refused the method.
    InvalidMethod,
    /// The host refused the scheme.
    InvalidScheme,
    /// The host refused the authority.
    InvalidAuthority,
    /// The host refused the path and query.
    InvalidPathQuery,
    /// The host refused a header key or its values.
    InvalidHeader,
    /// A header name or value was refused while the request was built; no
    /// host call was made.
    MalformedHeader,
    /// The host answered with a status code outside the legal range.
    InvalidStatus(u16),
    /// The request's body sink could not be obtained.
    BodyWriteUnavailable,
    /// The response's body stream could not be obtained.
    BodyStreamUnavailable,
    /// Finishing the request body failed.
    BodyFinish,
    /// The host rejected the request at submission.
    Dispatch,
    /// The host's transport failed the exchange after submission.
    Transport,
    /// No response was ready after the completion notifier fired.
    ResponseMissing,
    /// The response had already been taken by an earlier poll.
    ResponseAlreadyTaken,
    /// Writing the request body failed.
    TransportWrite,
    /// Reading the response body failed.
    BodyRead,
}

/// An exchange failure: its kind and the host's own detail, if it gave one.
#[derive(Debug)]
pub struct SendError {
    pub kind: ErrorKind,
    pub detail: String,
}

/// The host's answer to the last [`Action`].
#[derive(Debug)]
pub enum Event {
    /// The call succeeded.
    Done,
    /// The call failed; the host's detail.
    Failed(String),
    /// A poll of the pending response found no result yet.
    Pending,
    /// A poll found the result already taken.
    AlreadyTaken,
    /// A poll found that the transport failed the exchange; the host's detail.
    TransportFailed(String),
    /// A poll found the response: its status and its header entries.
    Ready(u16, Vec<(String, Vec<Vec<u8>>)>),
    /// The response has no body: an empty body, not a failure.
    NoBody,
    /// A read returned these bytes; possibly none.
    Chunk(Vec<u8>),
    /// A read found the body stream closed.
    Closed,
}

/// The next host call to make.
#[derive(Debug)]
pub enum Action {
    /// Register a key with all its values on the request's header collection
    /// (created empty before the first of these).
    SetHeader(String, Vec<Vec<u8>>),
    /// Create the outgoing request from the header collection, then set its method.
    SetMethod(HostMethod),
    /// Set the request's scheme.
    SetScheme(HostScheme),
    /// Set the request's authority, or leave it unset.
    SetAuthority(Option<String>),
    /// Set the request's path and query, or leave them unset.
    SetPathWithQuery(Option<String>),
    /// Take the request's body and open its writer.
    OpenWriter,
    /// Write these bytes to the body writer in one call.
    Write(Vec<u8>),
    /// Release the body writer, then submit the request.
    Dispatch,
    /// Finish the request body, without trailers.
    FinishBody,
    /// Poll the pending response once, without blocking.
    Poll,
    /// Block on the pending response's notifier, then poll it again.
    AwaitAndPoll,
    /// Consume the response, open its body stream and subscribe to it once.
    OpenBodyStream,
    /// Block on the body stream's notifier, then read at most this many bytes.
    Read(usize),
    /// The exchange is over, with this outcome; release every host handle.
    Finished(Result<Response, SendError>),
}

/// The answer the driver is waiting for.
#[derive(Debug, Clone, Copy, PartialEq, Eq, Structural)]
pub enum Phase {
    Headers,
    Method,
    Scheme,
    Authority,
    PathQuery,
    OpenWriter,
    Write,
    Dispatch,
    Finish,
    Poll,
    Await,
    OpenStream,
    Read,
    Done,
}

/// The state of one exchange.
#[derive(Debug)]
pub struct Exchange {
    pub phase: Phase,
    /// Header entries in the host's form.
    pub headers: Vec<(String, Vec<Vec<u8>>)>,
    /// The header entry last handed out.
    pub next_header: usize,
    pub method: HostMethod,
    pub scheme: HostScheme,
    pub authority: Option<String>,
    pub path_query: Option<String>,
    /// The request body.
    pub body: Vec<u8>,
    pub status: u16,
    /// The response's header entries, as the host gave them.
    pub response_headers: Vec<(String, Vec<Vec<u8>>)>,
    /// The response body read so far.
    pub received: Vec<u8>,
}

/// The host's detail carried by an answer, empty where it carries none.
pub open spec fn detail_of(e: Event) -> Seq<char> {
    match e {
        Event::Failed(d) => d@,
        Event::TransportFailed(d) => d@,
        _ => Seq::empty(),
    }
}

/// `t` is `s` waiting for answer `p`, all else unchanged.
pub open spec fn moved_to(s: Exchange, t: Exchange, p: Phase) -> bool {
    t == (Exchange { phase: p, ..s })
}

/// The exchange ended in failure of kind `k` with detail `d`.
pub open spec fn fails(t: Exchange, a: Action, k: ErrorKind, d: Seq<char>) -> bool {
    t.phase == Phase::Done && match a {
        Action::Finished(Err(err)) => err.kind == k && err.detail@ == d,
        _ => false,
    }
}

/// The exchange ended with a response of `status`, `headers` and `body`.
pub open spec fn succeeds(
    t: Exchange,
    a: Action,
    status: u16,
    headers: Vec<(String, Vec<Vec<u8>>)>,
    body: Seq<u8>,
) -> bool {
    t.phase == Phase::Done && match a {
        Action::Finished(Ok(resp)) => resp.status == status && resp.version == Version::Http11
            && resp.headers == headers && resp.body@ == body,
        _ => false,
    }
}

/// `a` hands out header entry `e`.
pub open spec fn sets_header(a: Action, e: (String, Vec<Vec<u8>>)) -> bool {
    match a {
        Action::SetHeader(k, vs) => k == e.0 && vs.deep_view() == e.1.deep_view(),
        _ => false,
    }
}

/// `a` hands out the method `m`.
pub open spec fn sets_method(a: Action, m: HostMethod) -> bool {
    match a {
        Action::SetMethod(n) => method_token(n) == method_token(m) && (n is Other <==> m is Other),
        _ => false,
    }
}

/// `a` writes the bytes `b`.
pub open spec fn writes(a: Action, b: Seq<u8>) -> bool {
    match a {
        Action::Write(v) => v@ == b,
        _ => false,
    }
}

/// What one step does: from state `s` and answer `e`, the next state `t` and
/// the next call `a`.
pub open spec fn transition(s: Exchange, e: Event, t: Exchange, a: Action) -> bool {
    match s.phase {
        Phase::Headers => if e is Done {
            if s.next_header + 1 < s.headers.len() {
                t == (Exchange { next_header: (s.next_header + 1) as usize, ..s }) && sets_header(
                    a,
                    s.headers[s.next_header + 1],
                )
            } else {
                moved_to(s, t, Phase::Method) && sets_method(a, s.method)
            }
        } else {
            fails(t, a, ErrorKind::InvalidHeader, detail_of(e))
        },
        Phase::Method => if e is Done {
            moved_to(s, t, Phase::Scheme) && a == Action::SetScheme(s.scheme)
        } else {
            fails(t, a, ErrorKind::InvalidMethod, Seq::empty())
        },
        Phase::Scheme => if e is Done {
            moved_to(s, t, Phase::Authority) && match a {
                Action::SetAuthority(x) => x.deep_view() == s.authority.deep_view(),
                _ => false,
            }
        } else {
            fails(t, a, ErrorKind::InvalidScheme, Seq::empty())
        },
        Phase::Authority => if e is Done {
            moved_to(s, t, Phase::PathQuery) && match a {
                Action::SetPathWithQuery(x) => x.deep_view() == s.path_query.deep_view(),
                _ => false,
            }
        } else {
            fails(t, a, ErrorKind::InvalidAuthority, Seq::empty())
        },
        Phase::PathQuery => if e is Done {
            moved_to(s, t, Phase::OpenWriter) && a is OpenWriter
        } else {
            fails(t, a, ErrorKind::InvalidPathQuery, Seq::empty())
        },
        Phase::OpenWriter => if e is Done {
            moved_to(s, t, Phase::Write) && writes(a, s.body@)
        } else {
            fails(t, a, ErrorKind::BodyWriteUnavailable, Seq::empty())
        },
        Phase::Write => if e is Done {
            moved_to(s, t, Phase::Dispatch) && a is Dispatch
        } else {
            fails(t, a, ErrorKind::TransportWrite, detail_of(e))
        },
        Phase::Dispatch => if e is Done {
            moved_to(s, t, Phase::Finish) && a is FinishBody
        } else {
            fails(t, a, ErrorKind::Dispatch, detail_of(e))
        },
        Phase::Finish => if e is Done {
            moved_to(s, t, Phase::Poll) && a is Poll
        } else {
            fails(t, a, ErrorKind::BodyFinish, detail_of(e))
        },
        Phase::Poll | Phase::Await => match e {
            Event::Ready(status, headers) => if status_is_legal(status) {
                t == (Exchange {
                    phase: Phase::OpenStream,
                    status: status,
                    response_headers: headers,
                    ..s
                }) && a is OpenBodyStream
            } else {
                fails(t, a, ErrorKind::InvalidStatus(status), Seq::empty())
            },
            Event::Pending => if s.phase == Phase::Poll {
                moved_to(s, t, Phase::Await) && a is AwaitAndPoll
            } else {
                fails(t, a, ErrorKind::ResponseMissing, Seq::empty())
            },
            Event::AlreadyTaken => fails(t, a, ErrorKind::ResponseAlreadyTaken, Seq::empty()),
            Event::TransportFailed(d) => fails(t, a, ErrorKind::Transport, d@),
            _ => fails(t, a, ErrorKind::ResponseMissing, Seq::empty()),
        },
        Phase::OpenStream => match e {
            Event::Done => moved_to(s, t, Phase::Read) && a == Action::Read(CHUNK_SIZE),
            Event::NoBody => succeeds(t, a, s.status, s.response_headers, Seq::empty()),
            _ => fails(t, a, ErrorKind::BodyStreamUnavailable, Seq::empty()),
        },
        Phase::Read => match e {
            Event::Chunk(c) => t.phase == Phase::Read && t.received@ == s.received@ + c@
                && t.status == s.status && t.response_headers == s.response_headers && a
                == Action::Read(CHUNK_SIZE),
            Event::Closed => succeeds(t, a, s.status, s.response_headers, s.received@),
            _ => fails(t, a, ErrorKind::BodyRead, detail_of(e)),
        },
        Phase::Done => false,
    }
}

/// The host's detail carried by an answer.
pub fn detail(e: Event) -> (r: String)
    ensures
        r@ == detail_of(e),
{
    match e {
        Event::Failed(d) => d,
        Event::TransportFailed(d) => d,
        _ => String::new(),
    }
}

fn copy_method(m: &HostMethod) -> (r: HostMethod)
    ensures
        r == *m,
{
    match m {
        HostMethod::Options => HostMethod::Options,
        HostMethod::Get => HostMethod::Get,
        HostMethod::Post => HostMethod::Post,
        HostMethod::Put => HostMethod::Put,
        HostMethod::Delete => HostMethod::Delete,
        HostMethod::Head => HostMethod::Head,
        HostMethod::Trace => HostMethod::Trace,
        HostMethod::Connect => HostMethod::Connect,
        HostMethod::Patch => HostMethod::Patch,
        HostMethod::Other(s) => HostMethod::Other(s.clone()),
    }
}

fn copy_text(o: &Option<String>) -> (r: Option<String>)
    ensures
        r == *o,
{
    match o {
        Some(s) => Some(s.clone()),
        None => None,
    }
}

fn copy_values(v: &Vec<Vec<u8>>) -> (r: Vec<Vec<u8>>)
    ensures
        r.deep_view() == v.deep_view(),
{
    let mut r: Vec<Vec<u8>> = Vec::new();
    let mut i: usize = 0;
    while i < v.len()
        invariant
            i <= v.len(),
            r.deep_view() =~= v.deep_view().take(i as int),
        decreases v.len() - i,
    {
        let b = crate::bridge::copy_bytes(v[i].as_slice());
        proof {
            assert(b.deep_view() =~= b@);
            assert(v[i as int].deep_view() =~= v[i as int]@);
        }
        let ghost before = r.deep_view();
        r.push(b);
        assert(r.deep_view() =~= before.push(v.deep_view()[i as int]));
        i = i + 1;
        assert(r.deep_view() =~= v.deep_view().take(i as int));
    }
    r
}

impl Exchange {
    fn fail(&mut self, kind: ErrorKind, detail: String) -> (a: Action)
        ensures
            fails(*final(self), a, kind, detail@),
    {
        self.phase = Phase::Done;
        Action::Finished(Err(SendError { kind, detail }))
    }

    fn finish(&mut self) -> (a: Action)
        ensures
            succeeds(
                *final(self),
                a,
                old(self).status,
                old(self).response_headers,
                old(self).received@,
            ),
    {
        let mut headers: Vec<(String, Vec<Vec<u8>>)> = Vec::new();
        std::mem::swap(&mut headers, &mut self.response_headers);
        let mut body: Vec<u8> = Vec::new();
        std::mem::swap(&mut body, &mut self.received);
        self.phase = Phase::Done;
        Action::Finished(
            Ok(Response { status: self.status, version: Version::Http11, headers, body }),
        )
    }

    /// Takes the host's answer to the last action and hands out the next one.
    /// Every failure is final: the exchange ends with that error, never retried.
    pub fn step(&mut self, event: Event) -> (a: Action)
        requires
            old(self).phase != Phase::Done,
        ensures
            transition(*old(self), event, *final(self), a),
    {
        match self.phase {
            Phase::Headers => if matches!(event, Event::Done) {
                if self.next_header < self.headers.len() && self.headers.len() - self.next_header
                    > 1 {
                    self.next_header = self.next_header + 1;
                    let entry = &self.headers[self.next_header];
                    Action::SetHeader(entry.0.clone(), copy_values(&entry.1))
                } else {
                    self.phase = Phase::Method;
                    Action::SetMethod(copy_method(&self.method))
                }
            } else {
                self.fail(ErrorKind::InvalidHeader, detail(event))
            },
            Phase::Method => if matches!(event, Event::Done) {
                self.phase = Phase::Scheme;
                Action::SetScheme(self.scheme)
            } else {
                self.fail(ErrorKind::InvalidMethod, String::new())
            },
            Phase::Scheme => if matches!(event, Event::Done) {
                self.phase = Phase::Authority;
                Action::SetAuthority(copy_text(&self.authority))
            } else {
                self.fail(ErrorKind::InvalidScheme, String::new())
            },
            Phase::Authority => if matches!(event, Event::Done) {
                self.phase = Phase::PathQuery;
                Action::SetPathWithQuery(copy_text(&self.path_query))
            } else {
                self.fail(ErrorKind::InvalidAuthority, String::new())
            },
            Phase::PathQuery => if matches!(event, Event::Done) {
                self.phase = Phase::OpenWriter;
                Action::OpenWriter
            } else {
                self.fail(ErrorKind::InvalidPathQuery, String::new())
            },
            Phase::OpenWriter => if matches!(event, Event::Done) {
                self.phase = Phase::Write;
                Action::Write(crate::bridge::copy_bytes(self.body.as_slice()))
            } else {
                self.fail(ErrorKind::BodyWriteUnavailable, String::new())
            },
            Phase::Write => if matches!(event, Event::Done) {
                self.phase = Phase::Dispatch;
                Action::Dispatch
            } else {
                self.fail(ErrorKind::TransportWrite, detail(event))
            },
            Phase::Dispatch => if matches!(event, Event::Done) {
                self.phase = Phase::Finish;
                Action::FinishBody
            } else {
                self.fail(ErrorKind::Dispatch, detail(event))
            },
            Phase::Finish => if matches!(event, Event::Done) {
                self.phase = Phase::Poll;
                Action::Poll
            } else {
                self.fail(ErrorKind::BodyFinish, detail(event))
            },
            Phase::Poll | Phase::Await => match event {
                Event::Ready(status, headers) => if check_status(status) {
                    self.phase = Phase::OpenStream;
                    self.status = status;
                    self.response_headers = headers;
                    Action::OpenBodyStream
                } else {
                    self.fail(ErrorKind::InvalidStatus(status), String::new())
                },
                Event::Pending => if self.phase == Phase::Poll {
                    self.phase = Phase::Await;
                    Action::AwaitAndPoll
                } else {
                    self.fail(ErrorKind::ResponseMissing, String::new())
                },
                Event::AlreadyTaken => self.fail(ErrorKind::ResponseAlreadyTaken, String::new()),
                Event::TransportFailed(d) => self.fail(ErrorKind::Transport, d),
                _ => self.fail(ErrorKind::ResponseMissing, String::new()),
            },
            Phase::OpenStream => match event {
                Event::Done => {
                    self.phase = Phase::Read;
                    Action::Read(CHUNK_SIZE)
                },
                Event::NoBody => {
                    self.received = Vec::new();
                    self.finish()
                },
                _ => self.fail(ErrorKind::BodyStreamUnavailable, String::new()),
            },
            Phase::Read => match event {
                Event::Chunk(c) => {
                    let mut c = c;
                    self.received.append(&mut c);
                    Action::Read(CHUNK_SIZE)
                },
                Event::Closed => self.finish(),
                other => self.fail(ErrorKind::BodyRead, detail(other)),
            },
            Phase::Done => self.fail(ErrorKind::ResponseMissing, String::new()),
        }
    }
}

/// What starting an exchange for `request` gives: the request in the host's
/// form, and the first host call.
pub open spec fn sent(request: Request, r: (Exchange, Action)) -> bool {
    &&& r.0.headers.deep_view() == host_headers(request.headers.deep_view())
    &&& method_token(r.0.method) == request.method@
    &&& (r.0.method is Other <==> !crate::bridge::is_standard_method(request.method@))
    &&& r.0.scheme == scheme_of(request.uri.scheme.deep_view())
    &&& r.0.authority == request.uri.authority
    &&& r.0.path_query == request.uri.path_query
    &&& r.0.body == request.body
    &&& r.0.received@ == Seq::<u8>::empty()
    &&& r.0.headers.len() > 0 ==> r.0.phase == Phase::Headers && r.0.next_header == 0
        && sets_header(r.1, r.0.headers[0])
    &&& r.0.headers.len() == 0 ==> r.0.phase == Phase::Method && sets_method(r.1, r.0.method)
}

/// Starts the exchange for `request`: converts it to the host's form and
/// hands out the first host call.
pub fn send(request: Request) -> (r: (Exchange, Action))
    ensures
        sent(request, r),
{
    let headers = headers_to_host(&request.headers);
    let method = method_to_host(&request.method);
    let scheme = scheme_to_host(&request.uri.scheme);
    let first = if headers.len() > 0 {
        Action::SetHeader(headers[0].0.clone(), copy_values(&headers[0].1))
    } else {
        Action::SetMethod(copy_method(&method))
    };
    let phase = if headers.len() > 0 {
        Phase::Headers
    } else {
        Phase::Method
    };
    let ex = Exchange {
        phase,
        headers,
        next_header: 0,
        method,
        scheme,
        authority: request.uri.authority,
        path_query: request.uri.path_query,
        body: request.body,
        status: 0,
        response_headers: Vec::new(),
        received: Vec::new(),
    };
    (ex, first)
}

/// The bytes carried by a run of read answers, in order.
pub open spec fn chunk_bytes(es: Seq<Event>) -> Seq<u8>
    decreases es.len(),
{
    if es.len() == 0 {
        seq![]
    } else {
        chunk_bytes(es.drop_last()) + match es.last() {
            Event::Chunk(c) => c@,
            _ => seq![],
        }
    }
}

/// Draining accumulates: from a reading state, a run of chunk answers (empty
/// ones included) keeps the exchange reading and appends every chunk in
/// order; the closed answer that follows ends it with exactly those bytes as
/// the body.
pub proof fn lemma_drain(states: Seq<Exchange>, events: Seq<Event>, actions: Seq<Action>)
    requires
        states.len() == events.len() + 1,
        actions.len() == events.len(),
        states[0].phase == Phase::Read,
        forall|i: int| 0 <= i < events.len() ==> #[trigger] events[i] is Chunk,
        forall|i: int|
            0 <= i < events.len() ==> transition(
                #[trigger] states[i],
                events[i],
                states[i + 1],
                actions[i],
            ),
    ensures
        states.last().phase == Phase::Read,
        states.last().received@ == states[0].received@ + chunk_bytes(events),
        states.last().status == states[0].status,
        states.last().response_headers == states[0].response_headers,
        forall|t: Exchange, a: Action|
            transition(states.last(), Event::Closed, t, a) ==> succeeds(
                t,
                a,
                states[0].status,
                states[0].response_headers,
                states[0].received@ + chunk_bytes(events),
            ),
    decreases events.len(),
{
    if events.len() > 0 {
        let n = events.len() - 1;
        let ss = states.drop_last();
        let es = events.drop_last();
        let as_ = actions.drop_last();
        assert forall|i: int| 0 <= i < es.len() implies #[trigger] es[i] is Chunk by {
            assert(es[i] == events[i]);
        }
        assert forall|i: int| 0 <= i < es.len() implies transition(
            #[trigger] ss[i],
            es[i],
            ss[i + 1],
            as_[i],
        ) by {
            assert(ss[i] == states[i] && ss[i + 1] == states[i + 1]);
            assert(es[i] == events[i] && as_[i] == actions[i]);
        }
        lemma_drain(ss, es, as_);
        assert(ss.last() == states[n]);
        assert(transition(states[n], events[n], states[n + 1], actions[n]));
        assert(events.last() == events[n]);
        assert(es =~= events.drop_last());
        assert(states.last().received@ =~= states[0].received@ + chunk_bytes(events));
    }
}

/// A transport failure reported once the response is awaited and a rejection
/// at submission end the exchange with distinct errors, each carrying the
/// host's detail.
pub proof fn lemma_transport_not_dispatch(
    s1: Exchange,
    d1: String,
    t1: Exchange,
    a1: Action,
    s2: Exchange,
    d2: String,
    t2: Exchange,
    a2: Action,
)
    requires
        s1.phase == Phase::Await,
        transition(s1, Event::TransportFailed(d1), t1, a1),
        s2.phase == Phase::Dispatch,
        transition(s2, Event::Failed(d2), t2, a2),
    ensures
        fails(t1, a1, ErrorKind::Transport, d1@),
        fails(t2, a2, ErrorKind::Dispatch, d2@),
        ErrorKind::Transport != ErrorKind::Dispatch,
{
}

/// A response the host reports as bodiless ends the exchange with an empty
/// body, while a missing body stream ends it with `BodyStreamUnavailable`.
pub proof fn lemma_no_body(
    s: Exchange,
    t1: Exchange,
    a1: Action,
    d: String,
    t2: Exchange,
    a2: Action,
)
    requires
        s.phase == Phase::OpenStream,
        transition(s, Event::NoBody, t1, a1),
        transition(s, Event::Failed(d), t2, a2),
    ensures
        succeeds(t1, a1, s.status, s.response_headers, Seq::empty()),
        fails(t2, a2, ErrorKind::BodyStreamUnavailable, Seq::empty()),
{
}

} // verus!
