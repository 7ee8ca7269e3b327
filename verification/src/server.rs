//! The core of the server: from a request to the path of the file it asks
//! for, and the request loop as a state machine.

use vstd::prelude::*;
use crate::ascii::{lower, to_lower};
use crate::clock::{now, Timestamp};
use crate::error::{description_of, HttpError, IoFailure};
use crate::file::{decision, safe_open, FileStat};
use crate::path::{
    confined, lemma_confined_fixed, lemma_rooted_no_parent, lemma_sanitized_confined,
    lemma_sanitized_prefix, parent_segment_at, rooted, sanitize, sanitized, COLON, DOT, SLASH,
};
use crate::percent::{decoded, unescape};
use crate::request::{Method, Protocol, Request};
use crate::response::{
    error_response, not_modified, report, respond, response_for, ErrorResponse, Response,
};

verus! {

/// The byte `0`: the directory of requests that name no host.
pub const DEFAULT_HOST: u8 = 0x30;

/// How many bytes of `host` stand before its port: all of them up to the
/// first colon.
pub open spec fn name_len(host: Seq<u8>) -> nat
    decreases host.len(),
{
    if host.len() == 0 || host[0] == COLON {
        0
    } else {
        1 + name_len(host.skip(1))
    }
}

/// A host as a directory name: the port cut off, the letters in lower case.
pub open spec fn normalized_host(host: Seq<u8>) -> Seq<u8> {
    Seq::new(name_len(host), |i: int| lower(host[i]))
}

/// The name of a host ends where its first colon stands, or where it ends.
pub proof fn lemma_name_len(host: Seq<u8>, n: int)
    requires
        0 <= n <= host.len(),
        forall|j: int| 0 <= j < n ==> host[j] != COLON,
        n == host.len() || host[n] == COLON,
    ensures
        name_len(host) == n,
    decreases host.len(),
{
    if n > 0 {
        let rest = host.skip(1);
        assert forall|j: int| 0 <= j < n - 1 implies rest[j] != COLON by {
            assert(rest[j] == host[j + 1]);
        }
        lemma_name_len(rest, n - 1);
    }
}

/// Normalizes a host for use as a directory name: downcases it and strips off
/// the port, if any.
pub fn normalize_host(host: &mut Vec<u8>)
    ensures
        final(host)@ == normalized_host(old(host)@),
{
    let n: usize = host.len();
    let mut i: usize = 0;
    while i < n
        invariant
            n == host@.len(),
            n == old(host)@.len(),
            i <= n,
            forall|j: int| 0 <= j < i ==> old(host)@[j] != COLON,
            forall|j: int| 0 <= j < i ==> host@[j] == lower(old(host)@[j]),
            forall|j: int| i <= j < n ==> host@[j] == old(host)@[j],
        decreases n - i,
    {
        let c: u8 = host[i];
        if c == COLON {
            host.truncate(i);
            proof {
                lemma_name_len(old(host)@, i as int);
            }
            assert(host@ == normalized_host(old(host)@));
            return ;
        } else {
            host.set(i, to_lower(c));
        }
        i += 1;
    }
    proof {
        lemma_name_len(old(host)@, n as int);
    }
    assert(host@ == normalized_host(old(host)@));
}

/// The directory of a request: the normalized host where the request names
/// one; for a request without a host the default directory under HTTP/1.0,
/// and nothing under HTTP/1.1, which demands a host.  A host of which
/// nothing is left after normalizing counts as none.
pub open spec fn host_label(host: Option<Seq<u8>>, protocol: Protocol) -> Option<Seq<u8>> {
    let given = match host {
        Some(h) => normalized_host(h),
        None => Seq::empty(),
    };
    if given.len() > 0 {
        Some(given)
    } else if protocol == Protocol::Http10 {
        Some(seq![DEFAULT_HOST])
    } else {
        None
    }
}

/// The path of a host's directory, before sanitizing.
pub open spec fn host_prefix(label: Seq<u8>) -> Seq<u8> {
    seq![DOT, SLASH] + label + seq![SLASH]
}

/// The root of a host: the sanitized path of its directory.
pub open spec fn host_root(label: Seq<u8>) -> Seq<u8> {
    sanitized(host_prefix(label))
}

/// The file that a request asks for: `./`, the host's directory, `/` and the
/// decoded path, sanitized as a whole.  A request without the host that its
/// protocol demands, or with a malformed escape in its path, is a bad
/// request.
pub open spec fn resolved(host: Option<Seq<u8>>, protocol: Protocol, raw_path: Seq<u8>) -> Result<
    Seq<u8>,
    HttpError,
> {
    match (host_label(host, protocol), decoded(raw_path)) {
        (Some(label), Some(plain)) => Ok(sanitized(host_prefix(label) + plain)),
        _ => Err(HttpError::BadRequest),
    }
}

/// The views of an optional byte string.
pub open spec fn opt_view(host: Option<Vec<u8>>) -> Option<Seq<u8>> {
    match host {
        Some(h) => Some(h@),
        None => None,
    }
}

/// Finds the directory of a request.
pub fn resolve_host(host: Option<Vec<u8>>, protocol: Protocol) -> (r: Result<Vec<u8>, HttpError>)
    ensures
        match host_label(opt_view(host), protocol) {
            Some(label) => r is Ok && r->Ok_0@ == label,
            None => r == Err::<Vec<u8>, HttpError>(HttpError::BadRequest),
        },
{
    let mut label: Vec<u8> = match host {
        Some(h) => {
            let mut h = h;
            normalize_host(&mut h);
            h
        },
        None => Vec::new(),
    };
    if label.len() > 0 {
        Ok(label)
    } else {
        match protocol {
            Protocol::Http10 => {
                label.push(DEFAULT_HOST);
                assert(label@ == seq![DEFAULT_HOST]);
                Ok(label)
            },
            // HTTP/1.1 requests must include a host, one way or another.
            Protocol::Http11 => Err(HttpError::BadRequest),
        }
    }
}

/// Finds the file that a request asks for.
pub fn resolve(host: Option<Vec<u8>>, protocol: Protocol, path: Vec<u8>) -> (r: Result<
    Vec<u8>,
    HttpError,
>)
    ensures
        match resolved(opt_view(host), protocol, path@) {
            Ok(p) => r is Ok && r->Ok_0@ == p,
            Err(e) => r == Err::<Vec<u8>, HttpError>(e),
        },
        r is Ok ==> confined(r->Ok_0@) && rooted(r->Ok_0@),
{
    let mut label = match resolve_host(host, protocol) {
        Ok(label) => label,
        Err(e) => {
            return Err(e);
        },
    };
    let ghost plain = decoded(path@)->Some_0;
    let mut path = path;
    match unescape(&mut path) {
        Ok(()) => {},
        Err(e) => {
            return Err(e);
        },
    }
    let mut whole: Vec<u8> = Vec::new();
    whole.push(DOT);
    whole.push(SLASH);
    whole.append(&mut label);
    whole.push(SLASH);
    whole.append(&mut path);
    let ghost lab = host_label(opt_view(host), protocol)->Some_0;
    assert(whole@ == host_prefix(lab) + plain);
    let out = sanitize(whole.as_slice());
    proof {
        lemma_resolved_rooted(lab, plain);
    }
    Ok(out)
}

/// The sanitized form of anything that begins with `./` begins with `./`.
pub proof fn lemma_sanitized_rooted(rest: Seq<u8>)
    ensures
        rooted(sanitized(seq![DOT, SLASH] + rest)),
{
    let head = seq![DOT, SLASH];
    lemma_sanitized_prefix(head, rest);
    assert(head.drop_last() == seq![DOT]);
    assert(seq![DOT].drop_last() == Seq::<u8>::empty());
    reveal_with_fuel(sanitized, 3);
    assert(sanitized(head) == head);
}

/// Every resolved path begins with `./`, and with the root of its host.
pub proof fn lemma_resolved_rooted(label: Seq<u8>, plain: Seq<u8>)
    ensures
        rooted(sanitized(host_prefix(label) + plain)),
        host_root(label).is_prefix_of(sanitized(host_prefix(label) + plain)),
{
    assert(host_prefix(label) + plain == seq![DOT, SLASH] + (label + seq![SLASH] + plain));
    lemma_sanitized_rooted(label + seq![SLASH] + plain);
    lemma_sanitized_prefix(host_prefix(label), plain);
}

/// The root of a host is a directory under `./`: it begins with `./` and ends
/// with a slash.
pub proof fn lemma_host_root(label: Seq<u8>)
    ensures
        rooted(host_root(label)),
        host_root(label).last() == SLASH,
{
    let prefix = host_prefix(label);
    assert(prefix == seq![DOT, SLASH] + (label + seq![SLASH]));
    lemma_sanitized_rooted(label + seq![SLASH]);
    assert(prefix.last() == SLASH);
}

/// Resolution cannot be led out of the host's directory.  Whatever the host
/// and the path hold, the resolved path begins with `./` and with the root of
/// the host, none of its segments is `..`, and sanitizing it once more
/// changes nothing.
pub proof fn lemma_resolved_confined(host: Option<Seq<u8>>, protocol: Protocol, raw_path: Seq<u8>)
    requires
        resolved(host, protocol, raw_path) is Ok,
    ensures
        ({
            let p = resolved(host, protocol, raw_path)->Ok_0;
            let label = host_label(host, protocol)->Some_0;
            &&& rooted(p)
            &&& host_root(label).is_prefix_of(p)
            &&& confined(p)
            &&& forall|i: int| !parent_segment_at(p, i)
            &&& sanitized(p) == p
        }),
{
    let label = host_label(host, protocol)->Some_0;
    let plain = decoded(raw_path)->Some_0;
    let p = sanitized(host_prefix(label) + plain);
    lemma_resolved_rooted(label, plain);
    lemma_sanitized_confined(host_prefix(label) + plain);
    lemma_rooted_no_parent(p);
    lemma_confined_fixed(p);
}

/// A request is refused as bad exactly when it lacks the host that its
/// protocol demands or its path holds a malformed escape; no other error
/// comes of resolution.
pub proof fn lemma_resolved_errors(host: Option<Seq<u8>>, protocol: Protocol, raw_path: Seq<u8>)
    ensures
        resolved(host, protocol, raw_path) is Err <==> host_label(host, protocol) is None
            || decoded(raw_path) is None,
        resolved(host, protocol, raw_path) is Err ==> resolved(host, protocol, raw_path)->Err_0
            == HttpError::BadRequest,
        host_label(host, protocol) is None <==> protocol == Protocol::Http11 && (host is None
            || normalized_host(host->Some_0).len() == 0),
        host is None && protocol == Protocol::Http10 ==> host_label(host, protocol) == Some(
            seq![DEFAULT_HOST],
        ),
{
}

/// A request on its way from the path to the answer.
#[derive(Clone, Debug, PartialEq, Eq)]
pub enum Dispatch {
    /// The path is resolved and is being opened.
    Opening {
        method: Method,
        protocol: Protocol,
        if_modified_since: Option<Timestamp>,
        path: Vec<u8>,
    },
    /// The answer is decided and is being sent.
    Sending { method: Method, protocol: Protocol },
}

/// Where a connection stands between two steps.
#[derive(Clone, Debug, PartialEq, Eq)]
pub enum State {
    /// The next request is being read.
    AwaitRequest,
    /// A request is being served.
    Dispatch(Dispatch),
    /// A failure is being reported to the client.
    Error,
    /// The connection is over.
    Closed,
}

/// What happened on the connection since the last step.
#[derive(Debug, PartialEq, Eq)]
pub enum Event<F> {
    /// A request was read.
    Request(Request),
    /// No request could be read: the bytes made none, or reading failed.
    ReadFailed(HttpError),
    /// The path was opened: the open file, what `fstat` told of it, and the
    /// content type that goes with the path.
    Opened { file: F, stat: FileStat, content_type: Vec<u8> },
    /// The path could not be opened.
    OpenFailed(IoFailure),
    /// The answer was sent.
    Sent,
    /// The answer could not be sent.
    SendFailed(IoFailure),
    /// The report was sent, or could not be: it is not tried again.
    Reported,
}

/// What to do on the connection next.
#[derive(Debug, PartialEq, Eq)]
pub enum Action<F> {
    /// Read the next request.
    Read,
    /// Open this path.
    Open(Vec<u8>),
    /// Send this answer.
    Send(Response<F>),
    /// Send this report, and do not mind if it fails.
    Report(ErrorResponse),
    /// Close the connection.
    Close,
}

/// One line of the log: a path, and how opening it went.
#[derive(Clone, Debug, PartialEq, Eq)]
pub struct LogEntry {
    pub path: Vec<u8>,
    pub outcome: String,
}

/// One step of a connection: the state it is in now, the line to log before
/// anything else is done, and what to do next.
#[derive(Debug, PartialEq, Eq)]
pub struct Step<F> {
    pub state: State,
    pub log: Option<LogEntry>,
    pub action: Action<F>,
}

/// A `Dispatch` with its path as a sequence.
pub enum DispatchView {
    Opening {
        method: Method,
        protocol: Protocol,
        if_modified_since: Option<Timestamp>,
        path: Seq<u8>,
    },
    Sending { method: Method, protocol: Protocol },
}

/// A `State` with its path as a sequence.
pub enum StateView {
    AwaitRequest,
    Dispatch(DispatchView),
    Error,
    Closed,
}

/// An `Action` with its path as a sequence.
pub enum ActionView<F> {
    Read,
    Open(Seq<u8>),
    Send(Response<F>),
    Report(ErrorResponse),
    Close,
}

/// A `LogEntry` with its texts as sequences.
pub struct LogEntryView {
    pub path: Seq<u8>,
    pub outcome: Seq<char>,
}

/// A `Step` with its parts as views.
pub struct StepView<F> {
    pub state: StateView,
    pub log: Option<LogEntryView>,
    pub action: ActionView<F>,
}

impl View for Dispatch {
    type V = DispatchView;

    open spec fn view(&self) -> DispatchView {
        match *self {
            Dispatch::Opening { method, protocol, if_modified_since, path } => {
                DispatchView::Opening { method, protocol, if_modified_since, path: path@ }
            },
            Dispatch::Sending { method, protocol } => DispatchView::Sending { method, protocol },
        }
    }
}

impl View for State {
    type V = StateView;

    open spec fn view(&self) -> StateView {
        match *self {
            State::AwaitRequest => StateView::AwaitRequest,
            State::Dispatch(d) => StateView::Dispatch(d@),
            State::Error => StateView::Error,
            State::Closed => StateView::Closed,
        }
    }
}

impl<F> View for Action<F> {
    type V = ActionView<F>;

    open spec fn view(&self) -> ActionView<F> {
        match *self {
            Action::Read => ActionView::Read,
            Action::Open(path) => ActionView::Open(path@),
            Action::Send(response) => ActionView::Send(response),
            Action::Report(response) => ActionView::Report(response),
            Action::Close => ActionView::Close,
        }
    }
}

impl View for LogEntry {
    type V = LogEntryView;

    open spec fn view(&self) -> LogEntryView {
        LogEntryView { path: self.path@, outcome: self.outcome@ }
    }
}

impl<F> View for Step<F> {
    type V = StepView<F>;

    open spec fn view(&self) -> StepView<F> {
        StepView {
            state: self.state@,
            log: match self.log {
                Some(entry) => Some(entry@),
                None => None,
            },
            action: self.action@,
        }
    }
}

/// The step that ends a connection.
pub open spec fn closing<F>() -> StepView<F> {
    StepView { state: StateView::Closed, log: None, action: ActionView::Close }
}

/// The step that reports `error` and logs `log` before it.
pub open spec fn failing<F>(
    known_protocol: Option<Protocol>,
    body_allowed: bool,
    error: HttpError,
    log: Option<LogEntryView>,
) -> StepView<F> {
    StepView {
        state: StateView::Error,
        log,
        action: ActionView::Report(error_response(known_protocol, body_allowed, error)),
    }
}

/// The step after a request was read: its path is resolved and opened, or
/// the request is refused.
pub open spec fn after_request<F>(req: Request) -> StepView<F> {
    match resolved(opt_view(req.host), req.protocol, req.path@) {
        Ok(path) => StepView {
            state: StateView::Dispatch(
                DispatchView::Opening {
                    method: req.method,
                    protocol: req.protocol,
                    if_modified_since: req.if_modified_since,
                    path,
                },
            ),
            log: None,
            action: ActionView::Open(path),
        },
        Err(e) => failing(Some(req.protocol), req.method.carries_body(), e, None),
    }
}

/// The step after the path was opened: the policy decides, the log tells
/// how it went, and what the policy lets through is answered.
pub open spec fn after_open<F>(
    method: Method,
    protocol: Protocol,
    if_modified_since: Option<Timestamp>,
    path: Seq<u8>,
    file: F,
    stat: FileStat,
    content_type: Vec<u8>,
    now: Timestamp,
) -> StepView<F> {
    match decision(file, stat) {
        Err(e) => failing(
            Some(protocol),
            method.carries_body(),
            e,
            Some(LogEntryView { path, outcome: description_of(e) }),
        ),
        Ok(resource) => {
            let log = Some(LogEntryView { path, outcome: "success"@ });
            match response_for(method, protocol, now, if_modified_since, content_type, resource) {
                Ok(response) => StepView {
                    state: StateView::Dispatch(DispatchView::Sending { method, protocol }),
                    log,
                    action: ActionView::Send(response),
                },
                Err(e) => failing(Some(protocol), method.carries_body(), e, log),
            }
        },
    }
}

/// The step after the answer was sent: the next request where the protocol
/// keeps the connection, the end where it does not.
pub open spec fn after_sent<F>(protocol: Protocol) -> StepView<F> {
    if protocol.persistent() {
        StepView { state: StateView::AwaitRequest, log: None, action: ActionView::Read }
    } else {
        closing()
    }
}

/// The step that follows `event` in `state`, at the time `now`.
///
/// Any failure leads to `Error` and its report, and from `Error` every event
/// leads to `Closed`.  An event that the state does not wait for ends the
/// connection.
pub open spec fn next<F>(state: State, event: Event<F>, now: Timestamp) -> StepView<F> {
    match state {
        State::AwaitRequest => match event {
            Event::Request(req) => after_request(req),
            Event::ReadFailed(e) => failing(None, true, e, None),
            _ => closing(),
        },
        State::Dispatch(
            Dispatch::Opening { method, protocol, if_modified_since, path },
        ) => match event {
            Event::Opened { file, stat, content_type } => after_open(
                method,
                protocol,
                if_modified_since,
                path@,
                file,
                stat,
                content_type,
                now,
            ),
            Event::OpenFailed(failure) => failing(
                Some(protocol),
                method.carries_body(),
                HttpError::IoError(failure),
                Some(LogEntryView { path: path@, outcome: failure.description@ }),
            ),
            _ => closing(),
        },
        State::Dispatch(Dispatch::Sending { method, protocol }) => match event {
            Event::Sent => after_sent(protocol),
            Event::SendFailed(failure) => failing(
                Some(protocol),
                method.carries_body(),
                HttpError::IoError(failure),
                None,
            ),
            _ => closing(),
        },
        State::Error => closing(),
        State::Closed => closing(),
    }
}

/// Ends the connection.
fn close<F>() -> (r: Step<F>)
    ensures
        r@ == closing::<F>(),
{
    Step { state: State::Closed, log: None, action: Action::Close }
}

/// Turns to reporting `error`.
fn fail<F>(known_protocol: Option<Protocol>, body_allowed: bool, error: &HttpError, log: Option<
    LogEntry,
>) -> (r: Step<F>)
    ensures
        r.state == State::Error,
        r.log == log,
        r.action == Action::<F>::Report(error_response(known_protocol, body_allowed, *error)),
{
    let action = Action::Report(report(known_protocol, body_allowed, error));
    Step { state: State::Error, log, action }
}

/// Takes up a request that was read: resolves its path and asks for it to be
/// opened, or refuses the request.
pub fn serve_request<F>(req: Request) -> (r: Step<F>)
    ensures
        r@ == after_request::<F>(req),
{
    let Request { method, protocol, host, path, if_modified_since } = req;
    match resolve(host, protocol, path) {
        Ok(file_path) => {
            let to_open = file_path.clone();
            assert(to_open@ == file_path@);
            Step {
                state: State::Dispatch(
                    Dispatch::Opening { method, protocol, if_modified_since, path: file_path },
                ),
                log: None,
                action: Action::Open(to_open),
            }
        },
        Err(e) => fail(Some(protocol), method.has_body(), &e, None),
    }
}

/// Takes up an opened path: holds it to the policy, logs how that went,
/// and decides the answer.
pub fn serve_opened<F>(
    method: Method,
    protocol: Protocol,
    if_modified_since: Option<Timestamp>,
    path: Vec<u8>,
    file: F,
    stat: FileStat,
    content_type: Vec<u8>,
    now: Timestamp,
) -> (r: Step<F>)
    ensures
        r@ == after_open(method, protocol, if_modified_since, path@, file, stat, content_type, now),
{
    match safe_open(file, &stat) {
        Ok(resource) => {
            let log = Some(LogEntry { path, outcome: "success".to_owned() });
            match respond(method, protocol, now, if_modified_since, content_type, resource) {
                Ok(response) => Step {
                    state: State::Dispatch(Dispatch::Sending { method, protocol }),
                    log,
                    action: Action::Send(response),
                },
                Err(e) => fail(Some(protocol), method.has_body(), &e, log),
            }
        },
        Err(e) => {
            let log = Some(LogEntry { path, outcome: e.description() });
            fail(Some(protocol), method.has_body(), &e, log)
        },
    }
}

/// Makes one step of a connection at the time `now`.
pub fn step<F>(state: State, event: Event<F>, now: Timestamp) -> (r: Step<F>)
    ensures
        r@ == next(state, event, now),
{
    match state {
        State::AwaitRequest => match event {
            Event::Request(req) => serve_request(req),
            Event::ReadFailed(e) => fail(None, true, &e, None),
            _ => close(),
        },
        State::Dispatch(
            Dispatch::Opening { method, protocol, if_modified_since, path },
        ) => match event {
            Event::Opened { file, stat, content_type } => serve_opened(
                method,
                protocol,
                if_modified_since,
                path,
                file,
                stat,
                content_type,
                now,
            ),
            Event::OpenFailed(failure) => {
                let log = Some(LogEntry { path, outcome: failure.description.clone() });
                fail(Some(protocol), method.has_body(), &HttpError::IoError(failure), log)
            },
            _ => close(),
        },
        State::Dispatch(Dispatch::Sending { method, protocol }) => match event {
            Event::Sent => {
                if protocol.keeps_alive() {
                    Step { state: State::AwaitRequest, log: None, action: Action::Read }
                } else {
                    close()
                }
            },
            Event::SendFailed(failure) => fail(
                Some(protocol),
                method.has_body(),
                &HttpError::IoError(failure),
                None,
            ),
            _ => close(),
        },
        State::Error => close(),
        State::Closed => close(),
    }
}

/// Makes one step of a connection: reads the clock, and goes from the state
/// the connection was in and what happened on it since to the state it is in
/// now and what to do next.
///
/// A connection begins in `State::AwaitRequest` with a request being read.
/// Whoever drives it logs the step's line, does what the step says, and comes
/// back with what came of it, until the step says `Action::Close`.
pub fn serve<F>(state: State, event: Event<F>) -> (r: Step<F>)
    ensures
        exists|t: Timestamp| t.wf() && r@ == #[trigger] next(state, event, t),
{
    let t = now();
    step(state, event, t)
}

/// A failure is the end of a connection: once a report is under way every
/// event closes the connection, and a closed connection stays closed.  No
/// request is read again.
pub proof fn lemma_error_closes<F>(state: State, event: Event<F>, now: Timestamp)
    requires
        state is Error || state is Closed,
    ensures
        next(state, event, now) == closing::<F>(),
{
}

/// A report is sent exactly on the steps that lead to `Error`, a request is
/// read exactly on those that lead to `AwaitRequest`, an answer is sent
/// exactly on those that lead to sending, a path is opened exactly on those
/// that lead to opening, and the connection is closed exactly on those that
/// lead to `Closed`.
pub proof fn lemma_action_matches_state<F>(state: State, event: Event<F>, now: Timestamp)
    ensures
        ({
            let s = next(state, event, now);
            &&& s.action is Report <==> s.state is Error
            &&& s.action is Read <==> s.state is AwaitRequest
            &&& s.action is Close <==> s.state is Closed
            &&& s.action is Send <==> s.state is Dispatch && s.state->Dispatch_0 is Sending
            &&& s.action is Open <==> s.state is Dispatch && s.state->Dispatch_0 is Opening
            &&& s.action is Open ==> s.state->Dispatch_0->path == s.action->Open_0
        }),
{
}

/// A request that cannot be read is reported as if it were a `GET` in no
/// known protocol, and the step after that closes the connection.
pub proof fn lemma_unreadable_request<F>(
    error: HttpError,
    now: Timestamp,
    after: State,
    event: Event<F>,
    later: Timestamp,
)
    requires
        after@ == next::<F>(State::AwaitRequest, Event::ReadFailed(error), now).state,
    ensures
        next::<F>(State::AwaitRequest, Event::ReadFailed(error), now) == failing::<F>(
            None,
            true,
            error,
            None,
        ),
        next(after, event, later) == closing::<F>(),
{
}

/// Each request that gets as far as opening its path is logged once: a line
/// is written on the step that takes up what came of opening, and on no
/// other.  The line holds the path that was opened.
pub proof fn lemma_logged_once<F>(state: State, event: Event<F>, now: Timestamp)
    ensures
        next(state, event, now).log is Some <==> state is Dispatch && state->Dispatch_0 is Opening
            && (event is Opened || event is OpenFailed),
        next(state, event, now).log is Some ==> next(state, event, now).log->Some_0.path
            == state->Dispatch_0->path@,
{
}

/// A file leaves a step only as the body of an answer with status 200 to a
/// `GET`: every other step has dropped the file it was given.
pub proof fn lemma_body_only_for_get<F>(state: State, event: Event<F>, now: Timestamp)
    ensures
        next(state, event, now).action is Send ==> state is Dispatch && state->Dispatch_0 is Opening
            && event is Opened,
        next(state, event, now).action matches ActionView::Send(response) ==> {
            &&& response.body is Some <==> state->Dispatch_0->Opening_method == Method::Get
                && !not_modified(
                state->Dispatch_0->if_modified_since,
                Timestamp { sec: event->stat.mtime, nsec: 0 },
            )
            &&& response.body is Some ==> response.body == Some(event->file) && response.status
                == 200
        },
{
}

} // verus!
