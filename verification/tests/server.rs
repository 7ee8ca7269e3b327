use httpfile::clock::Timestamp;
use httpfile::error::{HttpError, IoFailure, IoKind};
use httpfile::file::FileStat;
use httpfile::request::{Method, Protocol, Request};
use httpfile::response::{ErrorResponse, Response};
use httpfile::server::{
    normalize_host, resolve, resolve_host, serve, serve_request, step, Action, Dispatch, Event,
    LogEntry, State, Step,
};

type Handle = &'static str;

fn at(sec: i64) -> Timestamp {
    Timestamp { sec, nsec: 0 }
}

fn normalized(raw: &[u8]) -> Vec<u8> {
    let mut h = raw.to_vec();
    normalize_host(&mut h);
    h
}

fn get(host: Option<&[u8]>, protocol: Protocol, path: &[u8]) -> Request {
    Request {
        method: Method::Get,
        protocol,
        host: host.map(|h| h.to_vec()),
        path: path.to_vec(),
        if_modified_since: None,
    }
}

fn opening(method: Method, protocol: Protocol, path: &[u8]) -> State {
    State::Dispatch(Dispatch::Opening {
        method,
        protocol,
        if_modified_since: None,
        path: path.to_vec(),
    })
}

fn opened(mode: u32) -> Event<Handle> {
    Event::Opened {
        file: "the file",
        stat: FileStat { mode, mtime: 1000, size: 120 },
        content_type: b"text/html".to_vec(),
    }
}

fn every_event() -> Vec<Event<Handle>> {
    vec![
        Event::Request(get(Some(b"h"), Protocol::Http11, b"/")),
        Event::ReadFailed(HttpError::BadRequest),
        opened(0o100644),
        Event::OpenFailed(IoFailure { kind: IoKind::NotFound, description: "gone".to_string() }),
        Event::Sent,
        Event::SendFailed(IoFailure { kind: IoKind::Other, description: "pipe".to_string() }),
        Event::Reported,
    ]
}

fn closing() -> Step<Handle> {
    Step { state: State::Closed, log: None, action: Action::Close }
}

#[test]
fn host_is_downcased_and_port_is_stripped() {
    assert_eq!(normalized(b"Example.COM:8080"), b"example.com".to_vec());
    assert_eq!(normalized(b"example.com"), b"example.com".to_vec());
    assert_eq!(normalized(b"EXAMPLE.COM"), b"example.com".to_vec());
    assert_eq!(normalized(b""), b"".to_vec());
    assert_eq!(normalized(b":80"), b"".to_vec());
    assert_eq!(normalized(b"A:B:C"), b"a".to_vec());
    assert_eq!(normalized(b"host:"), b"host".to_vec());
}

#[test]
fn host_normalization_is_bytewise() {
    // Bytes beyond ASCII have no case; what follows the colon is not touched.
    assert_eq!(normalized(&[0xc4, b'B', 0xd6]), vec![0xc4, b'b', 0xd6]);
    assert_eq!(normalized(b"[Z]@`"), b"[z]@`".to_vec());
}

#[test]
fn absent_host_under_http10_is_the_default_label() {
    assert_eq!(resolve_host(None, Protocol::Http10), Ok(b"0".to_vec()));
    assert_eq!(resolve_host(Some(Vec::new()), Protocol::Http10), Ok(b"0".to_vec()));
    assert_eq!(resolve_host(Some(b":8080".to_vec()), Protocol::Http10), Ok(b"0".to_vec()));
}

#[test]
fn absent_host_under_http11_is_a_bad_request() {
    assert_eq!(resolve_host(None, Protocol::Http11), Err(HttpError::BadRequest));
    assert_eq!(resolve_host(Some(Vec::new()), Protocol::Http11), Err(HttpError::BadRequest));
    assert_eq!(resolve_host(Some(b":8080".to_vec()), Protocol::Http11), Err(HttpError::BadRequest));
}

#[test]
fn given_host_is_normalized_under_both_protocols() {
    for protocol in [Protocol::Http10, Protocol::Http11] {
        assert_eq!(
            resolve_host(Some(b"Example.COM:8080".to_vec()), protocol),
            Ok(b"example.com".to_vec())
        );
    }
}

#[test]
fn resolve_composes_host_and_path() {
    assert_eq!(
        resolve(Some(b"example.com".to_vec()), Protocol::Http11, b"/index.html".to_vec()),
        Ok(b"./example.com/index.html".to_vec())
    );
    assert_eq!(
        resolve(None, Protocol::Http10, b"/a/b.txt".to_vec()),
        Ok(b"./0/a/b.txt".to_vec())
    );
    assert_eq!(
        resolve(Some(b"WWW.Example.com:80".to_vec()), Protocol::Http10, b"index.html".to_vec()),
        Ok(b"./www.example.com/index.html".to_vec())
    );
}

#[test]
fn resolve_decodes_before_it_sanitizes() {
    assert_eq!(
        resolve(Some(b"h".to_vec()), Protocol::Http11, b"/%2e%2e/%2E%2E/etc/passwd".to_vec()),
        Ok(b"./h/:./:./etc/passwd".to_vec())
    );
    assert_eq!(
        resolve(Some(b"h".to_vec()), Protocol::Http11, b"/a%2f%2fb%20c".to_vec()),
        Ok(b"./h/a/b c".to_vec())
    );
}

#[test]
fn resolve_cannot_be_led_out_of_the_host() {
    assert_eq!(
        resolve(Some(b"example.com".to_vec()), Protocol::Http11, b"/../../etc/passwd".to_vec()),
        Ok(b"./example.com/:./:./etc/passwd".to_vec())
    );
    // The host is sanitized with the rest.
    assert_eq!(
        resolve(Some(b"..".to_vec()), Protocol::Http11, b"/x".to_vec()),
        Ok(b"./:./x".to_vec())
    );
    assert_eq!(
        resolve(Some(b"../..".to_vec()), Protocol::Http11, b"/x".to_vec()),
        Ok(b"./:./:./x".to_vec())
    );
    assert_eq!(
        resolve(Some(b"/etc".to_vec()), Protocol::Http11, b"/passwd".to_vec()),
        Ok(b"./etc/passwd".to_vec())
    );
}

#[test]
fn resolve_refuses_malformed_escapes_and_missing_hosts() {
    assert_eq!(
        resolve(Some(b"h".to_vec()), Protocol::Http11, b"/a%2".to_vec()),
        Err(HttpError::BadRequest)
    );
    assert_eq!(
        resolve(Some(b"h".to_vec()), Protocol::Http10, b"/%zz".to_vec()),
        Err(HttpError::BadRequest)
    );
    assert_eq!(resolve(None, Protocol::Http11, b"/".to_vec()), Err(HttpError::BadRequest));
}

#[test]
fn scenario_get_index_html() {
    let s1: Step<Handle> = step(
        State::AwaitRequest,
        Event::Request(get(Some(b"example.com"), Protocol::Http11, b"/index.html")),
        at(5000),
    );
    assert_eq!(s1.log, None);
    assert_eq!(s1.action, Action::Open(b"./example.com/index.html".to_vec()));
    assert_eq!(s1.state, opening(Method::Get, Protocol::Http11, b"./example.com/index.html"));

    let s2 = step(s1.state, opened(0o100644), at(5001));
    assert_eq!(
        s2.log,
        Some(LogEntry {
            path: b"./example.com/index.html".to_vec(),
            outcome: "success".to_string()
        })
    );
    assert_eq!(
        s2.action,
        Action::Send(Response {
            protocol: Protocol::Http11,
            status: 200,
            date: at(5001),
            content_type: b"text/html".to_vec(),
            content_length: 120,
            last_modified: at(1000),
            body: Some("the file"),
            keep_alive: true,
        })
    );
    assert_eq!(
        s2.state,
        State::Dispatch(Dispatch::Sending { method: Method::Get, protocol: Protocol::Http11 })
    );

    let s3: Step<Handle> = step(s2.state, Event::Sent, at(5002));
    assert_eq!(s3, Step { state: State::AwaitRequest, log: None, action: Action::Read });
}

#[test]
fn scenario_traversal_stays_under_the_host() {
    let s1: Step<Handle> = step(
        State::AwaitRequest,
        Event::Request(get(Some(b"example.com"), Protocol::Http11, b"/../../etc/passwd")),
        at(1),
    );
    let path = match &s1.action {
        Action::Open(p) => p.clone(),
        other => panic!("expected to open a path, got {:?}", other),
    };
    assert!(path.starts_with(b"./example.com/"));
    assert!(!path.split(|b| *b == b'/').any(|seg| seg == b".."));
    assert_eq!(path, b"./example.com/:./:./etc/passwd".to_vec());

    let gone = IoFailure { kind: IoKind::NotFound, description: "No such file or directory".to_string() };
    let s2: Step<Handle> = step(s1.state, Event::OpenFailed(gone), at(2));
    assert_eq!(
        s2.log,
        Some(LogEntry { path, outcome: "No such file or directory".to_string() })
    );
    assert_eq!(
        s2.action,
        Action::Report(ErrorResponse {
            protocol: Protocol::Http11,
            status: 404,
            reason: "Not Found",
            with_body: true
        })
    );
    assert_eq!(s2.state, State::Error);
    assert_eq!(step::<Handle>(s2.state, Event::Reported, at(3)), closing());
}

#[test]
fn scenario_secret_file_is_not_found() {
    let s1: Step<Handle> = step(
        State::AwaitRequest,
        Event::Request(get(Some(b"example.com"), Protocol::Http11, b"/secret")),
        at(1),
    );
    assert_eq!(s1.action, Action::Open(b"./example.com/secret".to_vec()));
    let refused = step(s1.state.clone(), opened(0o100600), at(2));
    assert_eq!(
        refused.log,
        Some(LogEntry { path: b"./example.com/secret".to_vec(), outcome: "not ugo+r".to_string() })
    );
    assert_eq!(refused.state, State::Error);
    match &refused.action {
        Action::Report(r) => {
            assert_eq!(r.status, 404);
            assert_ne!(r.status, 403);
        }
        other => panic!("expected a report, got {:?}", other),
    }
    // A missing file gives the same report.
    let gone = IoFailure { kind: IoKind::NotFound, description: "No such file or directory".to_string() };
    let missing = step(s1.state, Event::OpenFailed(gone), at(2));
    assert_eq!(refused.action, missing.action);
    assert_eq!(refused.state, missing.state);
}

#[test]
fn scenario_malformed_request_closes_the_connection() {
    let s1: Step<Handle> =
        step(State::AwaitRequest, Event::ReadFailed(HttpError::BadRequest), at(1));
    assert_eq!(
        s1,
        Step {
            state: State::Error,
            log: None,
            action: Action::Report(ErrorResponse {
                protocol: Protocol::Http10,
                status: 400,
                reason: "Bad Request",
                with_body: true
            }),
        }
    );
    // Whatever comes next, the connection closes, and stays closed.
    for event in every_event() {
        assert_eq!(step(State::Error, event, at(2)), closing());
    }
    for event in every_event() {
        assert_eq!(step(State::Closed, event, at(3)), closing());
    }
}

#[test]
fn read_failure_is_reported_with_its_own_status() {
    let eof = HttpError::IoError(IoFailure { kind: IoKind::Other, description: "eof".to_string() });
    let s: Step<Handle> = step(State::AwaitRequest, Event::ReadFailed(eof), at(1));
    assert_eq!(s.state, State::Error);
    assert_eq!(
        s.action,
        Action::Report(ErrorResponse {
            protocol: Protocol::Http10,
            status: 500,
            reason: "Internal Server Error",
            with_body: true
        })
    );
}

#[test]
fn request_without_host_under_http11_is_refused() {
    let s: Step<Handle> = serve_request(get(None, Protocol::Http11, b"/index.html"));
    assert_eq!(
        s,
        Step {
            state: State::Error,
            log: None,
            action: Action::Report(ErrorResponse {
                protocol: Protocol::Http11,
                status: 400,
                reason: "Bad Request",
                with_body: true
            }),
        }
    );
}

#[test]
fn request_without_host_under_http10_uses_the_default_directory() {
    let s: Step<Handle> = serve_request(get(None, Protocol::Http10, b"/index.html"));
    assert_eq!(s.action, Action::Open(b"./0/index.html".to_vec()));
    assert_eq!(s.state, opening(Method::Get, Protocol::Http10, b"./0/index.html"));
}

#[test]
fn head_request_errors_carry_no_body() {
    let mut req = get(Some(b"h"), Protocol::Http11, b"/%");
    req.method = Method::Head;
    let s: Step<Handle> = serve_request(req);
    assert_eq!(
        s.action,
        Action::Report(ErrorResponse {
            protocol: Protocol::Http11,
            status: 400,
            reason: "Bad Request",
            with_body: false
        })
    );
    let s = step(opening(Method::Head, Protocol::Http10, b"./h/x"), opened(0o100600), at(1));
    assert_eq!(
        s.action,
        Action::Report(ErrorResponse {
            protocol: Protocol::Http10,
            status: 404,
            reason: "Not Found",
            with_body: false
        })
    );
}

#[test]
fn directory_is_logged_as_opened_and_answered_with_403() {
    let s = step(opening(Method::Get, Protocol::Http11, b"./h/dir"), opened(0o040755), at(1));
    assert_eq!(
        s,
        Step {
            state: State::Error,
            log: Some(LogEntry { path: b"./h/dir".to_vec(), outcome: "success".to_string() }),
            action: Action::Report(ErrorResponse {
                protocol: Protocol::Http11,
                status: 403,
                reason: "Forbidden",
                with_body: true
            }),
        }
    );
}

#[test]
fn special_file_is_logged_and_not_found() {
    let s = step(opening(Method::Get, Protocol::Http11, b"./h/fifo"), opened(0o010644), at(1));
    assert_eq!(
        s.log,
        Some(LogEntry { path: b"./h/fifo".to_vec(), outcome: "not a regular file".to_string() })
    );
    assert_eq!(s.state, State::Error);
    let s = step(opening(Method::Get, Protocol::Http11, b"./h/odd"), opened(0o100645), at(1));
    assert_eq!(
        s.log,
        Some(LogEntry { path: b"./h/odd".to_vec(), outcome: "o+x but u-x".to_string() })
    );
}

#[test]
fn conditional_get_through_the_machine() {
    let state = |since: i64| {
        State::Dispatch(Dispatch::Opening {
            method: Method::Get,
            protocol: Protocol::Http11,
            if_modified_since: Some(at(since)),
            path: b"./h/f".to_vec(),
        })
    };
    for (since, status, body) in [(1000i64, 304u16, None), (2000, 304, None), (999, 200, Some("the file"))] {
        let s = step(state(since), opened(0o100644), at(3000));
        match s.action {
            Action::Send(r) => {
                assert_eq!(r.status, status);
                assert_eq!(r.body, body);
                assert_eq!(r.content_length, 120);
            }
            other => panic!("expected an answer, got {:?}", other),
        }
        assert_eq!(s.log.unwrap().outcome, "success");
    }
}

#[test]
fn http10_closes_after_the_answer() {
    let sending = State::Dispatch(Dispatch::Sending { method: Method::Get, protocol: Protocol::Http10 });
    assert_eq!(step::<Handle>(sending, Event::Sent, at(1)), closing());
    let sending = State::Dispatch(Dispatch::Sending { method: Method::Head, protocol: Protocol::Http11 });
    assert_eq!(
        step::<Handle>(sending, Event::Sent, at(1)),
        Step { state: State::AwaitRequest, log: None, action: Action::Read }
    );
}

#[test]
fn send_failure_is_reported_and_not_logged() {
    let sending = State::Dispatch(Dispatch::Sending { method: Method::Head, protocol: Protocol::Http11 });
    let broken = IoFailure { kind: IoKind::Other, description: "Broken pipe".to_string() };
    assert_eq!(
        step::<Handle>(sending, Event::SendFailed(broken), at(1)),
        Step {
            state: State::Error,
            log: None,
            action: Action::Report(ErrorResponse {
                protocol: Protocol::Http11,
                status: 500,
                reason: "Internal Server Error",
                with_body: false
            }),
        }
    );
}

#[test]
fn permission_denied_by_the_system_is_not_found() {
    let denied = IoFailure { kind: IoKind::PermissionDenied, description: "Permission denied".to_string() };
    let s = step::<Handle>(opening(Method::Get, Protocol::Http11, b"./h/s"), Event::OpenFailed(denied), at(1));
    assert_eq!(
        s.log,
        Some(LogEntry { path: b"./h/s".to_vec(), outcome: "Permission denied".to_string() })
    );
    assert_eq!(
        s.action,
        Action::Report(ErrorResponse {
            protocol: Protocol::Http11,
            status: 404,
            reason: "Not Found",
            with_body: true
        })
    );
}

#[test]
fn unexpected_events_close_the_connection() {
    let sending = State::Dispatch(Dispatch::Sending { method: Method::Get, protocol: Protocol::Http11 });
    assert_eq!(step(State::AwaitRequest, opened(0o100644), at(1)), closing());
    assert_eq!(step::<Handle>(State::AwaitRequest, Event::Sent, at(1)), closing());
    assert_eq!(step::<Handle>(State::AwaitRequest, Event::Reported, at(1)), closing());
    assert_eq!(
        step::<Handle>(opening(Method::Get, Protocol::Http11, b"./h/x"), Event::Sent, at(1)),
        closing()
    );
    assert_eq!(
        step::<Handle>(
            opening(Method::Get, Protocol::Http11, b"./h/x"),
            Event::ReadFailed(HttpError::BadRequest),
            at(1)
        ),
        closing()
    );
    assert_eq!(step(sending.clone(), opened(0o100644), at(1)), closing());
    assert_eq!(
        step::<Handle>(sending, Event::Request(get(Some(b"h"), Protocol::Http11, b"/")), at(1)),
        closing()
    );
}

#[test]
fn only_the_step_after_opening_logs() {
    let states = [
        State::AwaitRequest,
        opening(Method::Get, Protocol::Http11, b"./h/x"),
        State::Dispatch(Dispatch::Sending { method: Method::Get, protocol: Protocol::Http11 }),
        State::Error,
        State::Closed,
    ];
    for (i, state) in states.iter().enumerate() {
        for (j, event) in every_event().into_iter().enumerate() {
            let s = step(state.clone(), event, at(1));
            assert_eq!(s.log.is_some(), i == 1 && (j == 2 || j == 3), "state {} event {}", i, j);
            assert_eq!(matches!(s.action, Action::Report(_)), s.state == State::Error);
            assert_eq!(matches!(s.action, Action::Read), s.state == State::AwaitRequest);
            assert_eq!(matches!(s.action, Action::Close), s.state == State::Closed);
        }
    }
}

#[test]
fn serve_reads_the_clock() {
    let s = serve(opening(Method::Get, Protocol::Http11, b"./h/f"), opened(0o100644));
    match s.action {
        Action::Send(r) => {
            assert_eq!(r.status, 200);
            assert_eq!(r.last_modified, at(1000));
            // After 2020-01-01, and within the second.
            assert!(r.date.sec > 1_577_836_800);
            assert!(0 <= r.date.nsec && r.date.nsec < 1_000_000_000);
        }
        other => panic!("expected an answer, got {:?}", other),
    }
}

#[test]
fn serve_takes_the_same_steps_as_step() {
    let s: Step<Handle> =
        serve(State::AwaitRequest, Event::Request(get(Some(b"Example.COM:8080"), Protocol::Http11, b"/a")));
    assert_eq!(s.action, Action::Open(b"./example.com/a".to_vec()));
    let s: Step<Handle> = serve(State::AwaitRequest, Event::ReadFailed(HttpError::BadRequest));
    assert_eq!(s.state, State::Error);
    let s: Step<Handle> = serve(s.state, Event::Reported);
    assert_eq!(s, closing());
}
