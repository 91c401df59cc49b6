use h2client::{
    check_alpn, h2_alpn_id, parse_url, read_outcome, resolve_parts, select_transport, ClientError,
    Phase, PumpAction, ReadOutcome, Session, Target, Tracker, TransportKind, UrlParts,
    DEFAULT_TIMEOUT_MS,
};

fn running_session(url: &str, now: u64) -> Session {
    let mut s = Session::new(url, DEFAULT_TIMEOUT_MS).unwrap();
    let negotiated: Option<&[u8]> = match s.transport() {
        TransportKind::Plain => None,
        TransportKind::Tls => Some(b"h2"),
    };
    s.connected(negotiated).unwrap();
    s.submit_request(now).unwrap();
    s
}

fn target_of(url: &str) -> Target {
    parse_url(url).unwrap()
}

#[test]
fn parse_https_defaults() {
    let t = target_of("https://example.com");
    assert_eq!(t.scheme, "https");
    assert_eq!(t.host, "example.com");
    assert_eq!(t.path, "/");
    assert_eq!(t.port, 443);
}

#[test]
fn parse_http_explicit_port_and_path() {
    let t = target_of("http://example.com:8080/a/b?q=1#frag");
    assert_eq!(t.scheme, "http");
    assert_eq!(t.host, "example.com");
    assert_eq!(t.path, "/a/b");
    assert_eq!(t.port, 8080);
}

#[test]
fn parse_http_default_port() {
    let t = target_of("http://nghttp2.org/index.html");
    assert_eq!(t.port, 80);
    assert_eq!(t.path, "/index.html");
}

#[test]
fn parse_unknown_scheme_with_port_gets_root_path() {
    let t = target_of("foo://example.com:99");
    assert_eq!(t.scheme, "foo");
    assert_eq!(t.path, "/");
    assert_eq!(t.port, 99);
}

#[test]
fn parse_errors() {
    assert_eq!(parse_url("not a url").err(), Some(ClientError::UrlError));
    assert_eq!(parse_url("unix:/run/foo.socket").err(), Some(ClientError::UrlError));
    assert_eq!(parse_url("foo://example.com").err(), Some(ClientError::UrlError));
}

#[test]
fn resolve_parts_rules() {
    let t = resolve_parts(UrlParts {
        scheme: "http".to_string(),
        host: Some("h".to_string()),
        path: String::new(),
        port: Some(1),
    })
    .unwrap();
    assert_eq!(t.path, "/");
    assert_eq!(t.host, "h");
    assert_eq!(t.port, 1);
    let kept = resolve_parts(UrlParts {
        scheme: "http".to_string(),
        host: Some("h".to_string()),
        path: "/x".to_string(),
        port: Some(2),
    })
    .unwrap();
    assert_eq!(kept.path, "/x");
    let no_host = resolve_parts(UrlParts {
        scheme: "http".to_string(),
        host: None,
        path: "/".to_string(),
        port: Some(80),
    });
    assert_eq!(no_host.err(), Some(ClientError::UrlError));
    let no_port = resolve_parts(UrlParts {
        scheme: "foo".to_string(),
        host: Some("h".to_string()),
        path: "/".to_string(),
        port: None,
    });
    assert_eq!(no_port.err(), Some(ClientError::UrlError));
}

#[test]
fn transport_selection() {
    assert_eq!(select_transport("http"), Ok(TransportKind::Plain));
    assert_eq!(select_transport("https"), Ok(TransportKind::Tls));
    assert_eq!(select_transport("ftp"), Err(ClientError::UnsupportedScheme));
    assert_eq!(select_transport(""), Err(ClientError::UnsupportedScheme));
}

#[test]
fn session_rejects_unsupported_scheme() {
    assert_eq!(
        Session::new("ftp://example.com/", DEFAULT_TIMEOUT_MS).err(),
        Some(ClientError::UnsupportedScheme)
    );
    assert_eq!(
        Session::new("nonsense", DEFAULT_TIMEOUT_MS).err(),
        Some(ClientError::UrlError)
    );
}

#[test]
fn alpn_check() {
    assert_eq!(h2_alpn_id(), b"h2".to_vec());
    assert_eq!(check_alpn(Some(b"h2")), Ok(()));
    assert_eq!(check_alpn(Some(b"http/1.1")), Err(ClientError::AlpnMismatch));
    assert_eq!(check_alpn(Some(b"h")), Err(ClientError::AlpnMismatch));
    assert_eq!(check_alpn(Some(b"h2c")), Err(ClientError::AlpnMismatch));
    assert_eq!(check_alpn(None), Err(ClientError::AlpnMismatch));
}

#[test]
fn request_headers_in_order() {
    let mut s = Session::new("https://example.com:8443/a?b", DEFAULT_TIMEOUT_MS).unwrap();
    assert_eq!(s.phase(), Phase::Connecting);
    assert!(s.submit_request(0).is_none());
    s.connected(Some(b"h2")).unwrap();
    assert_eq!(s.phase(), Phase::Ready);
    let h = s.submit_request(100).unwrap();
    let pairs: Vec<(String, String)> = h.into_iter().map(|f| (f.name, f.value)).collect();
    assert_eq!(
        pairs,
        vec![
            (":method".to_string(), "GET".to_string()),
            (":scheme".to_string(), "https".to_string()),
            (":authority".to_string(), "example.com".to_string()),
            (":path".to_string(), "/a".to_string()),
        ]
    );
    assert_eq!(s.phase(), Phase::Running);
    assert_eq!(s.deadline(), 100 + DEFAULT_TIMEOUT_MS);
    assert!(s.submit_request(200).is_none());
}

#[test]
fn scenario_plain_hello() {
    let mut s = running_session("http://example.com/", 0);
    assert_eq!(s.pump_step(1), PumpAction::Read);
    s.on_data_chunk(1, b"hello");
    assert_eq!(s.pump_step(2), PumpAction::Read);
    s.on_stream_close(1, 0);
    assert_eq!(s.pump_step(3), PumpAction::Complete);
    assert_eq!(s.phase(), Phase::Complete);
    assert_eq!(s.data(), Some("hello".to_string()));
    assert_eq!(s.stream_count(), 1);
    assert_eq!(s.stream_state(1), Some(true));
    assert_eq!(s.pump_step(4), PumpAction::Stop);
}

#[test]
fn scenario_tls_alpn_mismatch() {
    let mut s = Session::new("https://example.com/", DEFAULT_TIMEOUT_MS).unwrap();
    assert_eq!(s.transport(), TransportKind::Tls);
    assert_eq!(s.connected(Some(b"http/1.1")), Err(ClientError::AlpnMismatch));
    assert_eq!(s.phase(), Phase::Failed(ClientError::AlpnMismatch));
    assert!(s.submit_request(0).is_none());
    assert_eq!(s.pump_step(0), PumpAction::Stop);
}

#[test]
fn tls_without_negotiation_fails() {
    let mut s = Session::new("https://example.com/", DEFAULT_TIMEOUT_MS).unwrap();
    assert_eq!(s.connected(None), Err(ClientError::AlpnMismatch));
    assert!(s.submit_request(0).is_none());
}

#[test]
fn scenario_timeout_without_bytes() {
    let mut s = running_session("http://example.com/", 1_000);
    assert_eq!(read_outcome(0), ReadOutcome::Retry);
    assert_eq!(s.pump_step(5_000), PumpAction::Read);
    assert_eq!(s.pump_step(10_999), PumpAction::Read);
    assert_eq!(s.pump_step(11_000), PumpAction::TimedOut);
    assert_eq!(s.phase(), Phase::TimedOut);
    assert_eq!(s.data(), None);
}

#[test]
fn empty_tracker_never_all_closed() {
    let t = Tracker::new();
    assert!(!t.all_closed());
    let mut s = running_session("http://example.com/", 0);
    s.on_stream_close(1, 0);
    assert_eq!(s.stream_count(), 0);
    assert_eq!(s.pump_step(1), PumpAction::Read);
}

#[test]
fn tracker_grows_and_flips_forward() {
    let mut t = Tracker::new();
    t.on_data(3);
    t.on_data(5);
    t.on_data(3);
    assert_eq!(t.len(), 2);
    assert_eq!(t.get(3), Some(false));
    assert!(!t.all_closed());
    t.on_close(3);
    assert_eq!(t.get(3), Some(true));
    assert!(!t.all_closed());
    t.on_close(7);
    assert_eq!(t.get(7), None);
    assert_eq!(t.len(), 2);
    t.on_close(5);
    t.on_data(5);
    assert_eq!(t.get(5), Some(true));
    assert!(t.all_closed());
}

#[test]
fn zero_byte_read_is_retry() {
    assert_eq!(read_outcome(0), ReadOutcome::Retry);
    assert_eq!(read_outcome(1), ReadOutcome::Feed);
    assert_eq!(read_outcome(8192), ReadOutcome::Feed);
}

#[test]
fn empty_chunk_keeps_body() {
    let mut s = running_session("http://example.com/", 0);
    s.on_data_chunk(1, b"ab");
    s.on_data_chunk(1, b"");
    assert_eq!(s.body_len(), 2);
    assert_eq!(s.stream_count(), 1);
}

#[test]
fn body_is_decoded_lossily() {
    let mut s = running_session("http://example.com/", 0);
    s.on_data_chunk(1, &[0x68, 0x69, 0xff]);
    s.on_stream_close(1, 0);
    assert_eq!(s.pump_step(1), PumpAction::Complete);
    assert_eq!(s.data(), Some("hi\u{FFFD}".to_string()));
}

#[test]
fn two_streams_must_both_close() {
    let mut s = running_session("http://example.com/", 0);
    s.on_data_chunk(1, b"a");
    s.on_data_chunk(3, b"b");
    s.on_stream_close(1, 0);
    assert_eq!(s.pump_step(1), PumpAction::Read);
    s.on_stream_close(3, 2);
    assert_eq!(s.pump_step(2), PumpAction::Complete);
    assert_eq!(s.data(), Some("ab".to_string()));
}

#[test]
fn cleanup_once_after_complete() {
    let mut s = running_session("http://example.com/", 0);
    s.on_data_chunk(1, b"hello");
    s.on_stream_close(1, 0);
    assert_eq!(s.pump_step(1), PumpAction::Complete);
    assert!(s.begin_cleanup());
    assert!(!s.begin_cleanup());
    assert!(!s.begin_cleanup());
    assert_eq!(s.body_len(), 0);
    assert_eq!(s.data(), Some("hello".to_string()));
    assert_eq!(s.phase(), Phase::Complete);
}

#[test]
fn cleanup_once_after_timeout_and_failure() {
    let mut timed_out = running_session("http://example.com/", 0);
    assert_eq!(timed_out.pump_step(DEFAULT_TIMEOUT_MS), PumpAction::TimedOut);
    assert!(timed_out.begin_cleanup());
    assert!(!timed_out.begin_cleanup());

    let mut failed = Session::new("https://example.com/", DEFAULT_TIMEOUT_MS).unwrap();
    failed.fail(ClientError::ConnectError);
    assert_eq!(failed.phase(), Phase::Failed(ClientError::ConnectError));
    assert!(failed.begin_cleanup());
    assert!(!failed.begin_cleanup());
}

#[test]
fn fail_keeps_final_phase() {
    let mut s = running_session("http://example.com/", 0);
    s.fail(ClientError::WriteFailure);
    assert_eq!(s.phase(), Phase::Failed(ClientError::WriteFailure));
    s.fail(ClientError::EngineInitError);
    assert_eq!(s.phase(), Phase::Failed(ClientError::WriteFailure));
    let mut t = running_session("http://example.com/", 0);
    assert_eq!(t.pump_step(DEFAULT_TIMEOUT_MS + 1), PumpAction::TimedOut);
    t.fail(ClientError::CertStoreError);
    assert_eq!(t.phase(), Phase::TimedOut);
}

#[test]
fn deadline_saturates() {
    let mut s = Session::new("http://example.com/", u64::MAX).unwrap();
    s.connected(None).unwrap();
    s.submit_request(5).unwrap();
    assert_eq!(s.deadline(), u64::MAX);
    assert_eq!(s.pump_step(u64::MAX - 1), PumpAction::Read);
}

#[test]
fn session_accessors() {
    let s = Session::new("http://example.com:81/p", 7).unwrap();
    assert_eq!(s.url(), "http://example.com:81/p");
    assert_eq!(s.scheme(), "http");
    assert_eq!(s.host(), "example.com");
    assert_eq!(s.path(), "/p");
    assert_eq!(s.port(), 81);
    assert_eq!(s.transport(), TransportKind::Plain);
    assert_eq!(s.data(), None);
}
