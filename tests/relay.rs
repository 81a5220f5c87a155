use service_proxy::bridge::{BridgeAction, BridgeEvent, BridgeLoop, BridgeState, BACKOFF_SECS};
use service_proxy::chunk::{
    classify, classify_with, first_line_of, render_ascii, render_hex, Classification,
};
use service_proxy::endpoint::{check_distinct, ConfigError, Endpoint};
use service_proxy::forward::{
    Action, Direction, Failure, Forwarder, Phase, ReadOutcome, BRIDGE_CHUNK_SIZE,
    LISTEN_CHUNK_SIZE,
};
use service_proxy::listen::{on_target_connect, ListenAction, ServiceProxy, SessionStart, CONNECT_TIMEOUT_SECS};
use service_proxy::session::{session_forwarders, session_outcome, DirectionFailure};

fn v4(a: u8, b: u8, c: u8, d: u8, port: u16) -> Endpoint {
    Endpoint::V4 { ip: u32::from_be_bytes([a, b, c, d]), port }
}

#[test]
fn classifies_http_request_line() {
    let c = classify(b"GET /health HTTP/1.1\r\n");
    assert_eq!(c, Classification::Http { first_line: b"GET /health HTTP/1.1".to_vec() });
}

#[test]
fn classifies_http_response_and_post() {
    let c = classify(b"HTTP/1.1 200 OK\r\nContent-Length: 0\r\n\r\n");
    assert_eq!(c, Classification::Http { first_line: b"HTTP/1.1 200 OK".to_vec() });
    let c = classify(b"POST /submit HTTP/1.0\nbody");
    assert_eq!(c, Classification::Http { first_line: b"POST /submit HTTP/1.0".to_vec() });
}

#[test]
fn classifies_query_marker() {
    assert_eq!(classify(b"QUERY select 1"), Classification::QueryLike);
    assert_eq!(classify(&[b'Q', 0xff, 0xfe]), Classification::QueryLike);
}

#[test]
fn binary_chunk_is_unlabelled_and_forwarded_unchanged() {
    let data = vec![0x01u8, 0x02, 0xff];
    assert_eq!(classify(&data), Classification::Unlabelled);
    let mut f = Forwarder::new(Direction::InboundToOutbound, LISTEN_CHUNK_SIZE);
    match f.on_read(ReadOutcome::Data(data.clone())) {
        Action::Write { chunk, report } => {
            assert_eq!(chunk, data);
            assert_eq!(report.byte_count, 3);
            assert_eq!(report.classification, Classification::Unlabelled);
            assert_eq!(report.rendering, b"...".to_vec());
            assert_eq!(report.hex, b"[01, 02, FF]".to_vec());
        }
        _ => panic!("expected a write"),
    }
}

#[test]
fn http_prefix_needs_well_formed_text() {
    assert_eq!(classify(&[b'G', b'E', b'T', b' ', 0xff]), Classification::Unlabelled);
    assert_eq!(classify_with(b"GET / HTTP/1.1", false), Classification::Unlabelled);
    assert_eq!(
        classify_with(b"GET / HTTP/1.1", true),
        Classification::Http { first_line: b"GET / HTTP/1.1".to_vec() }
    );
    assert_eq!(classify(b"GE"), Classification::Unlabelled);
    assert_eq!(classify(b"get / HTTP/1.1"), Classification::Unlabelled);
    assert_eq!(classify(b""), Classification::Unlabelled);
}

#[test]
fn first_line_strips_line_ending() {
    assert_eq!(first_line_of(b"abc\r\ndef"), b"abc".to_vec());
    assert_eq!(first_line_of(b"abc\ndef"), b"abc".to_vec());
    assert_eq!(first_line_of(b"abc"), b"abc".to_vec());
    assert_eq!(first_line_of(b"abc\r"), b"abc\r".to_vec());
    assert_eq!(first_line_of(b"\r\n"), Vec::<u8>::new());
    assert_eq!(first_line_of(b""), Vec::<u8>::new());
}

#[test]
fn rendering_replaces_unprintable_bytes() {
    let data = [0x41u8, 0x00, 0x0a, 0x7f, 0x20, 0x09, 0x0c, 0x0d, 0x0b, 0x7e, 0x80];
    let expected = vec![0x41u8, b'.', 0x0a, b'.', 0x20, 0x09, 0x0c, 0x0d, b'.', 0x7e, b'.'];
    assert_eq!(render_ascii(&data), expected);
    assert_eq!(render_ascii(&[]), Vec::<u8>::new());
}

#[test]
fn forwarder_delivers_chunks_in_order_then_finishes() {
    let mut f = Forwarder::new(Direction::OutboundToInbound, BRIDGE_CHUNK_SIZE);
    assert!(matches!(f.first_action(), Action::Read { max: 1024 }));
    let mut written: Vec<u8> = Vec::new();
    for piece in [b"hello ".to_vec(), b"world".to_vec()] {
        match f.on_read(ReadOutcome::Data(piece.clone())) {
            Action::Write { chunk, report } => {
                assert_eq!(report.byte_count, piece.len());
                written.extend_from_slice(&chunk);
            }
            _ => panic!("expected a write"),
        }
        assert_eq!(f.phase(), Phase::Writing);
        assert!(matches!(f.on_write(true), Action::Read { max: 1024 }));
    }
    assert!(matches!(f.on_read(ReadOutcome::Data(Vec::new())), Action::Finish(Ok(()))));
    assert_eq!(written, b"hello world".to_vec());
    assert_eq!(f.phase(), Phase::Finished);
    assert_eq!(f.direction(), Direction::OutboundToInbound);
}

#[test]
fn finished_forwarder_ignores_later_events() {
    let mut f = Forwarder::new(Direction::InboundToOutbound, LISTEN_CHUNK_SIZE);
    assert!(matches!(f.on_read(ReadOutcome::Data(Vec::new())), Action::Finish(Ok(()))));
    assert!(matches!(f.on_read(ReadOutcome::Data(b"late".to_vec())), Action::Idle));
    assert!(matches!(f.on_write(true), Action::Idle));
    assert!(matches!(f.on_read(ReadOutcome::Error), Action::Idle));
    assert_eq!(f.phase(), Phase::Finished);
}

#[test]
fn read_error_fails_direction() {
    let mut f = Forwarder::new(Direction::InboundToOutbound, LISTEN_CHUNK_SIZE);
    assert!(matches!(f.on_read(ReadOutcome::Error), Action::Finish(Err(Failure::Read))));
    assert_eq!(f.phase(), Phase::Failed(Failure::Read));
}

#[test]
fn write_error_fails_direction() {
    let mut f = Forwarder::new(Direction::InboundToOutbound, LISTEN_CHUNK_SIZE);
    assert!(matches!(f.on_read(ReadOutcome::Data(b"x".to_vec())), Action::Write { .. }));
    assert!(matches!(f.on_write(false), Action::Finish(Err(Failure::Write))));
    assert_eq!(f.phase(), Phase::Failed(Failure::Write));
    assert!(matches!(f.on_write(true), Action::Idle));
}

#[test]
fn other_direction_delivers_after_a_failure() {
    let (mut a, mut b) = session_forwarders(LISTEN_CHUNK_SIZE);
    assert!(matches!(b.on_read(ReadOutcome::Data(b"in flight".to_vec())), Action::Write { .. }));
    assert!(matches!(a.on_read(ReadOutcome::Error), Action::Finish(Err(Failure::Read))));
    assert!(matches!(b.on_write(true), Action::Read { .. }));
    assert!(matches!(b.on_read(ReadOutcome::Data(Vec::new())), Action::Finish(Ok(()))));
    assert_eq!(
        session_outcome(Err(Failure::Read), Ok(())),
        Err(DirectionFailure { direction: Direction::InboundToOutbound, failure: Failure::Read })
    );
}

#[test]
fn session_outcome_reports_first_failure() {
    assert_eq!(session_outcome(Ok(()), Ok(())), Ok(()));
    assert_eq!(
        session_outcome(Ok(()), Err(Failure::Write)),
        Err(DirectionFailure { direction: Direction::OutboundToInbound, failure: Failure::Write })
    );
    assert_eq!(
        session_outcome(Err(Failure::Write), Err(Failure::Read)),
        Err(DirectionFailure { direction: Direction::InboundToOutbound, failure: Failure::Write })
    );
}

#[test]
fn proxy_refuses_same_endpoint() {
    let a = v4(127, 0, 0, 1, 8080);
    assert!(matches!(ServiceProxy::new(a, a), Err(ConfigError::SameEndpoint)));
    assert_eq!(check_distinct(a, a), Err(ConfigError::SameEndpoint));
    let b = v4(127, 0, 0, 1, 8081);
    assert_eq!(check_distinct(a, b), Ok(()));
    let p = ServiceProxy::new(a, b).unwrap();
    assert_eq!(p.listen_addr(), a);
    assert_eq!(p.target_addr(), b);
    let v6 = Endpoint::V6 { ip: 1, port: 8080, flowinfo: 0, scope_id: 0 };
    assert!(ServiceProxy::new(a, v6).is_ok());
    assert!(ServiceProxy::new(v6, v6).is_err());
}

#[test]
fn listen_mode_isolates_sessions() {
    let target = v4(172, 17, 0, 3, 5000);
    let p = ServiceProxy::new(v4(0, 0, 0, 0, 8080), target).unwrap();
    assert_eq!(
        p.on_accept(true),
        ListenAction::StartSession { target, connect_timeout_secs: CONNECT_TIMEOUT_SECS }
    );
    assert!(matches!(on_target_connect(false), SessionStart::Drop));
    assert_eq!(p.on_accept(false), ListenAction::LogAndContinue);
    assert_eq!(
        p.on_accept(true),
        ListenAction::StartSession { target, connect_timeout_secs: 5 }
    );
    match on_target_connect(true) {
        SessionStart::Relay(a, b) => {
            assert_eq!(a.direction(), Direction::InboundToOutbound);
            assert_eq!(b.direction(), Direction::OutboundToInbound);
            assert_eq!(a.phase(), Phase::Reading);
            assert!(matches!(a.first_action(), Action::Read { max: 8192 }));
        }
        SessionStart::Drop => panic!("expected a relay"),
    }
}

#[test]
fn bridge_retries_until_both_connect() {
    let mut l = BridgeLoop::new(v4(10, 0, 0, 1, 1), v4(10, 0, 0, 2, 2)).unwrap();
    assert_eq!(l.state(), BridgeState::Idle);
    assert_eq!(l.start(), BridgeAction::DialBoth);
    for (x, y) in [(false, true), (true, false), (false, false)] {
        assert_eq!(
            l.on_event(BridgeEvent::Dialed { first_ok: x, second_ok: y }),
            BridgeAction::Backoff { secs: BACKOFF_SECS }
        );
        assert_eq!(l.state(), BridgeState::Backoff);
        assert_eq!(l.on_event(BridgeEvent::BackoffElapsed), BridgeAction::DialBoth);
    }
    assert_eq!(
        l.on_event(BridgeEvent::Dialed { first_ok: true, second_ok: true }),
        BridgeAction::Relay { chunk_size: 1024 }
    );
    assert_eq!(l.state(), BridgeState::Relaying);
    assert_eq!(l.on_event(BridgeEvent::BackoffElapsed), BridgeAction::Idle);
    assert_eq!(l.on_event(BridgeEvent::SessionEnded), BridgeAction::DialBoth);
    assert_eq!(l.state(), BridgeState::Dialing);
    assert_eq!(l.start(), BridgeAction::Idle);
}

#[test]
fn bridge_refuses_same_endpoint() {
    let a = v4(10, 0, 0, 1, 1);
    assert!(matches!(BridgeLoop::new(a, a), Err(ConfigError::SameEndpoint)));
    let l = BridgeLoop::new(a, v4(10, 0, 0, 1, 2)).unwrap();
    assert_eq!(l.first(), a);
    assert_eq!(l.second(), v4(10, 0, 0, 1, 2));
}

#[test]
fn hex_dump_matches_debug_format() {
    assert_eq!(render_hex(b"GET"), b"[47, 45, 54]".to_vec());
    assert_eq!(render_hex(&[]), b"[]".to_vec());
    assert_eq!(render_hex(&[0x0a]), b"[0A]".to_vec());
    let data = [0x00u8, 0x9f, 0xff, 0x10];
    assert_eq!(render_hex(&data), format!("{:02X?}", data).into_bytes());
}
