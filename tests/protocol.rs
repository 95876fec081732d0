use socks5_proxy::codec::{
    decode_handshake, decode_reply, decode_request, decode_user_passwd, encode_reply, AuthError,
    DestinationAddress, RequestError,
};
use socks5_proxy::config::App;
use socks5_proxy::relay::Pipe;
use socks5_proxy::session::{Action, Event, Session, Side, Stage};

fn app() -> App {
    App {
        server: "127.0.0.1".to_string(),
        server_port: 1080,
        local_address: "0.0.0.0".to_string(),
        local_port: 9,
        username: "user".to_string(),
        password: "pass".to_string(),
        timeout: 5,
        method: "user_pass".to_string(),
    }
}

fn sent_to_client(a: Action) -> Vec<u8> {
    match a {
        Action::SendToClient(b) => b,
        other => panic!("expected a reply to the client, got {:?}", other),
    }
}

fn closing_reply(a: Action) -> Vec<u8> {
    match a {
        Action::SendToClientAndClose(b) => b,
        other => panic!("expected a closing reply, got {:?}", other),
    }
}

fn is_close(a: &Action) -> bool {
    matches!(a, Action::Close)
}

/// A session that has passed the greeting and the sub-negotiation.
fn authenticated_session(cfg: &App) -> Session {
    let mut s = Session::new();
    sent_to_client(s.step(cfg, Event::Received(vec![5, 1, 2])));
    sent_to_client(s.step(cfg, Event::Received(b"\x01\x04user\x04pass".to_vec())));
    assert_eq!(s.stage(), Stage::Request);
    s
}

#[test]
fn greeting_with_user_pass_is_accepted() {
    assert!(decode_handshake(&[5, 1, 2]));
    assert!(decode_handshake(&[5, 3, 0, 1, 2]));
}

#[test]
fn greeting_refusals() {
    assert!(!decode_handshake(&[4, 1, 2]));
    assert!(!decode_handshake(&[5, 0]));
    assert!(!decode_handshake(&[5, 2, 0, 1]));
    assert!(!decode_handshake(&[5, 3, 2]));
    assert!(!decode_handshake(&[5]));
    assert!(!decode_handshake(&[]));
}

#[test]
fn bad_greeting_closes_without_reply() {
    let cfg = app();
    for g in [vec![4u8, 1, 2], vec![5, 0], vec![5, 1, 0]] {
        let mut s = Session::new();
        let a = s.step(&cfg, Event::Received(g));
        assert!(is_close(&a));
        assert_eq!(s.stage(), Stage::Closed);
        assert_eq!(s.awaiting(), None);
    }
}

#[test]
fn good_greeting_replies_05_02() {
    let cfg = app();
    let mut s = Session::new();
    assert_eq!(s.awaiting(), Some(Side::Client));
    let a = s.step(&cfg, Event::Received(vec![5, 2, 0, 2]));
    assert_eq!(sent_to_client(a), vec![0x05, 0x02]);
    assert_eq!(s.stage(), Stage::Auth);
}

#[test]
fn sub_negotiation_outcomes() {
    let frame = b"\x01\x04user\x04pass";
    assert_eq!(decode_user_passwd(frame, b"user", b"pass"), Ok(()));
    assert_eq!(decode_user_passwd(frame, b"user", b"pasx"), Err(AuthError::Mismatch));
    assert_eq!(decode_user_passwd(frame, b"users", b"pass"), Err(AuthError::Mismatch));
    assert_eq!(decode_user_passwd(frame, b"user", b"pas"), Err(AuthError::Mismatch));
    assert_eq!(decode_user_passwd(b"\x02\x04user\x04pass", b"user", b"pass"), Err(AuthError::Malformed));
    assert_eq!(decode_user_passwd(b"\x01\x00\x04pass", b"", b"pass"), Err(AuthError::Malformed));
    assert_eq!(decode_user_passwd(b"\x01\x04user\x09pass", b"user", b"pass"), Err(AuthError::Malformed));
    assert_eq!(decode_user_passwd(b"\x01\x04us", b"user", b"pass"), Err(AuthError::Malformed));
}

#[test]
fn correct_credentials_reply_05_00_and_proceed() {
    let cfg = app();
    let mut s = Session::new();
    s.step(&cfg, Event::Received(vec![5, 1, 2]));
    assert!(!s.is_authenticated());
    let a = s.step(&cfg, Event::Received(b"\x01\x04user\x04pass".to_vec()));
    assert_eq!(sent_to_client(a), vec![0x05, 0x00]);
    assert_eq!(s.stage(), Stage::Request);
    assert!(s.is_authenticated());
}

#[test]
fn wrong_credentials_reply_05_ff_and_terminate() {
    let cfg = app();
    let mut s = Session::new();
    s.step(&cfg, Event::Received(vec![5, 1, 2]));
    let a = s.step(&cfg, Event::Received(b"\x01\x04user\x05passw".to_vec()));
    assert_eq!(closing_reply(a), vec![0x05, 0xff]);
    assert_eq!(s.stage(), Stage::Closed);
    assert!(!s.is_authenticated());
    // A request sent anyway is never decoded.
    let a = s.step(&cfg, Event::Received(vec![5, 1, 0, 1, 127, 0, 0, 1, 0, 80]));
    assert!(is_close(&a));
    assert_eq!(s.target(), None);
}

#[test]
fn malformed_sub_negotiation_replies_05_ff() {
    let cfg = app();
    let mut s = Session::new();
    s.step(&cfg, Event::Received(vec![5, 1, 2]));
    let a = s.step(&cfg, Event::Received(vec![1, 0, 4, b'p', b'a', b's', b's']));
    assert_eq!(closing_reply(a), vec![0x05, 0xff]);
    assert_eq!(s.stage(), Stage::Closed);
}

#[test]
fn ipv4_connect_dials_127_0_0_1_port_80() {
    let cfg = app();
    let mut s = authenticated_session(&cfg);
    let a = s.step(&cfg, Event::Received(vec![5, 1, 0, 1, 0x7f, 0, 0, 1, 0x00, 0x50]));
    match a {
        Action::Dial(d) => assert_eq!(d, DestinationAddress::V4 { addr: [127, 0, 0, 1], port: 80 }),
        other => panic!("expected a dial, got {:?}", other),
    }
    assert_eq!(s.stage(), Stage::Dialing);
    assert_eq!(s.awaiting(), None);
}

#[test]
fn ipv6_port_is_read_after_the_address() {
    let mut req = vec![5, 1, 0, 4];
    req.extend_from_slice(&[0x20, 0x01, 0x0d, 0xb8, 0, 0, 0, 0, 0, 0, 0, 0, 0, 0, 0x12, 0x34]);
    req.extend_from_slice(&[0x1f, 0x90]);
    let expected = DestinationAddress::V6 {
        addr: [0x20, 0x01, 0x0d, 0xb8, 0, 0, 0, 0, 0, 0, 0, 0, 0, 0, 0x12, 0x34],
        port: 8080,
    };
    assert_eq!(decode_request(&req), Ok(expected));
    let cfg = app();
    let mut s = authenticated_session(&cfg);
    match s.step(&cfg, Event::Received(req)) {
        Action::Dial(d) => assert_eq!(d, expected),
        other => panic!("expected a dial, got {:?}", other),
    }
}

#[test]
fn other_commands_reply_05_ff_without_dialing() {
    let cfg = app();
    for cmd in [0u8, 2, 3, 0xff] {
        let mut s = authenticated_session(&cfg);
        let a = s.step(&cfg, Event::Received(vec![5, cmd, 0, 1, 127, 0, 0, 1, 0, 80]));
        assert_eq!(closing_reply(a), vec![0x05, 0xff]);
        assert_eq!(s.stage(), Stage::Closed);
        assert_eq!(s.target(), None);
    }
}

#[test]
fn request_errors() {
    assert_eq!(decode_request(&[]), Err(RequestError::Malformed));
    assert_eq!(decode_request(&[4, 1, 0, 1]), Err(RequestError::BadVersion));
    assert_eq!(decode_request(&[5]), Err(RequestError::Malformed));
    assert_eq!(decode_request(&[5, 2, 0, 1]), Err(RequestError::UnsupportedCommand));
    assert_eq!(decode_request(&[5, 1, 0]), Err(RequestError::Malformed));
    assert_eq!(decode_request(&[5, 1, 0, 3, 3, b'a', b'b', b'c', 0, 80]), Err(RequestError::UnsupportedAddressType));
    assert_eq!(decode_request(&[5, 1, 0, 1, 127, 0, 0, 1, 0]), Err(RequestError::Malformed));
    assert_eq!(decode_request(&[5, 1, 0, 4, 0, 0, 0, 0, 0, 0, 0, 0, 0, 80]), Err(RequestError::Malformed));
}

#[test]
fn bad_version_request_replies_05_ff_and_unknown_atyp_closes_silently() {
    let cfg = app();
    let mut s = authenticated_session(&cfg);
    let a = s.step(&cfg, Event::Received(vec![4, 1, 0, 1, 127, 0, 0, 1, 0, 80]));
    assert_eq!(closing_reply(a), vec![0x05, 0xff]);
    let mut s = authenticated_session(&cfg);
    let a = s.step(&cfg, Event::Received(vec![5, 1, 0, 3, 3, b'a', b'b', b'c', 0, 80]));
    assert!(is_close(&a));
}

#[test]
fn dial_failure_closes_without_reply() {
    let cfg = app();
    let mut s = authenticated_session(&cfg);
    s.step(&cfg, Event::Received(vec![5, 1, 0, 1, 10, 0, 0, 1, 0, 22]));
    let a = s.step(&cfg, Event::DialFailed);
    assert!(is_close(&a));
    assert_eq!(s.stage(), Stage::Closed);
}

#[test]
fn reply_encoding_exact_bytes() {
    let v4 = DestinationAddress::V4 { addr: [127, 0, 0, 1], port: 80 };
    assert_eq!(encode_reply(&v4), vec![5, 0, 0, 1, 127, 0, 0, 1, 0, 0x50]);
    let v6 = DestinationAddress::V6 { addr: [0, 0, 0, 0, 0, 0, 0, 0, 0, 0, 0, 0, 0, 0, 0, 1], port: 0x1234 };
    assert_eq!(
        encode_reply(&v6),
        vec![5, 0, 0, 4, 0, 0, 0, 0, 0, 0, 0, 0, 0, 0, 0, 0, 0, 0, 0, 1, 0x12, 0x34]
    );
}

#[test]
fn reply_round_trip() {
    let addrs = [
        DestinationAddress::V4 { addr: [127, 0, 0, 1], port: 80 },
        DestinationAddress::V4 { addr: [255, 255, 255, 255], port: 65535 },
        DestinationAddress::V6 { addr: [0xfe, 0x80, 0, 0, 0, 0, 0, 0, 1, 2, 3, 4, 5, 6, 7, 8], port: 0 },
    ];
    for a in addrs {
        assert_eq!(decode_reply(&encode_reply(&a)), Some(a));
    }
    assert_eq!(decode_reply(&[5, 1, 0, 1, 127, 0, 0, 1, 0, 80]), None);
    assert_eq!(decode_reply(&[5, 0, 0, 1, 127, 0, 0, 1, 0]), None);
}

#[test]
fn end_to_end_scenario() {
    let cfg = app();
    let mut s = Session::new();
    let a = s.step(&cfg, Event::Received(vec![0x05, 0x01, 0x02]));
    assert_eq!(sent_to_client(a), vec![0x05, 0x02]);
    let a = s.step(
        &cfg,
        Event::Received(vec![0x01, 0x04, 0x75, 0x73, 0x65, 0x72, 0x04, 0x70, 0x61, 0x73, 0x73]),
    );
    assert_eq!(sent_to_client(a), vec![0x05, 0x00]);
    let a = s.step(&cfg, Event::Received(vec![0x05, 0x01, 0x00, 0x01, 0x7f, 0x00, 0x00, 0x01, 0x00, 0x50]));
    let dest = match a {
        Action::Dial(d) => d,
        other => panic!("expected a dial, got {:?}", other),
    };
    assert_eq!(dest, DestinationAddress::V4 { addr: [127, 0, 0, 1], port: 80 });
    let a = s.step(&cfg, Event::Dialed(dest));
    assert_eq!(sent_to_client(a), vec![0x05, 0x00, 0x00, 0x01, 0x7f, 0x00, 0x00, 0x01, 0x00, 0x50]);
    assert_eq!(s.awaiting(), Some(Side::Client));
    match s.step(&cfg, Event::Received(b"GET /".to_vec())) {
        Action::SendToDest(b) => assert_eq!(b, b"GET /".to_vec()),
        other => panic!("expected a forward, got {:?}", other),
    }
    assert_eq!(s.awaiting(), Some(Side::Destination));
    assert_eq!(sent_to_client(s.step(&cfg, Event::Received(b"200".to_vec()))), b"200".to_vec());
    assert_eq!(s.awaiting(), Some(Side::Client));
    assert!(is_close(&s.step(&cfg, Event::Eof)));
    assert_eq!(s.stage(), Stage::Closed);
    assert_eq!(s.target(), Some(dest));
}

#[test]
fn pipe_alternates_and_stops_on_empty_read() {
    let mut p = Pipe::new();
    assert_eq!(p.awaiting(), Some(Side::Client));
    assert_eq!(p.step(vec![1, 2]), Some((Side::Destination, vec![1, 2])));
    assert_eq!(p.awaiting(), Some(Side::Destination));
    assert_eq!(p.step(vec![3]), Some((Side::Client, vec![3])));
    assert_eq!(p.awaiting(), Some(Side::Client));
    assert_eq!(p.step(vec![]), None);
    assert_eq!(p.awaiting(), None);
    assert_eq!(p.step(vec![4]), None);
}

#[test]
fn full_addresses() {
    let cfg = app();
    assert_eq!(cfg.full_server(), "127.0.0.1:1080");
    assert_eq!(cfg.full_local(), "0.0.0.0:9");
    let mut other = app();
    other.server_port = 65535;
    other.local_port = 0;
    assert_eq!(other.full_server(), "127.0.0.1:65535");
    assert_eq!(other.full_local(), "0.0.0.0:0");
}
