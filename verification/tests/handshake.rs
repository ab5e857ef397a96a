//! End-to-end handshake scenarios driven through the connection engine.

use bottled_honey::driver::{Action, Driver, ReadEvent};
use bottled_honey::error::HandshakeError;
use bottled_honey::session::{reply_bytes, CapturedIdentity, Reply, Session};

fn frame(body: &[u8]) -> Vec<u8> {
    let total = body.len() + 2;
    let mut v = vec![(total & 0xFF) as u8, (total >> 8) as u8];
    v.extend_from_slice(body);
    v
}

fn lp(s: &[u8]) -> Vec<u8> {
    let mut v = vec![s.len() as u8];
    v.extend_from_slice(s);
    v
}

fn connect_body(sig: &str) -> Vec<u8> {
    let mut b = vec![0x01u8];
    b.extend(lp(sig.as_bytes()));
    b
}

fn password_body(pw: &str) -> Vec<u8> {
    let mut b = vec![0x26u8];
    b.extend(lp(pw.as_bytes()));
    b
}

fn player_info_body(name: &[u8]) -> Vec<u8> {
    let mut b = vec![0x04u8, 0, 0, 0];
    b.extend(lp(name));
    b
}

fn client_uuid_body(uuid: &str) -> Vec<u8> {
    let mut b = vec![0x44u8];
    b.extend(lp(uuid.as_bytes()));
    b
}

fn expect_send(action: Action) -> Reply {
    match action {
        Action::Send(r) => r,
        _ => panic!("expected a reply to send"),
    }
}

fn expect_done(action: Action) -> CapturedIdentity {
    match action {
        Action::Done(c) => c,
        _ => panic!("expected a completed capture"),
    }
}

fn expect_fail(action: Action) -> HandshakeError {
    match action {
        Action::Fail(e) => e,
        _ => panic!("expected a failure"),
    }
}

#[test]
fn full_handshake_without_password() {
    let mut d = Driver::new(5120);
    let r = d.on_read(ReadEvent::Data(frame(&connect_body("XTerraria246"))), false);
    let reply = expect_send(r);
    assert_eq!(reply, Reply::ContinueConnecting);
    assert_eq!(reply_bytes(reply), vec![0x05, 0x00, 0x03, 0x00, 0x00]);

    let r = d.on_read(ReadEvent::Data(frame(&player_info_body(b"Bob"))), false);
    assert!(matches!(r, Action::Continue));

    let r = d.on_read(ReadEvent::Data(frame(&client_uuid_body("abc-123"))), false);
    let c = expect_done(r);
    assert_eq!(c.version, "246");
    assert_eq!(c.password, None);
    assert_eq!(c.name, "Bob");
    assert_eq!(c.uuid, "abc-123");
}

#[test]
fn full_handshake_with_password() {
    let mut d = Driver::new(5120);
    let r = d.on_read(ReadEvent::Data(frame(&connect_body("XTerraria246"))), true);
    let reply = expect_send(r);
    assert_eq!(reply, Reply::RequestPassword);
    assert_eq!(reply_bytes(reply), vec![0x03, 0x00, 0x25]);

    let r = d.on_read(ReadEvent::Data(frame(&password_body("hunter2"))), true);
    assert_eq!(expect_send(r), Reply::ContinueConnecting);

    let r = d.on_read(ReadEvent::Data(frame(&player_info_body(b"Alice"))), true);
    assert!(matches!(r, Action::Continue));

    let r = d.on_read(ReadEvent::Data(frame(&client_uuid_body("u-1"))), true);
    let c = expect_done(r);
    assert_eq!(c.version, "246");
    assert_eq!(c.password.as_deref(), Some("hunter2"));
    assert_eq!(c.name, "Alice");
    assert_eq!(c.uuid, "u-1");
}

#[test]
fn name_and_uuid_fill_in_either_order() {
    let mut d = Driver::new(5120);
    d.on_read(ReadEvent::Data(frame(&connect_body("Terraria1.4"))), false);
    let r = d.on_read(ReadEvent::Data(frame(&client_uuid_body("u-2"))), false);
    assert!(matches!(r, Action::Continue));
    let r = d.on_read(ReadEvent::Data(frame(&player_info_body(b"Carol"))), false);
    let c = expect_done(r);
    assert_eq!(c.version, "1.4");
    assert_eq!(c.name, "Carol");
    assert_eq!(c.uuid, "u-2");
}

#[test]
fn bad_signature_fails_without_reply() {
    let mut d = Driver::new(5120);
    let r = d.on_read(ReadEvent::Data(frame(&connect_body("NotTheGame"))), false);
    assert_eq!(expect_fail(r), HandshakeError::ProtocolViolation);
}

#[test]
fn fragmented_frame_decodes_like_one_read() {
    let whole = frame(&connect_body("XTerraria246"));

    let mut one_shot = Driver::new(5120);
    let expected = expect_send(one_shot.on_read(ReadEvent::Data(whole.clone()), false));

    let mut trickled = Driver::new(5120);
    let mut last = None;
    for (i, byte) in whole.iter().enumerate() {
        let r = trickled.on_read(ReadEvent::Data(vec![*byte]), false);
        if i + 1 < whole.len() {
            assert!(matches!(r, Action::Continue));
        } else {
            last = Some(r);
        }
    }
    assert_eq!(expect_send(last.unwrap()), expected);
}

#[test]
fn buffer_overflow_on_cap_without_frame() {
    let mut d = Driver::new(16);
    let r = d.on_read(ReadEvent::Data(vec![0xFF; 8]), false);
    assert!(matches!(r, Action::Continue));
    let r = d.on_read(ReadEvent::Data(vec![0xFF; 8]), false);
    assert_eq!(expect_fail(r), HandshakeError::BufferOverflow);
}

#[test]
fn read_timeout_fails_connection() {
    let mut d = Driver::new(5120);
    let r = d.on_read(ReadEvent::TimedOut, false);
    assert_eq!(expect_fail(r), HandshakeError::Timeout);
}

#[test]
fn password_stage_gets_longer_deadline() {
    let mut d = Driver::new(5120);
    assert_eq!(d.read_timeout_secs(), 3);
    d.on_read(ReadEvent::Data(frame(&connect_body("Terraria9"))), true);
    assert_eq!(d.read_timeout_secs(), 30);
    d.on_read(ReadEvent::Data(frame(&password_body("pw"))), true);
    assert_eq!(d.read_timeout_secs(), 3);
}

#[test]
fn empty_read_is_end_of_stream() {
    let mut d = Driver::new(5120);
    let r = d.on_read(ReadEvent::Data(Vec::new()), false);
    assert_eq!(expect_fail(r), HandshakeError::EndOfStream);
}

#[test]
fn unrecognized_id_consumed_session_unchanged() {
    let mut d = Driver::new(5120);
    let mut data = frame(&[0x2Au8, 7, 7]);
    data.extend_from_slice(&[0xAB, 0xCD]);
    let r = d.on_read(ReadEvent::Data(data), false);
    assert!(matches!(r, Action::Continue));
    assert!(matches!(d.session(), Session::InitialConnection));
    assert_eq!(d.buffered_len(), 2);
}

#[test]
fn handshake_survives_unrecognized_frames() {
    let mut d = Driver::new(5120);
    d.on_read(ReadEvent::Data(frame(&connect_body("Terraria246"))), false);
    let r = d.on_read(ReadEvent::Data(frame(&[0x26u8, 2, b'h', b'i'])), false);
    assert!(matches!(r, Action::Continue));
    d.on_read(ReadEvent::Data(frame(&player_info_body(b"Bob"))), false);
    let c = expect_done(d.on_read(ReadEvent::Data(frame(&client_uuid_body("u"))), false));
    assert_eq!(c.password, None);
    assert_eq!(c.name, "Bob");
}

#[test]
fn frames_dispatch_in_arrival_order() {
    let mut d = Driver::new(5120);
    let mut data = frame(&connect_body("Terraria7"));
    data.extend_from_slice(&frame(&client_uuid_body("first")));
    let r = d.on_read(ReadEvent::Data(data), false);
    assert_eq!(expect_send(r), Reply::ContinueConnecting);

    let r = d.on_read(ReadEvent::Data(frame(&player_info_body(b"Dan"))), false);
    assert!(matches!(r, Action::Continue));
    match d.session() {
        Session::CollectingInfo { uuid, .. } => assert_eq!(uuid.as_deref(), Some("first")),
        _ => panic!("expected the collecting stage"),
    }

    let c = expect_done(d.on_read(ReadEvent::Data(vec![0x00]), false));
    assert_eq!(c.name, "Dan");
    assert_eq!(c.uuid, "first");
}

#[test]
fn short_declared_length_is_violation() {
    let mut d = Driver::new(5120);
    let r = d.on_read(ReadEvent::Data(vec![0x02, 0x00]), false);
    assert_eq!(expect_fail(r), HandshakeError::ProtocolViolation);
}

#[test]
fn truncated_signature_is_violation() {
    let mut d = Driver::new(5120);
    let r = d.on_read(ReadEvent::Data(frame(&[0x01u8, 200])), false);
    assert_eq!(expect_fail(r), HandshakeError::ProtocolViolation);
}

#[test]
fn invalid_utf8_fields_decode_lossily() {
    let mut d = Driver::new(5120);
    d.on_read(ReadEvent::Data(frame(&connect_body("Terraria1"))), false);
    d.on_read(ReadEvent::Data(frame(&player_info_body(&[0xFF, b'b']))), false);
    let c = expect_done(d.on_read(ReadEvent::Data(frame(&client_uuid_body("u"))), false));
    assert_eq!(c.name, "\u{FFFD}b");
}
