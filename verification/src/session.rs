//! The session state machine.
//!
//! Each completed frame body is dispatched on its packet id and the current
//! stage. Recognized pairs validate the body, capture fields and advance the
//! stage; every other pair is silently absorbed. The moment the session holds
//! both a name and a uuid, the captured identity is owed the caller.

use crate::error::HandshakeError;
use crate::wire::contains_marker;
use crate::wire::find_marker;
use crate::wire::lemma_version_at_first_marker;
use crate::wire::lp_bytes;
use crate::wire::lp_ok;
use crate::wire::read_length_prefixed;
use crate::wire::tail_from;
use crate::wire::utf8_lossy;
use crate::wire::utf8_lossy_of;
use crate::wire::version_of;
use vstd::prelude::*;

verus! {

/// Packet id of the handshake connect request.
pub const CONNECT_REQUEST_ID: u8 = 0x01;

/// Packet id of the password submission.
pub const SEND_PASSWORD_ID: u8 = 0x26;

/// Packet id of the player-info packet that carries the display name.
pub const PLAYER_INFO_ID: u8 = 0x04;

/// Packet id of the client-uuid packet.
pub const CLIENT_UUID_ID: u8 = 0x44;

/// One client's progress through the handshake: a stage with the fields
/// captured so far. Transitions only ever move forward.
#[derive(Debug)]
pub enum Session {
    /// Nothing valid received yet.
    InitialConnection,
    /// The handshake succeeded and a password was requested.
    AwaitingPassword { version: String },
    /// Collecting player details; name and uuid fill independently, in
    /// either order.
    CollectingInfo {
        version: String,
        password: Option<String>,
        name: Option<String>,
        uuid: Option<String>,
    },
}

/// A session with every string as its character sequence.
#[verifier::ext_equal]
pub enum SessionView {
    InitialConnection,
    AwaitingPassword { version: Seq<char> },
    CollectingInfo {
        version: Seq<char>,
        password: Option<Seq<char>>,
        name: Option<Seq<char>>,
        uuid: Option<Seq<char>>,
    },
}

/// The character sequence of an optional string.
pub open spec fn opt_string_view(o: Option<String>) -> Option<Seq<char>> {
    match o {
        Some(s) => Some(s@),
        None => None,
    }
}

impl View for Session {
    type V = SessionView;

    open spec fn view(&self) -> SessionView {
        match *self {
            Session::InitialConnection => SessionView::InitialConnection,
            Session::AwaitingPassword { version } => SessionView::AwaitingPassword {
                version: version@,
            },
            Session::CollectingInfo { version, password, name, uuid } => SessionView::CollectingInfo {
                version: version@,
                password: opt_string_view(password),
                name: opt_string_view(name),
                uuid: opt_string_view(uuid),
            },
        }
    }
}

/// The final harvested record, produced exactly once, the moment both name
/// and uuid are present.
pub struct CapturedIdentity {
    pub version: String,
    pub password: Option<String>,
    pub name: String,
    pub uuid: String,
}

/// The captured record with every string as its character sequence.
#[verifier::ext_equal]
pub struct CapturedView {
    pub version: Seq<char>,
    pub password: Option<Seq<char>>,
    pub name: Seq<char>,
    pub uuid: Seq<char>,
}

impl View for CapturedIdentity {
    type V = CapturedView;

    open spec fn view(&self) -> CapturedView {
        CapturedView {
            version: self.version@,
            password: opt_string_view(self.password),
            name: self.name@,
            uuid: self.uuid@,
        }
    }
}

/// A canned protocol reply; the wire bytes are fixed and never vary.
#[derive(Clone, Copy, Debug, PartialEq, Eq, Structural)]
pub enum Reply {
    /// Ask the peer for a password.
    RequestPassword,
    /// Let the peer continue connecting, as player 0.
    ContinueConnecting,
}

/// The exact wire bytes of a canned reply.
pub open spec fn reply_wire_bytes(r: Reply) -> Seq<u8> {
    match r {
        Reply::RequestPassword => seq![3u8, 0u8, 0x25u8],
        Reply::ContinueConnecting => seq![5u8, 0u8, 3u8, 0u8, 0u8],
    }
}

/// Encode a canned reply, byte-exact.
pub fn reply_bytes(r: Reply) -> (b: Vec<u8>)
    ensures
        b@ == reply_wire_bytes(r),
{
    match r {
        Reply::RequestPassword => {
            let mut v: Vec<u8> = Vec::new();
            v.push(3u8);
            v.push(0u8);
            v.push(0x25u8);
            proof {
                assert(v@ =~= reply_wire_bytes(Reply::RequestPassword));
            }
            v
        },
        Reply::ContinueConnecting => {
            let mut v: Vec<u8> = Vec::new();
            v.push(5u8);
            v.push(0u8);
            v.push(3u8);
            v.push(0u8);
            v.push(0u8);
            proof {
                assert(v@ =~= reply_wire_bytes(Reply::ContinueConnecting));
            }
            v
        },
    }
}

/// The spec-level outcome of dispatching one frame body.
#[verifier::ext_equal]
pub enum StepView {
    /// The session advances (possibly unchanged); a canned reply may be owed.
    Advance { session: SessionView, reply: Option<Reply> },
    /// The frame violates the protocol: the connection dies, no reply is sent.
    Violation,
}

/// A connect request from the initial stage: the signature must hold the
/// marker; the password gate picks which branch the handshake takes.
pub open spec fn connect_request_spec(body: Seq<u8>, request_password: bool) -> StepView {
    if !lp_ok(body, 1) {
        StepView::Violation
    } else {
        let sig = lp_bytes(body, 1);
        if contains_marker(sig) {
            let version = utf8_lossy_of(version_of(sig));
            if request_password {
                StepView::Advance {
                    session: SessionView::AwaitingPassword { version },
                    reply: Some(Reply::RequestPassword),
                }
            } else {
                StepView::Advance {
                    session: SessionView::CollectingInfo {
                        version,
                        password: None,
                        name: None,
                        uuid: None,
                    },
                    reply: Some(Reply::ContinueConnecting),
                }
            }
        } else {
            StepView::Violation
        }
    }
}

/// A password submission while one is awaited.
pub open spec fn send_password_spec(version: Seq<char>, body: Seq<u8>) -> StepView {
    if !lp_ok(body, 1) {
        StepView::Violation
    } else {
        StepView::Advance {
            session: SessionView::CollectingInfo {
                version,
                password: Some(utf8_lossy_of(lp_bytes(body, 1))),
                name: None,
                uuid: None,
            },
            reply: Some(Reply::ContinueConnecting),
        }
    }
}

/// A player-info packet while collecting: three fixed bytes are skipped,
/// then the name is read; trailing bytes are ignored.
pub open spec fn player_info_spec(
    version: Seq<char>,
    password: Option<Seq<char>>,
    name: Option<Seq<char>>,
    uuid: Option<Seq<char>>,
    body: Seq<u8>,
) -> StepView {
    if !lp_ok(body, 4) {
        StepView::Violation
    } else {
        StepView::Advance {
            session: SessionView::CollectingInfo {
                version,
                password,
                name: Some(utf8_lossy_of(lp_bytes(body, 4))),
                uuid,
            },
            reply: None,
        }
    }
}

/// A client-uuid packet while collecting.
pub open spec fn client_uuid_spec(
    version: Seq<char>,
    password: Option<Seq<char>>,
    name: Option<Seq<char>>,
    uuid: Option<Seq<char>>,
    body: Seq<u8>,
) -> StepView {
    if !lp_ok(body, 1) {
        StepView::Violation
    } else {
        StepView::Advance {
            session: SessionView::CollectingInfo {
                version,
                password,
                name,
                uuid: Some(utf8_lossy_of(lp_bytes(body, 1))),
            },
            reply: None,
        }
    }
}

/// What one frame body does to a session: the dispatch table over
/// (packet id, stage). Every unlisted pair is absorbed unchanged.
pub open spec fn step_spec(s: SessionView, body: Seq<u8>, request_password: bool) -> StepView
    recommends
        body.len() >= 1,
{
    match s {
        SessionView::InitialConnection => if body[0] == CONNECT_REQUEST_ID {
            connect_request_spec(body, request_password)
        } else {
            StepView::Advance { session: s, reply: None }
        },
        SessionView::AwaitingPassword { version } => if body[0] == SEND_PASSWORD_ID {
            send_password_spec(version, body)
        } else {
            StepView::Advance { session: s, reply: None }
        },
        SessionView::CollectingInfo { version, password, name, uuid } => if body[0]
            == PLAYER_INFO_ID {
            player_info_spec(version, password, name, uuid, body)
        } else if body[0] == CLIENT_UUID_ID {
            client_uuid_spec(version, password, name, uuid, body)
        } else {
            StepView::Advance { session: s, reply: None }
        },
    }
}

/// The capture owed the caller: present exactly when the session is
/// collecting info with both name and uuid filled.
pub open spec fn complete_spec(s: SessionView) -> Option<CapturedView> {
    match s {
        SessionView::CollectingInfo { version, password, name: Some(name), uuid: Some(uuid) } => Some(
            CapturedView { version, password, name, uuid },
        ),
        _ => None,
    }
}

/// Dispatch one frame body through the state machine.
///
/// The result is exactly what `step_spec` says of the body and stage: either
/// the advanced session with the reply it owes, or a protocol violation.
pub fn handle_frame(session: Session, body: &Vec<u8>, request_password: bool) -> (r: Result<
    (Session, Option<Reply>),
    HandshakeError,
>)
    requires
        body@.len() >= 1,
    ensures
        match r {
            Ok(step) => step_spec(session@, body@, request_password) == (StepView::Advance {
                session: step.0@,
                reply: step.1,
            }),
            Err(e) => e == HandshakeError::ProtocolViolation && step_spec(
                session@,
                body@,
                request_password,
            ) is Violation,
        },
{
    let id = body[0];
    match session {
        Session::InitialConnection => {
            if id == CONNECT_REQUEST_ID {
                match read_length_prefixed(body, 1) {
                    None => Err(HandshakeError::ProtocolViolation),
                    Some(sig) => match find_marker(&sig) {
                        None => Err(HandshakeError::ProtocolViolation),
                        Some(m) => {
                            proof {
                                lemma_version_at_first_marker(sig@, m as int);
                            }
                            let vb = tail_from(&sig, m + 8);
                            let version = utf8_lossy(&vb);
                            if request_password {
                                Ok(
                                    (
                                        Session::AwaitingPassword { version },
                                        Some(Reply::RequestPassword),
                                    ),
                                )
                            } else {
                                Ok(
                                    (
                                        Session::CollectingInfo {
                                            version,
                                            password: None,
                                            name: None,
                                            uuid: None,
                                        },
                                        Some(Reply::ContinueConnecting),
                                    ),
                                )
                            }
                        },
                    },
                }
            } else {
                Ok((Session::InitialConnection, None))
            }
        },
        Session::AwaitingPassword { version } => {
            if id == SEND_PASSWORD_ID {
                match read_length_prefixed(body, 1) {
                    None => Err(HandshakeError::ProtocolViolation),
                    Some(pw) => {
                        let password = utf8_lossy(&pw);
                        Ok(
                            (
                                Session::CollectingInfo {
                                    version,
                                    password: Some(password),
                                    name: None,
                                    uuid: None,
                                },
                                Some(Reply::ContinueConnecting),
                            ),
                        )
                    },
                }
            } else {
                Ok((Session::AwaitingPassword { version }, None))
            }
        },
        Session::CollectingInfo { version, password, name, uuid } => {
            if id == PLAYER_INFO_ID {
                match read_length_prefixed(body, 4) {
                    None => Err(HandshakeError::ProtocolViolation),
                    Some(nb) => {
                        let player_name = utf8_lossy(&nb);
                        Ok(
                            (
                                Session::CollectingInfo {
                                    version,
                                    password,
                                    name: Some(player_name),
                                    uuid,
                                },
                                None,
                            ),
                        )
                    },
                }
            } else if id == CLIENT_UUID_ID {
                match read_length_prefixed(body, 1) {
                    None => Err(HandshakeError::ProtocolViolation),
                    Some(ub) => {
                        let player_uuid = utf8_lossy(&ub);
                        Ok(
                            (
                                Session::CollectingInfo {
                                    version,
                                    password,
                                    name,
                                    uuid: Some(player_uuid),
                                },
                                None,
                            ),
                        )
                    },
                }
            } else {
                Ok((Session::CollectingInfo { version, password, name, uuid }, None))
            }
        },
    }
}

/// The password gate is the whole difference between the two handshake
/// outcomes: for any connect request whose signature holds the marker, a
/// closed gate moves the session straight to collecting info with no
/// password and owes ContinueConnecting, and an open gate moves it to
/// awaiting a password and owes RequestPassword.
pub proof fn lemma_password_gate(body: Seq<u8>, request_password: bool)
    requires
        body.len() >= 1,
        body[0] == CONNECT_REQUEST_ID,
        lp_ok(body, 1),
        contains_marker(lp_bytes(body, 1)),
    ensures
        ({
            let version = utf8_lossy_of(version_of(lp_bytes(body, 1)));
            if request_password {
                step_spec(SessionView::InitialConnection, body, request_password)
                    == (StepView::Advance {
                    session: SessionView::AwaitingPassword { version },
                    reply: Some(Reply::RequestPassword),
                })
            } else {
                step_spec(SessionView::InitialConnection, body, request_password)
                    == (StepView::Advance {
                    session: SessionView::CollectingInfo {
                        version,
                        password: None,
                        name: None,
                        uuid: None,
                    },
                    reply: Some(Reply::ContinueConnecting),
                })
            }
        }),
{
}

/// A frame whose (packet id, stage) pair is not in the dispatch table is
/// absorbed: the session is left exactly as it was and no reply is owed.
pub proof fn lemma_unrecognized_absorbed(s: SessionView, body: Seq<u8>, request_password: bool)
    requires
        body.len() >= 1,
        !(body[0] == CONNECT_REQUEST_ID && s is InitialConnection),
        !(body[0] == SEND_PASSWORD_ID && s is AwaitingPassword),
        !(body[0] == PLAYER_INFO_ID && s is CollectingInfo),
        !(body[0] == CLIENT_UUID_ID && s is CollectingInfo),
    ensures
        step_spec(s, body, request_password) == (StepView::Advance { session: s, reply: None }),
{
}

/// How far along the handshake a stage is.
pub open spec fn stage_rank(s: SessionView) -> int {
    match s {
        SessionView::InitialConnection => 0,
        SessionView::AwaitingPassword { .. } => 1,
        SessionView::CollectingInfo { .. } => 2,
    }
}

/// Transitions are strictly forward: no dispatched frame ever moves the
/// session back to an earlier stage.
pub proof fn lemma_no_regression(s: SessionView, body: Seq<u8>, request_password: bool)
    requires
        body.len() >= 1,
    ensures
        step_spec(s, body, request_password) matches StepView::Advance { session: next, .. }
            ==> stage_rank(next) >= stage_rank(s),
{
}

/// Emit the captured identity exactly when both name and uuid are present.
pub fn try_complete(session: &Session) -> (r: Option<CapturedIdentity>)
    ensures
        match r {
            Some(c) => complete_spec(session@) == Some(c@),
            None => complete_spec(session@) is None,
        },
{
    match session {
        Session::CollectingInfo { version, password, name: Some(name), uuid: Some(uuid) } => {
            let pw = match password {
                Some(p) => Some(p.clone()),
                None => None,
            };
            Some(
                CapturedIdentity {
                    version: version.clone(),
                    password: pw,
                    name: name.clone(),
                    uuid: uuid.clone(),
                },
            )
        },
        _ => None,
    }
}

} // verus!
