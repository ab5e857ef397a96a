//! The per-connection engine: what each timed-read outcome does to the
//! accumulator and the session, and what the caller must do next.
//!
//! The I/O loop around it stays outside: it performs one timed read, hands
//! the outcome in as a [`ReadEvent`], and obeys the returned [`Action`] —
//! keep reading, send a canned reply, return the capture, or fail. All
//! decisions live here.

use crate::codec::declared_len;
use crate::codec::decode_frame;
use crate::codec::frame_body;
use crate::codec::frame_ready;
use crate::codec::frame_rest;
use crate::codec::Decoded;
use crate::error::HandshakeError;
use crate::session::complete_spec;
use crate::session::handle_frame;
use crate::session::step_spec;
use crate::session::try_complete;
use crate::session::CapturedIdentity;
use crate::session::Reply;
use crate::session::Session;
use crate::session::SessionView;
use crate::session::StepView;
use vstd::prelude::*;

verus! {

/// Seconds a peer may stay silent outside the password stage; also the
/// per-write deadline.
pub const IDLE_TIMEOUT_SECS: u64 = 3;

/// Seconds a peer may take to type a password.
pub const PASSWORD_TIMEOUT_SECS: u64 = 30;

/// What one timed read produced.
pub enum ReadEvent {
    /// Bytes arrived. An empty read means the peer half-closed.
    Data(Vec<u8>),
    /// The read deadline expired.
    TimedOut,
}

/// What the caller must do after feeding one read event in.
pub enum Action {
    /// Keep reading; nothing to send yet.
    Continue,
    /// Send the canned reply, then keep reading.
    Send(Reply),
    /// The handshake completed; return the capture and close.
    Done(CapturedIdentity),
    /// The connection failed; close it without sending anything.
    Fail(HandshakeError),
}

/// The read deadline owed to a stage: peers typing a password get longer,
/// everything else gets the short idle deadline.
pub open spec fn spec_read_timeout_secs(s: SessionView) -> u64 {
    if s is AwaitingPassword {
        PASSWORD_TIMEOUT_SECS
    } else {
        IDLE_TIMEOUT_SECS
    }
}

/// One connection's engine state: the unconsumed bytes and the session.
pub struct Driver {
    acc: Vec<u8>,
    session: Session,
    max_buffer: usize,
}

/// The engine state with the accumulator as a byte sequence and the session
/// as its view.
#[verifier::ext_equal]
pub struct DriverView {
    pub acc: Seq<u8>,
    pub session: SessionView,
    pub max_buffer: nat,
}

impl View for Driver {
    type V = DriverView;

    closed spec fn view(&self) -> DriverView {
        DriverView {
            acc: self.acc@,
            session: self.session@,
            max_buffer: self.max_buffer as nat,
        }
    }
}

impl Driver {
    /// The accumulator stays under the configured cap.
    pub open spec fn wf(&self) -> bool {
        self@.acc.len() < self@.max_buffer
    }

    /// A fresh connection: empty accumulator, initial stage.
    pub fn new(max_buffer: usize) -> (r: Driver)
        requires
            max_buffer >= 1,
        ensures
            r.wf(),
            r@.acc == Seq::<u8>::empty(),
            r@.session == SessionView::InitialConnection,
            r@.max_buffer == max_buffer as nat,
    {
        Driver { acc: Vec::new(), session: Session::InitialConnection, max_buffer }
    }

    /// The deadline for the next read, in seconds.
    pub fn read_timeout_secs(&self) -> (r: u64)
        ensures
            r == spec_read_timeout_secs(self@.session),
    {
        match &self.session {
            Session::AwaitingPassword { .. } => PASSWORD_TIMEOUT_SECS,
            _ => IDLE_TIMEOUT_SECS,
        }
    }

    /// The session as it stands.
    pub fn session(&self) -> (r: &Session)
        ensures
            r@ == self@.session,
    {
        &self.session
    }

    /// How many bytes are buffered but not yet consumed into a frame.
    pub fn buffered_len(&self) -> (r: usize)
        ensures
            r == self@.acc.len(),
    {
        self.acc.len()
    }

    /// Feed one read outcome in and decide what happens next.
    ///
    /// A timed-out read fails with `Timeout` and an empty read with
    /// `EndOfStream`. Arriving bytes join the accumulator; reaching the cap
    /// with no complete frame fails with `BufferOverflow`. If the
    /// accumulator now holds a complete frame, exactly that frame leaves it
    /// and its body goes through the state machine: a violation kills the
    /// connection with no reply, a completed capture is returned, an owed
    /// reply is handed out, and anything else just keeps reading.
    pub fn on_read(&mut self, event: ReadEvent, request_password: bool) -> (r: Action)
        requires
            old(self).wf(),
        ensures
            final(self).wf(),
            final(self)@.max_buffer == old(self)@.max_buffer,
            event is TimedOut ==> r == Action::Fail(HandshakeError::Timeout),
            event matches ReadEvent::Data(d) ==> {
                let a = old(self)@.acc + d@;
                &&& d@.len() == 0 ==> r == Action::Fail(HandshakeError::EndOfStream)
                &&& d@.len() > 0 && a.len() >= old(self)@.max_buffer ==> r == Action::Fail(
                    HandshakeError::BufferOverflow,
                )
                &&& d@.len() > 0 && a.len() < old(self)@.max_buffer ==> {
                    &&& a.len() < 2 ==> r == Action::Continue && final(self)@.acc == a
                        && final(self)@.session == old(self)@.session
                    &&& a.len() >= 2 && declared_len(a) < 3 ==> r == Action::Fail(
                        HandshakeError::ProtocolViolation,
                    )
                    &&& a.len() >= 2 && declared_len(a) >= 3 && a.len() < declared_len(a)
                        ==> r == Action::Continue && final(self)@.acc == a && final(self)@.session
                        == old(self)@.session
                    &&& frame_ready(a) ==> {
                        let step = step_spec(old(self)@.session, frame_body(a), request_password);
                        &&& step is Violation ==> r == Action::Fail(
                            HandshakeError::ProtocolViolation,
                        )
                        &&& step matches StepView::Advance { session: next, reply } ==> {
                            &&& final(self)@.session == next
                            &&& final(self)@.acc == frame_rest(a)
                            &&& match complete_spec(next) {
                                Some(c) => r matches Action::Done(cap) && cap@ == c,
                                None => r == (match reply {
                                    Some(rep) => Action::Send(rep),
                                    None => Action::Continue,
                                }),
                            }
                        }
                    }
                }
            },
    {
        match event {
            ReadEvent::TimedOut => {
                self.acc = Vec::new();
                Action::Fail(HandshakeError::Timeout)
            },
            ReadEvent::Data(mut d) => {
                if d.len() == 0 {
                    self.acc = Vec::new();
                    return Action::Fail(HandshakeError::EndOfStream);
                }
                self.acc.append(&mut d);
                if self.acc.len() >= self.max_buffer {
                    self.acc = Vec::new();
                    return Action::Fail(HandshakeError::BufferOverflow);
                }
                match decode_frame(&mut self.acc) {
                    Decoded::NeedMore => Action::Continue,
                    Decoded::Invalid => {
                        self.acc = Vec::new();
                        Action::Fail(HandshakeError::ProtocolViolation)
                    },
                    Decoded::Frame(body) => {
                        let mut s = Session::InitialConnection;
                        core::mem::swap(&mut s, &mut self.session);
                        match handle_frame(s, &body, request_password) {
                            Err(_) => {
                                self.acc = Vec::new();
                                Action::Fail(HandshakeError::ProtocolViolation)
                            },
                            Ok((next, reply)) => {
                                self.session = next;
                                match try_complete(&self.session) {
                                    Some(c) => Action::Done(c),
                                    None => match reply {
                                        Some(rep) => Action::Send(rep),
                                        None => Action::Continue,
                                    },
                                }
                            },
                        }
                    },
                }
            },
        }
    }
}

} // verus!
