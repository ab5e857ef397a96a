//! The protocol engine of a small game-protocol honeypot: it speaks just
//! enough of the early handshake of a proprietary game protocol to harvest a
//! connecting client's version, optional password, display name and client
//! identifier, then ends the session.
//!
//! The engine is pure decision logic over bytes: [`codec`] cuts the raw
//! stream into length-prefixed frames, [`session`] dispatches each frame
//! body through the handshake's stages, and [`driver`] ties both to the
//! outcomes of timed reads. Sockets, deadlines and randomness live with the
//! caller, which feeds read outcomes in and obeys the actions that come
//! back.

pub mod codec;
pub mod driver;
pub mod error;
pub mod session;
pub mod wire;
