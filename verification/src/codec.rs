//! Frame decoding: turning the raw-byte accumulator into discrete
//! length-prefixed frames.
//!
//! On the wire a frame is a little-endian `u16` length prefix (which counts
//! itself) followed by the frame body. The smallest legal declared length is
//! 3: two prefix bytes plus one packet-id byte.

use vstd::prelude::*;

verus! {

/// The little-endian 16-bit value encoded by two bytes.
pub open spec fn u16_le(lo: u8, hi: u8) -> int {
    lo + 256 * hi
}

/// The frame length declared by the accumulator's two-byte prefix
/// (the declared length counts the prefix itself).
pub open spec fn declared_len(acc: Seq<u8>) -> int
    recommends
        acc.len() >= 2,
{
    u16_le(acc[0], acc[1])
}

/// A complete frame is buffered: the prefix is present, the declared length
/// is at least the minimum (the prefix plus one id byte), and at least that
/// many bytes are buffered.
pub open spec fn frame_ready(acc: Seq<u8>) -> bool {
    &&& acc.len() >= 2
    &&& declared_len(acc) >= 3
    &&& acc.len() >= declared_len(acc)
}

/// The body of the buffered frame: everything past the length prefix, up to
/// the declared length.
pub open spec fn frame_body(acc: Seq<u8>) -> Seq<u8>
    recommends
        frame_ready(acc),
{
    acc.subrange(2, declared_len(acc))
}

/// What stays buffered once the frame's prefix and body are consumed.
pub open spec fn frame_rest(acc: Seq<u8>) -> Seq<u8>
    recommends
        frame_ready(acc),
{
    acc.subrange(declared_len(acc), acc.len() as int)
}

/// Frame decoding is invariant to fragmentation: what is decoded depends
/// only on the bytes accumulated so far, never on how they arrived. In
/// whatever way a byte sequence is cut into reads, every accumulator state
/// short of the declared length has no frame ready — so nothing is consumed
/// from it — and every state at or past the declared length yields exactly
/// the frame of the full sequence.
pub proof fn lemma_fragmentation(total: Seq<u8>, cut: int)
    requires
        total.len() >= 2,
        declared_len(total) >= 3,
        0 <= cut <= total.len(),
    ensures
        cut < declared_len(total) ==> !frame_ready(total.subrange(0, cut)),
        cut >= declared_len(total) ==> frame_ready(total) && frame_ready(total.subrange(0, cut))
            && frame_body(total.subrange(0, cut)) == frame_body(total),
{
    let p = total.subrange(0, cut);
    if cut >= 2 {
        assert(p[0] == total[0] && p[1] == total[1]);
        if cut >= declared_len(total) {
            assert(p.subrange(2, declared_len(p)) =~= total.subrange(2, declared_len(total)));
        }
    }
}

/// The outcome of one decode attempt.
pub enum Decoded {
    /// Too few bytes are buffered to produce a frame; nothing was consumed.
    NeedMore,
    /// The declared length is below the minimum a frame can have.
    Invalid,
    /// One complete frame body; its prefix and body left the accumulator.
    Frame(Vec<u8>),
}

/// Attempt to extract one complete frame from the accumulator.
///
/// A partial frame is never consumed: until the whole declared length is
/// buffered the accumulator is left exactly as it was, so the prefix is
/// simply re-read on the next attempt.
pub fn decode_frame(acc: &mut Vec<u8>) -> (r: Decoded)
    ensures
        old(acc)@.len() < 2 ==> r is NeedMore && final(acc)@ == old(acc)@,
        old(acc)@.len() >= 2 && declared_len(old(acc)@) < 3 ==> r is Invalid && final(acc)@ == old(
            acc,
        )@,
        old(acc)@.len() >= 2 && declared_len(old(acc)@) >= 3 && old(acc)@.len() < declared_len(
            old(acc)@,
        ) ==> r is NeedMore && final(acc)@ == old(acc)@,
        frame_ready(old(acc)@) ==> (match r {
            Decoded::Frame(body) => body@ == frame_body(old(acc)@) && final(acc)@ == frame_rest(
                old(acc)@,
            ),
            _ => false,
        }),
{
    if acc.len() < 2 {
        return Decoded::NeedMore;
    }
    let lo = acc[0];
    let hi = acc[1];
    let declared: usize = (lo as usize) + 256 * (hi as usize);
    if declared < 3 {
        return Decoded::Invalid;
    }
    if acc.len() < declared {
        return Decoded::NeedMore;
    }
    let mut body: Vec<u8> = Vec::new();
    let mut i: usize = 2;
    while i < declared
        invariant
            2 <= i <= declared,
            declared <= acc@.len(),
            acc@ == old(acc)@,
            body@ == acc@.subrange(2, i as int),
        decreases declared - i,
    {
        body.push(acc[i]);
        i += 1;
    }
    let mut rest: Vec<u8> = Vec::new();
    let mut j: usize = declared;
    while j < acc.len()
        invariant
            declared <= j <= acc@.len(),
            acc@ == old(acc)@,
            rest@ == acc@.subrange(declared as int, j as int),
        decreases acc@.len() - j,
    {
        rest.push(acc[j]);
        j += 1;
    }
    *acc = rest;
    Decoded::Frame(body)
}

} // verus!
