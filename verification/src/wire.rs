//! Field encodings inside a frame body.
//!
//! Every textual field is length-prefixed: one unsigned byte giving a byte
//! count, then that many raw bytes, decoded as UTF-8 with invalid sequences
//! replaced. The handshake signature is such a field that must contain the
//! ASCII marker `"Terraria"`; the bytes after the marker's first occurrence
//! are the client version.

use vstd::prelude::*;

verus! {

/// Whether a length-prefixed byte string can be read at index `i` of `b`:
/// the length byte is present and the declared count of bytes follows it.
pub open spec fn lp_ok(b: Seq<u8>, i: int) -> bool {
    0 <= i < b.len() && i + 1 + b[i] <= b.len()
}

/// The bytes of the length-prefixed string at index `i`.
pub open spec fn lp_bytes(b: Seq<u8>, i: int) -> Seq<u8>
    recommends
        lp_ok(b, i),
{
    b.subrange(i + 1, i + 1 + b[i])
}

/// Read the length-prefixed byte string that starts at index `start`, or
/// nothing if the field would run past the end of `b`.
pub fn read_length_prefixed(b: &Vec<u8>, start: usize) -> (r: Option<Vec<u8>>)
    ensures
        match r {
            Some(s) => lp_ok(b@, start as int) && s@ == lp_bytes(b@, start as int),
            None => !lp_ok(b@, start as int),
        },
{
    if start >= b.len() {
        return None;
    }
    let n = b[start] as usize;
    if b.len() - start - 1 < n {
        return None;
    }
    let mut out: Vec<u8> = Vec::new();
    let mut k: usize = 0;
    while k < n
        invariant
            start + 1 + n <= b@.len(),
            start + 1 + n <= usize::MAX,
            n == b@[start as int],
            k <= n,
            out@.len() == k,
            forall|t: int| 0 <= t < k ==> out@[t] == b@[start + 1 + t],
        decreases n - k,
    {
        out.push(b[start + 1 + k]);
        k += 1;
    }
    proof {
        assert(out@ =~= lp_bytes(b@, start as int));
    }
    Some(out)
}

/// Copy of everything in `b` from index `start` on.
pub fn tail_from(b: &Vec<u8>, start: usize) -> (r: Vec<u8>)
    requires
        start <= b@.len(),
    ensures
        r@ == b@.subrange(start as int, b@.len() as int),
{
    let mut out: Vec<u8> = Vec::new();
    let mut k: usize = start;
    while k < b.len()
        invariant
            start <= k <= b@.len(),
            out@.len() == k - start,
            forall|t: int| 0 <= t < out@.len() ==> out@[t] == b@[start + t],
        decreases b@.len() - k,
    {
        out.push(b[k]);
        k += 1;
    }
    proof {
        assert(out@ =~= b@.subrange(start as int, b@.len() as int));
    }
    out
}

/// The handshake signature marker: the ASCII bytes of `"Terraria"`.
pub open spec fn marker() -> Seq<u8> {
    seq![84u8, 101u8, 114u8, 114u8, 97u8, 114u8, 105u8, 97u8]
}

/// The marker occupies indices `i .. i + 8` of `s`.
pub open spec fn has_marker_at(s: Seq<u8>, i: int) -> bool {
    0 <= i && i + 8 <= s.len() && s.subrange(i, i + 8) == marker()
}

/// The marker occurs somewhere in `s`.
pub open spec fn contains_marker(s: Seq<u8>) -> bool {
    exists|i: int| has_marker_at(s, i)
}

/// `i` is the first index at which the marker occurs in `s`.
pub open spec fn is_first_marker(s: Seq<u8>, i: int) -> bool {
    has_marker_at(s, i) && forall|j: int| 0 <= j < i ==> !has_marker_at(s, j)
}

/// The client version carried by a signature: the bytes after the first
/// occurrence of the marker.
pub open spec fn version_of(s: Seq<u8>) -> Seq<u8>
    recommends
        contains_marker(s),
{
    let i = choose|i: int| is_first_marker(s, i);
    s.subrange(i + 8, s.len() as int)
}

/// The first marker position is unique.
pub proof fn lemma_first_marker_unique(s: Seq<u8>, i: int, j: int)
    requires
        is_first_marker(s, i),
        is_first_marker(s, j),
    ensures
        i == j,
{
    if i < j {
        assert(!has_marker_at(s, i));
    }
    if j < i {
        assert(!has_marker_at(s, j));
    }
}

/// At the first marker position `i`, the extracted version is exactly the
/// suffix of `s` past the marker.
pub proof fn lemma_version_at_first_marker(s: Seq<u8>, i: int)
    requires
        is_first_marker(s, i),
    ensures
        contains_marker(s),
        version_of(s) == s.subrange(i + 8, s.len() as int),
{
    assert(contains_marker(s)) by {
        assert(has_marker_at(s, i));
    }
    let c = choose|c: int| is_first_marker(s, c);
    assert(is_first_marker(s, c)) by {
        assert(is_first_marker(s, i));
    }
    lemma_first_marker_unique(s, c, i);
}

/// For any signature made of a prefix, the marker, and a version suffix,
/// where the marker does not occur inside the prefix part, the extracted
/// version is exactly that suffix.
pub proof fn lemma_version_extraction(pre: Seq<u8>, v: Seq<u8>)
    requires
        forall|j: int| 0 <= j < pre.len() ==> !has_marker_at(pre + marker() + v, j),
    ensures
        contains_marker(pre + marker() + v),
        version_of(pre + marker() + v) == v,
{
    let s = pre + marker() + v;
    let p = pre.len() as int;
    assert(s.subrange(p, p + 8) =~= marker());
    assert(has_marker_at(s, p));
    assert(is_first_marker(s, p));
    lemma_version_at_first_marker(s, p);
    assert(s.subrange(p + 8, s.len() as int) =~= v);
}

/// Whether the marker occupies indices `i .. i + 8` of `s`.
fn marker_at(s: &Vec<u8>, i: usize) -> (r: bool)
    requires
        i + 8 <= s@.len(),
    ensures
        r == has_marker_at(s@, i as int),
{
    let l = s.len();
    assert(i + 8 <= l);
    let r = s[i] == 84 && s[i + 1] == 101 && s[i + 2] == 114 && s[i + 3] == 114 && s[i + 4] == 97
        && s[i + 5] == 114 && s[i + 6] == 105 && s[i + 7] == 97;
    proof {
        let ii = i as int;
        let sub = s@.subrange(ii, ii + 8);
        assert(marker()[0] == 84u8 && marker()[1] == 101u8 && marker()[2] == 114u8 && marker()[3]
            == 114u8 && marker()[4] == 97u8 && marker()[5] == 114u8 && marker()[6] == 105u8
            && marker()[7] == 97u8);
        assert(forall|k: int| 0 <= k < 8 ==> sub[k] == s@[ii + k]);
        if r {
            assert(sub =~= marker());
        } else {
            if has_marker_at(s@, ii) {
                assert(s@[ii] == sub[0] && s@[ii + 1] == sub[1] && s@[ii + 2] == sub[2] && s@[ii
                    + 3] == sub[3] && s@[ii + 4] == sub[4] && s@[ii + 5] == sub[5] && s@[ii + 6]
                    == sub[6] && s@[ii + 7] == sub[7]);
                assert(false);
            }
        }
    }
    r
}

/// Find the first occurrence of the signature marker in `s`.
pub fn find_marker(s: &Vec<u8>) -> (r: Option<usize>)
    ensures
        match r {
            Some(i) => is_first_marker(s@, i as int),
            None => !contains_marker(s@),
        },
{
    if s.len() < 8 {
        proof {
            assert(forall|j: int| !has_marker_at(s@, j));
        }
        return None;
    }
    let n = s.len() - 8;
    let mut i: usize = 0;
    while i <= n
        invariant
            n == s@.len() - 8,
            n <= usize::MAX - 8,
            s@.len() >= 8,
            i <= n + 1,
            forall|j: int| 0 <= j < i ==> !has_marker_at(s@, j),
        decreases n + 1 - i,
    {
        if marker_at(s, i) {
            return Some(i);
        }
        i += 1;
    }
    proof {
        assert(forall|j: int| !has_marker_at(s@, j)) by {
            assert(forall|j: int| j > n ==> !has_marker_at(s@, j));
        }
    }
    None
}

/// What `String::from_utf8_lossy` decodes the bytes `b` to: a pure function
/// of the bytes alone.
pub uninterp spec fn utf8_lossy_of(b: Seq<u8>) -> Seq<char>;

/// Relies on `String::from_utf8_lossy`: decoding is lossy, never an error,
/// and the result depends on the bytes alone.
#[verifier::external_body]
pub(crate) fn utf8_lossy(b: &Vec<u8>) -> (r: String)
    ensures
        r@ == utf8_lossy_of(b@),
{
    String::from_utf8_lossy(b).into_owned()
}

} // verus!
