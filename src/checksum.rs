//! The ones'-complement segment checksum over a pseudo-header, the header and
//! the payload.
use vstd::prelude::*;

use crate::error::TcpError;

verus! {

/// The number of bytes of a header without options.
pub const HEADER_LEN: usize = 20;

/// The protocol number that the pseudo-header carries.
pub const PROTOCOL_TCP: u32 = 6;

/// The sum of the big-endian 16-bit words of `s`; a last odd byte counts as
/// the high byte of a word whose low byte is zero.
pub open spec fn word_sum(s: Seq<u8>) -> nat
    decreases s.len(),
{
    if s.len() == 0 {
        0
    } else if s.len() % 2 == 1 {
        (word_sum(s.drop_last()) + s.last() * 256) as nat
    } else {
        (word_sum(s.subrange(0, s.len() - 2)) + s[s.len() - 2] * 256 + s.last()) as nat
    }
}

/// Adds the bits above the low sixteen back into the low sixteen until none
/// are left.
pub open spec fn fold_carries(s: nat) -> nat
    decreases s,
{
    if s < 0x10000 {
        s
    } else {
        fold_carries((s % 0x10000 + s / 0x10000) as nat)
    }
}

/// The sum of the pseudo-header's words: both addresses, the protocol number
/// and the segment length.
pub open spec fn pseudo_header_sum(src: Seq<u8>, dst: Seq<u8>, length: nat) -> nat {
    (word_sum(src) + word_sum(dst) + PROTOCOL_TCP + length) as nat
}

/// The complement of the folded sum of the pseudo-header (with `length`),
/// the header's words and the payload's words.
pub open spec fn ones_complement_checksum(
    src: Seq<u8>,
    dst: Seq<u8>,
    length: nat,
    header: Seq<u8>,
    payload: Seq<u8>,
) -> u16 {
    !(fold_carries(
        (pseudo_header_sum(src, dst, length) + word_sum(header) + word_sum(payload)) as nat,
    ) as u16)
}

/// The checksum of a segment made of `header` and `payload`, sent from `src`
/// to `dst`.
pub open spec fn segment_checksum(src: Seq<u8>, dst: Seq<u8>, header: Seq<u8>, payload: Seq<u8>) -> u16 {
    ones_complement_checksum(src, dst, header.len() + payload.len(), header, payload)
}

/// Whether a segment with a payload of `payload_len` bytes is too long for
/// the pseudo-header's 16-bit length.
pub open spec fn too_long(payload_len: nat) -> bool {
    HEADER_LEN + payload_len >= 0x10000
}

/// Each word is at most 65535, so the sum stays under 32768 per byte (and
/// one byte more for an odd tail).
pub proof fn lemma_word_sum_bound(s: Seq<u8>)
    ensures
        word_sum(s) <= 32768 * (s.len() + s.len() % 2),
    decreases s.len(),
{
    if s.len() == 0 {
    } else if s.len() % 2 == 1 {
        lemma_word_sum_bound(s.drop_last());
    } else {
        lemma_word_sum_bound(s.subrange(0, s.len() - 2));
    }
}

/// Two more bytes after an even prefix add one whole word.
proof fn lemma_word_sum_step(s: Seq<u8>, i: int)
    requires
        0 <= i,
        i + 2 <= s.len(),
        i % 2 == 0,
    ensures
        word_sum(s.subrange(0, i + 2)) == word_sum(s.subrange(0, i)) + s[i] * 256 + s[i + 1],
{
    let t = s.subrange(0, i + 2);
    assert(t.subrange(0, i) =~= s.subrange(0, i));
}

/// An odd payload sums as if a zero byte were appended to it.
pub proof fn lemma_word_sum_zero_pad(s: Seq<u8>)
    requires
        s.len() % 2 == 1,
    ensures
        word_sum(s.push(0)) == word_sum(s),
{
    let t = s.push(0);
    assert(t.subrange(0, t.len() - 2) =~= s.drop_last());
}

/// The checksum of an odd-length payload is the checksum that the same
/// algorithm gives over the payload padded with one zero byte, with the
/// segment's true length in the pseudo-header.
pub proof fn lemma_odd_payload_checksum(src: Seq<u8>, dst: Seq<u8>, header: Seq<u8>, payload: Seq<u8>)
    requires
        payload.len() % 2 == 1,
    ensures
        segment_checksum(src, dst, header, payload) == ones_complement_checksum(
            src,
            dst,
            header.len() + payload.len(),
            header,
            payload.push(0),
        ),
{
    lemma_word_sum_zero_pad(payload);
}

/// Adds the words of `bytes` to `sum`.
fn add_words(sum: u32, bytes: &[u8]) -> (r: u32)
    requires
        sum + 32768 * (bytes@.len() + 1) <= u32::MAX,
    ensures
        r == sum + word_sum(bytes@),
{
    let n = bytes.len();
    let mut acc = sum;
    let mut i: usize = 0;
    while i + 1 < n
        invariant
            n == bytes@.len(),
            i <= n,
            i % 2 == 0,
            acc == sum + word_sum(bytes@.subrange(0, i as int)),
            sum + 32768 * (n + 1) <= u32::MAX,
        decreases n - i,
    {
        proof {
            lemma_word_sum_bound(bytes@.subrange(0, i as int));
            lemma_word_sum_step(bytes@, i as int);
        }
        acc = acc + ((bytes[i] as u32) * 256 + bytes[i + 1] as u32);
        i = i + 2;
    }
    if i < n {
        proof {
            lemma_word_sum_bound(bytes@.subrange(0, i as int));
            assert(bytes@.subrange(0, n as int).drop_last() =~= bytes@.subrange(0, i as int));
        }
        acc = acc + (bytes[i] as u32) * 256;
    }
    assert(bytes@.subrange(0, n as int) =~= bytes@);
    acc
}

/// Folds the carries of `sum` into its low sixteen bits.
fn fold_sum(sum: u32) -> (r: u16)
    ensures
        r == fold_carries(sum as nat),
{
    let mut s = sum;
    loop
        invariant
            fold_carries(s as nat) == fold_carries(sum as nat),
        ensures
            s < 0x10000,
            fold_carries(s as nat) == fold_carries(sum as nat),
        decreases s,
    {
        assert((s >> 16) == s / 0x10000 && (s & 0xFFFF) == s % 0x10000) by (bit_vector);
        if s >> 16 == 0 {
            break;
        }
        s = (s & 0xFFFF) + (s >> 16);
    }
    s as u16
}

/// The checksum of a segment made of the 20 bytes of `header` (whose
/// checksum field the caller has cleared) and `payload`, sent from `src` to
/// `dst`; `LengthOverflow` where header and payload reach 65536 bytes.
pub fn compute_checksum(src: &[u8; 4], dst: &[u8; 4], header: &[u8; 20], payload: &[u8]) -> (r: Result<u16, TcpError>)
    ensures
        r == (if too_long(payload@.len()) {
            Err(TcpError::LengthOverflow)
        } else {
            Ok(segment_checksum(src@, dst@, header@, payload@))
        }),
{
    if payload.len() >= 0x10000 - HEADER_LEN {
        return Err(TcpError::LengthOverflow);
    }
    let length = (HEADER_LEN + payload.len()) as u32;
    proof {
        lemma_word_sum_bound(src@);
        lemma_word_sum_bound(dst@);
        lemma_word_sum_bound(header@);
        lemma_word_sum_bound(payload@);
    }
    let mut sum: u32 = 0;
    sum = add_words(sum, src.as_slice());
    sum = add_words(sum, dst.as_slice());
    sum = sum + PROTOCOL_TCP + length;
    sum = add_words(sum, header.as_slice());
    sum = add_words(sum, payload);
    Ok(!fold_sum(sum))
}

} // verus!
