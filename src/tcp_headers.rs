//! The 20-byte header without options, as it stands on the wire, and the
//! functions that encode, decode and checksum it.
use vstd::prelude::*;

use crate::checksum::{compute_checksum, segment_checksum, too_long};
use crate::error::TcpError;

verus! {

/// The fields of a header without options, its flags as the raw byte.
#[derive(Debug, Clone, Copy, PartialEq, Eq, Structural)]
pub struct TcpHeader {
    pub source_port: u16,
    pub dest_port: u16,
    pub seq_num: u32,
    pub ack_num: u32,
    pub flags: u8,
    pub window_size: u16,
    /// The 16-bit ones' complement of the ones' complement sum of the
    /// pseudo-header, the header and the payload; set once, by the builder.
    pub checksum: u16,
}

/// The two bytes of `v`, most significant first.
pub open spec fn be16(v: u16) -> Seq<u8> {
    seq![(v / 0x100) as u8, (v % 0x100) as u8]
}

/// The four bytes of `v`, most significant first.
pub open spec fn be32(v: u32) -> Seq<u8> {
    seq![
        (v / 0x100_0000) as u8,
        ((v / 0x1_0000) % 0x100) as u8,
        ((v / 0x100) % 0x100) as u8,
        (v % 0x100) as u8,
    ]
}

/// The 16-bit big-endian value of the two bytes of `b` at `i`.
pub open spec fn be16_at(b: Seq<u8>, i: int) -> u16 {
    (b[i] * 0x100 + b[i + 1]) as u16
}

/// The 32-bit big-endian value of the four bytes of `b` at `i`.
pub open spec fn be32_at(b: Seq<u8>, i: int) -> u32 {
    (b[i] * 0x100_0000 + b[i + 1] * 0x1_0000 + b[i + 2] * 0x100 + b[i + 3]) as u32
}

/// The byte that holds the data offset (5 words) in its high nibble and the
/// reserved bits (zero) in its low nibble.
pub const OFFSET_BYTE: u8 = 0x50;

/// The 20 bytes of `h` on the wire: ports, sequence and acknowledgment
/// numbers, the data-offset byte, the flags byte, window, checksum and a zero
/// urgent pointer, every number big-endian.
pub open spec fn wire_bytes(h: TcpHeader) -> Seq<u8> {
    be16(h.source_port) + be16(h.dest_port) + be32(h.seq_num) + be32(h.ack_num) + seq![
        OFFSET_BYTE,
        h.flags,
    ] + be16(h.window_size) + be16(h.checksum) + seq![0u8, 0u8]
}

/// The header that the first 20 bytes of `b` encode; the flags are read from
/// the byte at offset 13.
pub open spec fn parse_wire(b: Seq<u8>) -> TcpHeader {
    TcpHeader {
        source_port: be16_at(b, 0),
        dest_port: be16_at(b, 2),
        seq_num: be32_at(b, 4),
        ack_num: be32_at(b, 8),
        flags: b[13],
        window_size: be16_at(b, 14),
        checksum: be16_at(b, 16),
    }
}

/// `h` with its checksum field cleared, as the checksum is computed over it.
pub open spec fn without_checksum(h: TcpHeader) -> TcpHeader {
    TcpHeader { checksum: 0, ..h }
}

/// The checksum of the segment of header `h` and `payload` sent from `src`
/// to `dst`.
pub open spec fn header_checksum(h: TcpHeader, src: Seq<u8>, dst: Seq<u8>, payload: Seq<u8>) -> u16 {
    segment_checksum(src, dst, wire_bytes(without_checksum(h)), payload)
}

/// Decoding the encoding of a header gives back every one of its fields.
pub proof fn lemma_round_trip(h: TcpHeader)
    ensures
        wire_bytes(h).len() == 20,
        parse_wire(wire_bytes(h)) == h,
{
    let b = wire_bytes(h);
    assert(b.len() == 20);
    assert(be16_at(b, 0) == h.source_port);
    assert(be16_at(b, 2) == h.dest_port);
    assert(be32_at(b, 4) == h.seq_num);
    assert(be32_at(b, 8) == h.ack_num);
    assert(b[13] == h.flags);
    assert(be16_at(b, 14) == h.window_size);
    assert(be16_at(b, 16) == h.checksum);
}

/// The 16-bit big-endian value at `i`.
fn read_be16(bytes: &[u8], i: usize) -> (r: u16)
    requires
        i + 2 <= bytes@.len(),
    ensures
        r == be16_at(bytes@, i as int),
{
    (bytes[i] as u16) * 0x100 + bytes[i + 1] as u16
}

/// The 32-bit big-endian value at `i`.
fn read_be32(bytes: &[u8], i: usize) -> (r: u32)
    requires
        i + 4 <= bytes@.len(),
    ensures
        r == be32_at(bytes@, i as int),
{
    (bytes[i] as u32) * 0x100_0000 + (bytes[i + 1] as u32) * 0x1_0000 + (bytes[i + 2] as u32)
        * 0x100 + bytes[i + 3] as u32
}

impl TcpHeader {
    /// The header that `bytes` begins with; `None` where it holds fewer than
    /// 20 bytes.
    pub fn from_bytes(bytes: &[u8]) -> (r: Option<Self>)
        ensures
            r == (if bytes@.len() < 20 {
                None
            } else {
                Some(parse_wire(bytes@))
            }),
    {
        if bytes.len() < 20 {
            return None;
        }
        Some(
            TcpHeader {
                source_port: read_be16(bytes, 0),
                dest_port: read_be16(bytes, 2),
                seq_num: read_be32(bytes, 4),
                ack_num: read_be32(bytes, 8),
                flags: bytes[13],
                window_size: read_be16(bytes, 14),
                checksum: read_be16(bytes, 16),
            },
        )
    }

    /// The 20 bytes of this header on the wire.
    pub fn to_bytes(&self) -> (r: [u8; 20])
        ensures
            r@ == wire_bytes(*self),
    {
        let sp = self.source_port;
        let dp = self.dest_port;
        let sn = self.seq_num;
        let an = self.ack_num;
        let ws = self.window_size;
        let cs = self.checksum;
        let r: [u8; 20] = [
            (sp / 0x100) as u8,
            (sp % 0x100) as u8,
            (dp / 0x100) as u8,
            (dp % 0x100) as u8,
            (sn / 0x100_0000) as u8,
            ((sn / 0x1_0000) % 0x100) as u8,
            ((sn / 0x100) % 0x100) as u8,
            (sn % 0x100) as u8,
            (an / 0x100_0000) as u8,
            ((an / 0x1_0000) % 0x100) as u8,
            ((an / 0x100) % 0x100) as u8,
            (an % 0x100) as u8,
            OFFSET_BYTE,
            self.flags,
            (ws / 0x100) as u8,
            (ws % 0x100) as u8,
            (cs / 0x100) as u8,
            (cs % 0x100) as u8,
            0,
            0,
        ];
        assert(r@ =~= wire_bytes(*self));
        r
    }

    /// The bytes of a segment: this header's 20 bytes, then `payload`
    /// verbatim. Nothing is recomputed.
    pub fn build_packet(&self, payload: &[u8]) -> (r: Vec<u8>)
        ensures
            r@ == wire_bytes(*self) + payload@,
    {
        let header = self.to_bytes();
        let mut packet: Vec<u8> = Vec::new();
        packet.extend_from_slice(header.as_slice());
        packet.extend_from_slice(payload);
        assert(packet@ =~= wire_bytes(*self) + payload@);
        packet
    }

    /// The checksum of the segment of this header (its checksum field taken
    /// as zero) and `payload`, sent from `src_ip` to `dst_ip`.
    pub fn calculate_checksum(&self, src_ip: [u8; 4], dst_ip: [u8; 4], payload: &[u8]) -> (r: Result<u16, TcpError>)
        ensures
            r == (if too_long(payload@.len()) {
                Err(TcpError::LengthOverflow)
            } else {
                Ok(header_checksum(*self, src_ip@, dst_ip@, payload@))
            }),
    {
        let cleared = TcpHeader { checksum: 0, ..*self };
        let header = cleared.to_bytes();
        compute_checksum(&src_ip, &dst_ip, &header, payload)
    }

    /// The 20 bytes of this header with the checksum field set to the
    /// checksum of the segment of this header and `payload`, sent from
    /// `src_ip` to `dst_ip`.
    pub fn to_be_bytes(&self, src_ip: [u8; 4], dst_ip: [u8; 4], payload: &[u8]) -> (r: Result<[u8; 20], TcpError>)
        ensures
            too_long(payload@.len()) ==> r == Err::<[u8; 20], TcpError>(TcpError::LengthOverflow),
            !too_long(payload@.len()) ==> (r matches Ok(b) && b@ == wire_bytes(
                (TcpHeader { checksum: header_checksum(*self, src_ip@, dst_ip@, payload@), ..*self }),
            )),
    {
        match self.calculate_checksum(src_ip, dst_ip, payload) {
            Ok(checksum) => {
                let finished = TcpHeader { checksum, ..*self };
                Ok(finished.to_bytes())
            },
            Err(e) => Err(e),
        }
    }
}

} // verus!
