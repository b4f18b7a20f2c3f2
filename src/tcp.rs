//! The header with typed flags, its decoding from bytes and the builder that
//! finalises its checksum.
use vstd::prelude::*;
use vstd::slice::slice_subrange;

use crate::checksum::too_long;
use crate::error::TcpError;
use crate::flags::{render_flags, TcpFlags};
use crate::text::{decimal, push_decimal};
use crate::tcp_headers::{header_checksum, parse_wire, wire_bytes, TcpHeader};

verus! {

/// One segment's fixed header fields. The data offset (5), the reserved bits
/// and the urgent pointer are constants of the wire format and not stored.
#[derive(Debug, Clone, Copy, PartialEq, Eq, Structural)]
pub struct Tcp {
    pub source_port: u16,
    pub dest_port: u16,
    pub seq_num: u32,
    pub ack_num: u32,
    pub flags: TcpFlags,
    pub window_size: u16,
    pub checksum: u16,
}

impl View for Tcp {
    type V = TcpHeader;

    open spec fn view(&self) -> TcpHeader {
        TcpHeader {
            source_port: self.source_port,
            dest_port: self.dest_port,
            seq_num: self.seq_num,
            ack_num: self.ack_num,
            flags: self.flags@,
            window_size: self.window_size,
            checksum: self.checksum,
        }
    }
}

/// The text of a header: a title line, then one indented line each for the
/// ports, the sequence and acknowledgment numbers (in decimal) and the flags.
pub open spec fn render_tcp(t: Tcp) -> Seq<char> {
    "TCP Header:\n    Source Port: "@ + decimal(t.source_port as nat) + "\n    Destination Port: "@
        + decimal(t.dest_port as nat) + "\n    Sequence Number: "@ + decimal(t.seq_num as nat)
        + "\n    Acknowledge Number: "@ + decimal(t.ack_num as nat) + "\n    Flags: "@
        + render_flags(t.flags@)
}

/// A name for the text that `String::from_utf8_lossy` makes of `bytes`.
pub uninterp spec fn utf8_lossy(bytes: Seq<u8>) -> Seq<char>;

/// Relies on `String::from_utf8_lossy`: the bytes read as UTF-8, each invalid
/// sequence replaced by U+FFFD; the text depends on the bytes alone.
#[verifier::external_body]
fn lossy_text(bytes: &[u8]) -> (r: String)
    ensures
        r@ == utf8_lossy(bytes@),
{
    String::from_utf8_lossy(bytes).into_owned()
}

impl Tcp {
    /// The header whose fields are those of `h`, its flags made from `h.flags`.
    pub open spec fn from_view(h: TcpHeader) -> Tcp {
        Tcp {
            source_port: h.source_port,
            dest_port: h.dest_port,
            seq_num: h.seq_num,
            ack_num: h.ack_num,
            flags: TcpFlags::spec_from_byte(h.flags),
            window_size: h.window_size,
            checksum: h.checksum,
        }
    }

    /// A header is determined by its fields.
    pub proof fn lemma_from_view(h: TcpHeader, t: Tcp)
        ensures
            Self::from_view(h)@ == h,
            Self::from_view(t@) == t,
    {
        TcpFlags::lemma_from_byte_view(h.flags);
        TcpFlags::lemma_view_determines(t.flags);
    }

    /// Decoding the encoding of a header gives back the same header.
    pub proof fn lemma_round_trip(t: Tcp)
        ensures
            Self::from_view(parse_wire(wire_bytes(t@))) == t,
    {
        crate::tcp_headers::lemma_round_trip(t@);
        Self::lemma_from_view(t@, t);
    }

    /// A header whose checksum was set from the segment it heads passes
    /// verification over the same addresses and payload.
    pub proof fn lemma_finalised_checksum_verifies(
        h: TcpHeader,
        src: Seq<u8>,
        dst: Seq<u8>,
        payload: Seq<u8>,
    )
        ensures
            ({
                let t = TcpHeader { checksum: header_checksum(h, src, dst, payload), ..h };
                t.checksum == header_checksum(t, src, dst, payload)
            }),
    {
        let t = TcpHeader { checksum: header_checksum(h, src, dst, payload), ..h };
        assert(crate::tcp_headers::without_checksum(t) == crate::tcp_headers::without_checksum(h));
    }

    /// The header with the fields of `h`.
    pub fn from_header(h: TcpHeader) -> (r: Tcp)
        ensures
            r == Self::from_view(h),
            r@ == h,
    {
        proof {
            TcpFlags::lemma_from_byte_view(h.flags);
        }
        Tcp {
            source_port: h.source_port,
            dest_port: h.dest_port,
            seq_num: h.seq_num,
            ack_num: h.ack_num,
            flags: TcpFlags::from_byte(h.flags),
            window_size: h.window_size,
            checksum: h.checksum,
        }
    }

    /// The fields of this header, its flags as the raw byte.
    pub fn header(&self) -> (r: TcpHeader)
        ensures
            r == self@,
    {
        TcpHeader {
            source_port: self.source_port,
            dest_port: self.dest_port,
            seq_num: self.seq_num,
            ack_num: self.ack_num,
            flags: self.flags.bits(),
            window_size: self.window_size,
            checksum: self.checksum,
        }
    }

    /// The 20 bytes of this header on the wire.
    pub fn to_bytes(&self) -> (r: [u8; 20])
        ensures
            r@ == wire_bytes(self@),
    {
        self.header().to_bytes()
    }

    /// The checksum of the segment of this header (its checksum field taken
    /// as zero) and `payload`, sent from `src_ip` to `dst_ip`.
    pub fn calculate_checksum(&self, src_ip: [u8; 4], dst_ip: [u8; 4], payload: &[u8]) -> (r: Result<u16, TcpError>)
        ensures
            r == (if too_long(payload@.len()) {
                Err(TcpError::LengthOverflow)
            } else {
                Ok(header_checksum(self@, src_ip@, dst_ip@, payload@))
            }),
    {
        self.header().calculate_checksum(src_ip, dst_ip, payload)
    }

    /// Checks the stored checksum against one computed afresh over the
    /// segment of this header and `payload`, sent from `src_ip` to `dst_ip`.
    pub fn verify_checksum(&self, src_ip: [u8; 4], dst_ip: [u8; 4], payload: &[u8]) -> (r: Result<(), TcpError>)
        ensures
            r == (if too_long(payload@.len()) {
                Err(TcpError::LengthOverflow)
            } else if self.checksum != header_checksum(self@, src_ip@, dst_ip@, payload@) {
                Err(TcpError::ChecksumMismatch)
            } else {
                Ok(())
            }),
    {
        let computed = self.calculate_checksum(src_ip, dst_ip, payload)?;
        if computed != self.checksum {
            Err(TcpError::ChecksumMismatch)
        } else {
            Ok(())
        }
    }

    /// The text of this header: a title line, then one indented line each
    /// for the ports, the numbers and the flags.
    pub fn render(&self) -> (r: String)
        ensures
            r@ == render_tcp(*self),
    {
        let mut out = String::new();
        out.append("TCP Header:\n    Source Port: ");
        push_decimal(&mut out, self.source_port as u32);
        out.append("\n    Destination Port: ");
        push_decimal(&mut out, self.dest_port as u32);
        out.append("\n    Sequence Number: ");
        push_decimal(&mut out, self.seq_num);
        out.append("\n    Acknowledge Number: ");
        push_decimal(&mut out, self.ack_num);
        out.append("\n    Flags: ");
        let flags = self.flags.render();
        out.append(flags.as_str());
        assert(out@ =~= render_tcp(*self));
        out
    }

    /// The bytes of a segment: this header's 20 bytes, then `payload`
    /// verbatim. Nothing is recomputed.
    pub fn build_packet(&self, payload: &[u8]) -> (r: Vec<u8>)
        ensures
            r@ == wire_bytes(self@) + payload@,
    {
        self.header().build_packet(payload)
    }

    /// The header that `bytes` begins with, and the rest of `bytes` read as
    /// text where there is any; `MalformedHeader` where `bytes` holds fewer
    /// than 20 bytes.
    pub fn parse_packet(bytes: &[u8]) -> (r: Result<(Tcp, Option<String>), TcpError>)
        ensures
            bytes@.len() < 20 <==> r is Err,
            r matches Err(e) ==> e == TcpError::MalformedHeader,
            r matches Ok((tcp, _)) ==> tcp@ == parse_wire(bytes@),
            bytes@.len() == 20 ==> (r matches Ok((_, text)) && text is None),
            bytes@.len() > 20 ==> (r matches Ok((_, text)) && text matches Some(s) && s@ == utf8_lossy(
                bytes@.subrange(20, bytes@.len() as int),
            )),
    {
        let tcp = Tcp::try_from(bytes)?;
        let payload = if bytes.len() > 20 {
            Some(lossy_text(slice_subrange(bytes, 20, bytes.len())))
        } else {
            None
        };
        proof {
            Self::lemma_from_view(parse_wire(bytes@), tcp);
        }
        Ok((tcp, payload))
    }
}

impl<'a> TryFrom<&'a [u8]> for Tcp {
    type Error = TcpError;

    /// The header that `bytes` begins with; `MalformedHeader` where it holds
    /// fewer than 20 bytes.
    fn try_from(bytes: &'a [u8]) -> (r: Result<Tcp, TcpError>) {
        match TcpHeader::from_bytes(bytes) {
            Some(h) => Ok(Tcp::from_header(h)),
            None => Err(TcpError::MalformedHeader),
        }
    }
}

impl<'a> vstd::std_specs::convert::TryFromSpecImpl<&'a [u8]> for Tcp {
    open spec fn obeys_try_from_spec() -> bool {
        true
    }

    open spec fn try_from_spec(bytes: &'a [u8]) -> Result<Tcp, TcpError> {
        if bytes@.len() < 20 {
            Err(TcpError::MalformedHeader)
        } else {
            Ok(Tcp::from_view(parse_wire(bytes@)))
        }
    }
}

/// The window size of a builder that was given none.
pub const DEFAULT_WINDOW_SIZE: u16 = 1024;

/// Gathers the fields of a header; every field has a default, so any partial
/// configuration builds.
pub struct TcpBuilder {
    source_port: u16,
    dest_port: u16,
    seq_num: u32,
    ack_num: u32,
    flags: TcpFlags,
    window_size: u16,
}

impl View for TcpBuilder {
    type V = TcpHeader;

    /// The provisional header: the gathered fields with a zero checksum.
    closed spec fn view(&self) -> TcpHeader {
        TcpHeader {
            source_port: self.source_port,
            dest_port: self.dest_port,
            seq_num: self.seq_num,
            ack_num: self.ack_num,
            flags: self.flags@,
            window_size: self.window_size,
            checksum: 0,
        }
    }
}

impl TcpBuilder {
    /// A builder with ports, numbers and flags zero and the default window.
    pub fn new() -> (r: Self)
        ensures
            r@ == (TcpHeader {
                source_port: 0,
                dest_port: 0,
                seq_num: 0,
                ack_num: 0,
                flags: TcpFlags::UNINT,
                window_size: DEFAULT_WINDOW_SIZE,
                checksum: 0,
            }),
    {
        TcpBuilder {
            source_port: 0,
            dest_port: 0,
            seq_num: 0,
            ack_num: 0,
            flags: TcpFlags::from_byte(TcpFlags::UNINT),
            window_size: DEFAULT_WINDOW_SIZE,
        }
    }

    pub fn source_port(&mut self, port: u16) -> (r: &mut Self)
        ensures
            (*r)@ == (TcpHeader { source_port: port, ..old(self)@ }),
            *final(self) == *final(r),
    {
        self.source_port = port;
        self
    }

    pub fn dest_port(&mut self, port: u16) -> (r: &mut Self)
        ensures
            (*r)@ == (TcpHeader { dest_port: port, ..old(self)@ }),
            *final(self) == *final(r),
    {
        self.dest_port = port;
        self
    }

    pub fn seq_num(&mut self, seq: u32) -> (r: &mut Self)
        ensures
            (*r)@ == (TcpHeader { seq_num: seq, ..old(self)@ }),
            *final(self) == *final(r),
    {
        self.seq_num = seq;
        self
    }

    pub fn ack_num(&mut self, ack: u32) -> (r: &mut Self)
        ensures
            (*r)@ == (TcpHeader { ack_num: ack, ..old(self)@ }),
            *final(self) == *final(r),
    {
        self.ack_num = ack;
        self
    }

    pub fn flags(&mut self, flags: TcpFlags) -> (r: &mut Self)
        ensures
            (*r)@ == (TcpHeader { flags: flags@, ..old(self)@ }),
            *final(self) == *final(r),
    {
        self.flags = flags;
        self
    }

    pub fn window_size(&mut self, size: u16) -> (r: &mut Self)
        ensures
            (*r)@ == (TcpHeader { window_size: size, ..old(self)@ }),
            *final(self) == *final(r),
    {
        self.window_size = size;
        self
    }

    /// The header of the gathered fields whose checksum is that of the
    /// segment of this header and `payload`, sent from `src_ip` to `dst_ip`.
    pub fn build(&self, src_ip: [u8; 4], dst_ip: [u8; 4], payload: &[u8]) -> (r: Result<Tcp, TcpError>)
        ensures
            r == (if too_long(payload@.len()) {
                Err(TcpError::LengthOverflow)
            } else {
                Ok(
                    Tcp::from_view(
                        (TcpHeader { checksum: header_checksum(self@, src_ip@, dst_ip@, payload@), ..self@ }),
                    ),
                )
            }),
    {
        let mut tcp = Tcp {
            source_port: self.source_port,
            dest_port: self.dest_port,
            seq_num: self.seq_num,
            ack_num: self.ack_num,
            flags: self.flags,
            checksum: 0,
            window_size: self.window_size,
        };
        let checksum = tcp.calculate_checksum(src_ip, dst_ip, payload)?;
        tcp.checksum = checksum;
        proof {
            Tcp::lemma_from_view(tcp@, tcp);
        }
        Ok(tcp)
    }
}

} // verus!
