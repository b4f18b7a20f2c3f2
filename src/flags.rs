//! The set of the eight TCP control flags, held as one byte.
use vstd::prelude::*;

use crate::text::{decimal, join, push_decimal, push_joined, views};

verus! {

/// A set of TCP control flags. Every byte is a valid combination: the set is
/// exactly the byte it holds.
#[derive(Debug, Clone, Copy, PartialEq, Eq, Structural)]
pub struct TcpFlags {
    bits: u8,
}

/// The single name `name` where `b` holds the bit `flag`, else nothing.
pub open spec fn name_if(b: u8, flag: u8, name: Seq<char>) -> Seq<Seq<char>> {
    if b & flag != 0 {
        seq![name]
    } else {
        seq![]
    }
}

/// The names of the flags set in `b`, in the canonical order
/// FIN, SYN, RST, PSH, ACK, URG, ECE, CWR.
pub open spec fn flag_names(b: u8) -> Seq<Seq<char>> {
    name_if(b, 0x01, "FIN"@) + name_if(b, 0x02, "SYN"@) + name_if(b, 0x04, "RST"@) + name_if(
        b,
        0x08,
        "PSH"@,
    ) + name_if(b, 0x10, "ACK"@) + name_if(b, 0x20, "URG"@) + name_if(b, 0x40, "ECE"@) + name_if(
        b,
        0x80,
        "CWR"@,
    )
}

/// The text of a flag set: the set flags' names joined by " | ", or "UNINT"
/// where none is set, then a space and the byte in decimal.
pub open spec fn render_flags(b: u8) -> Seq<char> {
    if b == 0 {
        "UNINT"@ + " "@ + decimal(b as nat)
    } else {
        join(flag_names(b), " | "@) + " "@ + decimal(b as nat)
    }
}

/// Where `b` holds the bit `flag`, pushes `name` onto `names`.
pub(crate) fn push_name_if(names: &mut Vec<&'static str>, b: u8, flag: u8, name: &'static str)
    ensures
        views(final(names)@) == views(old(names)@) + name_if(b, flag, name@),
{
    if b & flag != 0 {
        names.push(name);
    }
    assert(views(names@) =~= views(old(names)@) + name_if(b, flag, name@));
}

/// The names of the flags set in `b`, in the canonical order.
pub(crate) fn canonical_names(b: u8) -> (r: Vec<&'static str>)
    ensures
        views(r@) == flag_names(b),
{
    let mut names: Vec<&'static str> = Vec::new();
    assert(views(names@) =~= seq![]);
    push_name_if(&mut names, b, TcpFlags::FIN, "FIN");
    push_name_if(&mut names, b, TcpFlags::SYN, "SYN");
    push_name_if(&mut names, b, TcpFlags::RST, "RST");
    push_name_if(&mut names, b, TcpFlags::PSH, "PSH");
    push_name_if(&mut names, b, TcpFlags::ACK, "ACK");
    push_name_if(&mut names, b, TcpFlags::URG, "URG");
    push_name_if(&mut names, b, TcpFlags::ECE, "ECE");
    push_name_if(&mut names, b, TcpFlags::CWR, "CWR");
    assert(views(names@) =~= flag_names(b));
    names
}

/// A byte names no flag exactly when it is zero.
proof fn lemma_no_names_iff_zero(b: u8)
    ensures
        flag_names(b).len() == 0 <==> b == 0,
{
    assert(b & 0x01 == 0 && b & 0x02 == 0 && b & 0x04 == 0 && b & 0x08 == 0 && b & 0x10 == 0 && b
        & 0x20 == 0 && b & 0x40 == 0 && b & 0x80 == 0 <==> b == 0) by (bit_vector);
}

impl View for TcpFlags {
    type V = u8;

    open spec fn view(&self) -> u8 {
        self.spec_bits()
    }
}

impl TcpFlags {
    /// No flag set.
    pub const UNINT: u8 = 0x00;
    pub const FIN: u8 = 0x01;
    pub const SYN: u8 = 0x02;
    pub const RST: u8 = 0x04;
    pub const PSH: u8 = 0x08;
    pub const ACK: u8 = 0x10;
    pub const URG: u8 = 0x20;
    pub const ECE: u8 = 0x40;
    pub const CWR: u8 = 0x80;

    pub closed spec fn spec_bits(self) -> u8 {
        self.bits
    }

    /// The flag set that holds exactly the bits of `b`.
    pub closed spec fn spec_from_byte(b: u8) -> TcpFlags {
        TcpFlags { bits: b }
    }

    /// A set made from a byte holds that byte.
    pub proof fn lemma_from_byte_view(b: u8)
        ensures
            Self::spec_from_byte(b)@ == b,
    {
    }

    /// A set is the one made from the byte it holds.
    pub proof fn lemma_view_determines(f: TcpFlags)
        ensures
            Self::spec_from_byte(f@) == f,
    {
    }

    /// The flag set that holds exactly the bits of `b`.
    pub fn from_byte(b: u8) -> (r: TcpFlags)
        ensures
            r@ == b,
            r == Self::spec_from_byte(b),
    {
        TcpFlags { bits: b }
    }

    /// The empty set.
    pub fn empty() -> (r: TcpFlags)
        ensures
            r@ == 0,
    {
        TcpFlags { bits: 0 }
    }

    /// The byte that holds this set.
    pub fn bits(&self) -> (r: u8)
        ensures
            r == self@,
    {
        self.bits
    }

    /// Whether no flag is set.
    pub fn is_empty(&self) -> (r: bool)
        ensures
            r == (self@ == 0),
    {
        self.bits == 0
    }

    /// Whether every flag of `flag` is set in `self`.
    pub fn contains(&self, flag: u8) -> (r: bool)
        ensures
            r == (self@ & flag == flag),
    {
        self.bits & flag == flag
    }

    /// The set of the flags that are in `self` or in `other`.
    pub fn union(self, other: TcpFlags) -> (r: TcpFlags)
        ensures
            r@ == self@ | other@,
    {
        TcpFlags { bits: self.bits | other.bits }
    }

    /// The text of this set: the names of the set flags in the canonical
    /// order, joined by " | ", or "UNINT" where none is set; then a space and
    /// the byte in decimal (`"SYN | ACK 18"`).
    pub fn render(&self) -> (r: String)
        ensures
            r@ == render_flags(self@),
    {
        let b = self.bits;
        let names = canonical_names(b);
        proof {
            lemma_no_names_iff_zero(b);
        }
        let mut out = String::new();
        if names.len() == 0 {
            assert(b == 0) by {
                assert(views(names@).len() == names@.len());
            }
            out.append("UNINT");
        } else {
            push_joined(&mut out, &names, " | ");
        }
        out.append(" ");
        push_decimal(&mut out, b as u32);
        proof {
            if b != 0 {
                assert(out@ =~= join(flag_names(b), " | "@) + " "@ + decimal(b as nat));
            } else {
                assert(out@ =~= "UNINT"@ + " "@ + decimal(b as nat));
            }
        }
        out
    }

    /// Sets the flags of `flag`.
    pub fn insert(&mut self, flag: u8)
        ensures
            final(self)@ == old(self)@ | flag,
    {
        self.bits = self.bits | flag;
    }

    /// Clears the flags of `flag`.
    pub fn remove(&mut self, flag: u8)
        ensures
            final(self)@ == old(self)@ & !flag,
    {
        self.bits = self.bits & !flag;
    }
}

} // verus!
