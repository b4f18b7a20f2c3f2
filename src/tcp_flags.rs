//! A raw flags byte, listed and rendered as a flag set.
use vstd::prelude::*;

use crate::flags::{canonical_names, flag_names, render_flags, TcpFlags};
use crate::text::views;

verus! {

/// A raw flags byte.
pub struct TcpFlag(pub u8);

impl TcpFlag {
    pub fn from_byte(byte: u8) -> (r: Self)
        ensures
            r.0 == byte,
    {
        Self(byte)
    }

    /// The names of the set flags, in the canonical order
    /// FIN, SYN, RST, PSH, ACK, URG, ECE, CWR.
    pub fn names(&self) -> (r: Vec<&'static str>)
        ensures
            views(r@) == flag_names(self.0),
    {
        canonical_names(self.0)
    }

    /// Whether any bit of `flag` is set.
    pub fn has_flag(&self, flag: u8) -> (r: bool)
        ensures
            r == (self.0 & flag != 0),
    {
        self.0 & flag != 0
    }

    /// The text of this byte as a flag set: the names of the set flags in the
    /// canonical order joined by " | ", or "UNINT" where none is set; then a
    /// space and the byte in decimal (`"SYN | ACK 18"`).
    pub fn render(&self) -> (r: String)
        ensures
            r@ == render_flags(self.0),
    {
        TcpFlags::from_byte(self.0).render()
    }
}

} // verus!
