//! Input events that a widget may react to.

use vstd::prelude::*;

verus! {

/// A coordinate in logical pixels, carried as the bit pattern of a 64-bit IEEE-754 value.
///
/// The library only compares and forwards coordinates; it never computes with them, so the
/// bit pattern is all it needs. Two coordinates are equal when their bit patterns are.
#[derive(Debug, Clone, Copy, PartialEq, Eq, Structural, Hash)]
pub struct Coord {
    /// The IEEE-754 binary64 encoding of the value.
    pub bits: u64,
}

impl Coord {
    /// A coordinate from its binary64 bit pattern.
    pub fn from_bits(bits: u64) -> (r: Coord)
        ensures
            r.bits == bits,
    {
        Coord { bits }
    }

    /// The binary64 bit pattern of this coordinate.
    pub fn to_bits(&self) -> (r: u64)
        ensures
            r == self.bits,
    {
        self.bits
    }
}

/// Events that a widget might care about.
///
/// More kinds may be added later: code that consumes events must ignore kinds that it does
/// not know.
#[non_exhaustive]
#[derive(Debug, Clone, Copy, PartialEq, Eq, Structural)]
pub enum Event {
    /// Where the pointer is, relative to the top left corner of the widget.
    Mouse { x: Coord, y: Coord },
}

} // verus!
