//! The set of buffers that a clear acts on.

use vstd::prelude::*;

verus! {

/// A set over the two buffers of a canvas: the color (frame) buffer and
/// the depth buffer.
#[derive(Clone, Copy, PartialEq, Eq, Structural, Debug)]
pub struct Buffers {
    pub color: bool,
    pub depth: bool,
}

impl Buffers {
    /// Union of two sets.
    pub open spec fn union_spec(self, other: Buffers) -> Buffers {
        Buffers { color: self.color || other.color, depth: self.depth || other.depth }
    }

    /// Whether every member of `other` is a member of `self`.
    pub open spec fn contains_spec(self, other: Buffers) -> bool {
        (other.color ==> self.color) && (other.depth ==> self.depth)
    }

    /// The set as a bit mask: `0x01` for color, `0x10` for depth.
    pub open spec fn bits_spec(self) -> int {
        (if self.color { 0x01int } else { 0int }) + (if self.depth { 0x10int } else { 0int })
    }

    /// The set that holds no buffer.
    pub fn empty() -> (b: Self)
        ensures
            b == (Buffers { color: false, depth: false }),
    {
        Buffers { color: false, depth: false }
    }

    /// The set that holds the color buffer alone.
    pub fn color() -> (b: Self)
        ensures
            b == (Buffers { color: true, depth: false }),
    {
        Buffers { color: true, depth: false }
    }

    /// The set that holds the depth buffer alone.
    pub fn depth() -> (b: Self)
        ensures
            b == (Buffers { color: false, depth: true }),
    {
        Buffers { color: false, depth: true }
    }

    /// The set that holds both buffers.
    pub fn all() -> (b: Self)
        ensures
            b == (Buffers { color: true, depth: true }),
    {
        Buffers { color: true, depth: true }
    }

    pub fn union(self, other: Buffers) -> (b: Self)
        ensures
            b == self.union_spec(other),
    {
        Buffers { color: self.color || other.color, depth: self.depth || other.depth }
    }

    pub fn contains(&self, other: Buffers) -> (r: bool)
        ensures
            r == self.contains_spec(other),
    {
        (!other.color || self.color) && (!other.depth || self.depth)
    }

    pub fn is_empty(&self) -> (r: bool)
        ensures
            r == (!self.color && !self.depth),
    {
        !self.color && !self.depth
    }

    pub fn bits(&self) -> (m: u32)
        ensures
            m == self.bits_spec(),
    {
        let c: u32 = if self.color { 0x01 } else { 0 };
        let d: u32 = if self.depth { 0x10 } else { 0 };
        c + d
    }

    /// The set a bit mask stands for, if the mask has no other bit set.
    pub fn from_bits(m: u32) -> (r: Option<Self>)
        ensures
            r matches Some(b) ==> b.bits_spec() == m,
            r is Some <==> (m == 0x00 || m == 0x01 || m == 0x10 || m == 0x11),
    {
        if m == 0x00 {
            Some(Buffers { color: false, depth: false })
        } else if m == 0x01 {
            Some(Buffers { color: true, depth: false })
        } else if m == 0x10 {
            Some(Buffers { color: false, depth: true })
        } else if m == 0x11 {
            Some(Buffers { color: true, depth: true })
        } else {
            None
        }
    }
}

impl vstd::std_specs::ops::BitOrSpecImpl for Buffers {
    open spec fn obeys_bitor_spec() -> bool {
        true
    }

    open spec fn bitor_req(self, other: Buffers) -> bool {
        true
    }

    open spec fn bitor_spec(self, other: Buffers) -> Buffers {
        self.union_spec(other)
    }
}

impl core::ops::BitOr for Buffers {
    type Output = Buffers;

    fn bitor(self, other: Buffers) -> (b: Buffers) {
        Buffers { color: self.color || other.color, depth: self.depth || other.depth }
    }
}

} // verus!
