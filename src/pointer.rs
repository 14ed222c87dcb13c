//! File offsets, and the relative pointers that the format stores.
use vstd::prelude::*;

verus! {

/// An absolute offset into a file.
#[derive(Debug, Clone, Copy, PartialEq, Eq, Hash, Structural)]
pub struct Pointer(pub u32);

/// The target of a relative pointer with raw value `raw` stored at `loc`:
/// the sum, taken modulo 2^32 as the format's 32-bit offsets are.
pub open spec fn rel_target(loc: int, raw: int) -> int {
    (loc + raw) % 0x1_0000_0000
}

impl Pointer {
    /// The pointer for an absolute offset; `None` when the offset is zero.
    pub fn new(value: u32) -> (r: Option<Pointer>)
        ensures
            value == 0 <==> r is None,
            r matches Some(p) ==> p.0 == value,
    {
        if value == 0 {
            None
        } else {
            Some(Pointer(value))
        }
    }

    /// The pointer that a relative value `raw`, stored at `loc`, designates.
    pub fn from_relative(loc: usize, raw: u32) -> (r: Pointer)
        ensures
            r.0 == rel_target(loc as int, raw as int),
    {
        let t: u64 = ((loc as u64 % 0x1_0000_0000) + raw as u64) % 0x1_0000_0000;
        assert(t == rel_target(loc as int, raw as int)) by (nonlinear_arith)
            requires
                t == ((loc as u64 % 0x1_0000_0000) + raw as u64) % 0x1_0000_0000,
        {
        }
        Pointer(t as u32)
    }

    /// The relative value that, stored at `loc`, designates this pointer.
    pub fn relative_to(self, loc: usize) -> (r: u32)
        ensures
            rel_target(loc as int, r as int) == self.0,
    {
        let l: u64 = loc as u64 % 0x1_0000_0000;
        let r: u64 = (self.0 as u64 + 0x1_0000_0000 - l) % 0x1_0000_0000;
        assert(rel_target(loc as int, r as int) == self.0) by (nonlinear_arith)
            requires
                l == loc as int % 0x1_0000_0000,
                r == (self.0 as u64 + 0x1_0000_0000 - l) % 0x1_0000_0000,
                self.0 < 0x1_0000_0000,
                0 <= l < 0x1_0000_0000,
        {
        }
        r as u32
    }
}

} // verus!
