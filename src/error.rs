//! The errors that reading and writing report.
use vstd::prelude::*;

verus! {

/// What can go wrong while reading or writing a container.
#[derive(Debug, Clone, Copy, PartialEq, Eq, Structural)]
pub enum CgfxError {
    /// Wrong `CGFX` / `DATA` magic, or lengths that disagree.
    MalformedHeader,
    /// An unexpected tag at a polymorphic record, with the offset it was read at.
    UnknownDiscriminant { offset: usize, tag: u32 },
    /// A count that disagrees with the number of entries that stand for it.
    CountMismatch,
    /// A pointer that must not be null was zero.
    UnexpectedNull,
    /// A field holds a value that the format does not allow.
    InvalidValue,
    /// A read ran past the end of the input.
    TruncatedInput,
    /// Writing this kind of record is not implemented.
    Unsupported,
    /// A debug serialization diverged from the reference bytes at this offset.
    PrefixMismatch { offset: usize },
}

} // verus!
