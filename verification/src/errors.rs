//! Error taxonomy of the boot-image engine.
//!
//! Every failure is reported to the caller; nothing is retried or clamped,
//! and no operation ever returns a partially decoded image.

use vstd::prelude::*;

verus! {

/// Why a candidate buffer was rejected before any header field was parsed.
#[derive(Clone, Copy, Debug, PartialEq, Eq, Structural)]
pub enum BadHeaderError {
    /// The leading magic bytes match no supported format's constant.
    UnrecognizedMagic,
}

/// An arithmetic precondition was violated while computing the page-aligned
/// layout of an image.
#[derive(Clone, Copy, Debug, PartialEq, Eq, Structural)]
pub enum LayoutError {
    /// The header declares a page size of zero, so no alignment arithmetic
    /// can be performed.
    InvalidPageSize,
    /// A section offset or padded length does not fit in an unsigned 32-bit
    /// value; the engine reports this rather than wrapping.
    SizeOverflow,
}

/// Why a requested section's byte range could not be produced.
#[derive(Clone, Copy, Debug, PartialEq, Eq, Structural)]
pub enum LocateSectionError {
    /// The header declares the requested section with size zero.
    SectionAbsent,
    /// The computed byte range extends past the end of the buffer.
    RangeOutOfBounds,
    /// The layout arithmetic itself failed.
    Layout(LayoutError),
}

/// Why decoding a whole boot image from a buffer failed.
#[derive(Clone, Copy, Debug, PartialEq, Eq, Structural)]
pub enum ReadBootImageError {
    /// The leading magic bytes were not recognized.
    BadHeader(BadHeaderError),
    /// The buffer ends before a declared header or section is fully present.
    TruncatedInput,
    /// The layout arithmetic failed while computing section offsets.
    Layout(LayoutError),
}

} // verus!
