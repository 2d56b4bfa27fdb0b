//! Magic validation: identifying which header format a buffer holds.
//!
//! Every supported format opens with the same eight ASCII bytes,
//! `"ANDROID!"`.  The validator therefore tries the formats' magic constants
//! in a fixed precedence order — Samsung first, then the AOSP generations
//! newest to oldest — and reports the first match.  Because the constants
//! coincide, a recognized buffer always selects the Samsung variant; an
//! unrecognized prefix is rejected without parsing any header field.

use crate::bytes::bytes_eq;
use crate::errors::BadHeaderError;
use vstd::prelude::*;
use vstd::slice::slice_subrange;

verus! {

/// Number of magic bytes shared by every supported format.
pub const MAGIC_SIZE: usize = 8;

/// The magic constant of every supported format: ASCII `"ANDROID!"`.
pub open spec fn spec_android_magic() -> Seq<u8> {
    seq![0x41u8, 0x4Eu8, 0x44u8, 0x52u8, 0x4Fu8, 0x49u8, 0x44u8, 0x21u8]
}

/// Selects one of the supported header formats.
#[derive(Clone, Copy, Debug, PartialEq, Eq, Structural)]
pub enum HeaderFormat {
    /// The Samsung 616-byte header layout.
    Samsung,
    /// AOSP header generation 0.
    Aosp0,
    /// AOSP header generation 1.
    Aosp1,
    /// AOSP header generation 2.
    Aosp2,
    /// AOSP header generation 3.
    Aosp3,
}

/// Builds the magic constant as a byte vector.
pub fn android_magic() -> (r: Vec<u8>)
    ensures
        r@ == spec_android_magic(),
{
    let mut v: Vec<u8> = Vec::new();
    v.push(0x41u8);
    v.push(0x4Eu8);
    v.push(0x44u8);
    v.push(0x52u8);
    v.push(0x4Fu8);
    v.push(0x49u8);
    v.push(0x44u8);
    v.push(0x21u8);
    proof {
        assert(v@ =~= spec_android_magic());
    }
    v
}

/// Tries each known format's magic constant against the leading bytes of
/// `prefix`, in precedence order Samsung, Aosp3, Aosp2, Aosp1, Aosp0, and
/// returns the first format whose constant matches.  All supported formats
/// share the constant `"ANDROID!"`, so a single comparison decides: a match
/// selects `Samsung` (the head of the precedence order) and a mismatch is
/// `UnrecognizedMagic`.  No header field beyond the magic range is examined.
pub fn validate_magic(prefix: &[u8]) -> (r: Result<HeaderFormat, BadHeaderError>)
    requires
        prefix@.len() >= MAGIC_SIZE,
    ensures
        match r {
            Ok(f) => prefix@.subrange(0, MAGIC_SIZE as int) == spec_android_magic() && f
                == HeaderFormat::Samsung,
            Err(e) => prefix@.subrange(0, MAGIC_SIZE as int) != spec_android_magic() && e
                == BadHeaderError::UnrecognizedMagic,
        },
{
    let lead = slice_subrange(prefix, 0, MAGIC_SIZE);
    let magic = android_magic();
    if bytes_eq(lead, magic.as_slice()) {
        Ok(HeaderFormat::Samsung)
    } else {
        Err(BadHeaderError::UnrecognizedMagic)
    }
}

} // verus!
