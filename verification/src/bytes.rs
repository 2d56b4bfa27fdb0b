//! Small verified helpers for moving bytes between buffers and for the
//! little-endian field encoding shared by every header format.

use vstd::bytes::*;
use vstd::prelude::*;
use vstd::slice::slice_index_get;
use vstd::slice::slice_subrange;
use vstd::slice::slice_to_vec;

verus! {

/// A run of `n` zero bytes, as emitted for inter-section padding.
pub open spec fn zero_bytes(n: int) -> Seq<u8> {
    Seq::new(n as nat, |i: int| 0u8)
}

/// Copies `source[start .. start + len]` into a fresh vector.
pub fn copy_range(source: &[u8], start: usize, len: usize) -> (r: Vec<u8>)
    requires
        start + len <= source@.len(),
    ensures
        r@ == source@.subrange(start as int, start as int + len as int),
{
    // binding the slice length establishes that it fits in usize, so the
    // index arithmetic below cannot overflow
    let _total: usize = source.len();
    let sub = slice_subrange(source, start, start + len);
    slice_to_vec(sub)
}

/// Reads the little-endian 32-bit word stored at `source[i .. i + 4]`.
pub fn read_u32_at(source: &[u8], i: usize) -> (r: u32)
    requires
        i + 4 <= source@.len(),
    ensures
        r == spec_u32_from_le_bytes(source@.subrange(i as int, i as int + 4)),
{
    // binding the slice length establishes that it fits in usize, so the
    // index arithmetic below cannot overflow
    let _total: usize = source.len();
    let sub = slice_subrange(source, i, i + 4);
    u32_from_le_bytes(sub)
}

/// Reads the little-endian 64-bit word stored at `source[i .. i + 8]`.
pub fn read_u64_at(source: &[u8], i: usize) -> (r: u64)
    requires
        i + 8 <= source@.len(),
    ensures
        r == spec_u64_from_le_bytes(source@.subrange(i as int, i as int + 8)),
{
    // binding the slice length establishes that it fits in usize, so the
    // index arithmetic below cannot overflow
    let _total: usize = source.len();
    let sub = slice_subrange(source, i, i + 8);
    u64_from_le_bytes(sub)
}

/// Appends the 4-byte little-endian encoding of `x` to `out`.
pub fn push_u32_le(out: &mut Vec<u8>, x: u32)
    ensures
        final(out)@ == old(out)@ + spec_u32_to_le_bytes(x),
{
    let mut piece = u32_to_le_bytes(x);
    out.append(&mut piece);
}

/// Appends the 8-byte little-endian encoding of `x` to `out`.
pub fn push_u64_le(out: &mut Vec<u8>, x: u64)
    ensures
        final(out)@ == old(out)@ + spec_u64_to_le_bytes(x),
{
    let mut piece = u64_to_le_bytes(x);
    out.append(&mut piece);
}

/// Appends every byte of `bytes` to `out`.
pub fn push_bytes(out: &mut Vec<u8>, bytes: &[u8])
    ensures
        final(out)@ == old(out)@ + bytes@,
{
    let mut i: usize = 0;
    while i < bytes.len()
        invariant
            i <= bytes@.len(),
            out@ == old(out)@ + bytes@.subrange(0, i as int),
        decreases bytes@.len() - i,
    {
        let b = *slice_index_get(bytes, i);
        out.push(b);
        i = i + 1;
        proof {
            assert(out@ =~= old(out)@ + bytes@.subrange(0, i as int));
        }
    }
    proof {
        assert(bytes@.subrange(0, bytes@.len() as int) =~= bytes@);
    }
}

/// Appends `n` zero bytes to `out`.
pub fn push_zeros(out: &mut Vec<u8>, n: usize)
    ensures
        final(out)@ == old(out)@ + zero_bytes(n as int),
{
    let mut i: usize = 0;
    while i < n
        invariant
            i <= n,
            out@ == old(out)@ + zero_bytes(i as int),
        decreases n - i,
    {
        out.push(0u8);
        i = i + 1;
        proof {
            assert(out@ =~= old(out)@ + zero_bytes(i as int));
        }
    }
}

/// Builds a vector of `n` zero bytes.
pub fn zero_vec(n: usize) -> (r: Vec<u8>)
    ensures
        r@ == zero_bytes(n as int),
{
    let mut out: Vec<u8> = Vec::new();
    push_zeros(&mut out, n);
    proof {
        assert(out@ =~= zero_bytes(n as int));
    }
    out
}

/// Compares two byte slices for equality of their full contents.
pub fn bytes_eq(a: &[u8], b: &[u8]) -> (r: bool)
    ensures
        r == (a@ == b@),
{
    if a.len() != b.len() {
        proof {
            assert(a@ != b@);
        }
        return false;
    }
    let mut i: usize = 0;
    while i < a.len()
        invariant
            i <= a@.len(),
            a@.len() == b@.len(),
            forall|j: int| 0 <= j < i ==> a@[j] == b@[j],
        decreases a@.len() - i,
    {
        if *slice_index_get(a, i) != *slice_index_get(b, i) {
            return false;
        }
        i = i + 1;
    }
    proof {
        assert(a@ =~= b@);
    }
    true
}

} // verus!
