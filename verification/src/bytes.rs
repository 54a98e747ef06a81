//! Reading and writing fixed-width fields in byte strings.

use vstd::prelude::*;
use vstd::bytes::*;

verus! {

/// Whether two byte strings hold the same bytes.
pub fn bytes_eq(a: &[u8], b: &[u8]) -> (same: bool)
    ensures
        same == (a@ == b@),
{
    if a.len() != b.len() {
        return false;
    }
    let mut i: usize = 0;
    while i < a.len()
        invariant
            a@.len() == b@.len(),
            0 <= i <= a@.len(),
            forall|j: int| 0 <= j < i ==> a@[j] == b@[j],
        decreases a@.len() - i,
    {
        if a[i] != b[i] {
            return false;
        }
        i = i + 1;
    }
    assert(a@ =~= b@);
    true
}

/// Whether two fixed-width byte arrays are equal.
pub fn array_eq<const N: usize>(a: &[u8; N], b: &[u8; N]) -> (same: bool)
    ensures
        same == (a@ == b@),
        same == (*a == *b),
{
    let same = bytes_eq(a.as_slice(), b.as_slice());
    proof {
        if same {
            assert(*a =~= *b);
        }
    }
    same
}

/// `count` zero bytes.
pub open spec fn zeros(count: nat) -> Seq<u8> {
    Seq::new(count, |i: int| 0u8)
}

/// An array of zero bytes.
pub fn zero_array<const N: usize>() -> (a: [u8; N])
    ensures
        a@ == zeros(N as nat),
{
    let mut a = [0u8; N];
    let mut i: usize = 0;
    while i < N
        invariant
            0 <= i <= N,
            a@.len() == N,
            forall|j: int| 0 <= j < i ==> a@[j] == 0u8,
        decreases N - i,
    {
        a[i] = 0u8;
        i = i + 1;
    }
    assert(a@ =~= zeros(N as nat));
    a
}

/// Whether every byte of the array is zero.
pub fn is_zero32(a: &[u8; 32]) -> (zero: bool)
    ensures
        zero == (a@ == zeros(32)),
{
    let mut i: usize = 0;
    while i < 32
        invariant
            0 <= i <= 32,
            forall|j: int| 0 <= j < i ==> a@[j] == 0u8,
        decreases 32 - i,
    {
        if a[i] != 0 {
            return false;
        }
        i = i + 1;
    }
    assert(a@ =~= zeros(32));
    true
}

/// The `N` bytes of `data` that start at `offset`, as an array.
pub fn read_array<const N: usize>(data: &[u8], offset: usize) -> (out: [u8; N])
    requires
        offset + N <= data@.len(),
    ensures
        out@ == data@.subrange(offset as int, offset + N),
{
    let len = data.len();
    let mut out = [0u8; N];
    let mut i: usize = 0;
    while i < N
        invariant
            0 <= i <= N,
            offset + N <= data@.len(),
            data@.len() == len,
            out@.len() == N,
            forall|j: int| 0 <= j < i ==> out@[j] == data@[offset + j],
        decreases N - i,
    {
        out[i] = data[offset + i];
        i = i + 1;
    }
    assert(out@ =~= data@.subrange(offset as int, offset + N));
    out
}

/// The little-endian `u16` at `offset`.
pub fn read_u16_le(data: &[u8], offset: usize) -> (v: u16)
    requires
        offset + 2 <= data@.len(),
    ensures
        v == spec_u16_from_le_bytes(data@.subrange(offset as int, offset + 2)),
{
    let len = data.len();
    assert(offset + 2 <= len);
    u16_from_le_bytes(vstd::slice::slice_subrange(data, offset, offset + 2))
}

/// The little-endian `u32` at `offset`.
pub fn read_u32_le(data: &[u8], offset: usize) -> (v: u32)
    requires
        offset + 4 <= data@.len(),
    ensures
        v == spec_u32_from_le_bytes(data@.subrange(offset as int, offset + 4)),
{
    let len = data.len();
    assert(offset + 4 <= len);
    u32_from_le_bytes(vstd::slice::slice_subrange(data, offset, offset + 4))
}

/// The little-endian `u64` at `offset`.
pub fn read_u64_le(data: &[u8], offset: usize) -> (v: u64)
    requires
        offset + 8 <= data@.len(),
    ensures
        v == spec_u64_from_le_bytes(data@.subrange(offset as int, offset + 8)),
{
    let len = data.len();
    assert(offset + 8 <= len);
    u64_from_le_bytes(vstd::slice::slice_subrange(data, offset, offset + 8))
}

/// Appends `src` to `out`.
pub fn push_bytes(out: &mut Vec<u8>, src: &[u8])
    ensures
        final(out)@ == old(out)@ + src@,
{
    let ghost before = out@;
    let mut i: usize = 0;
    while i < src.len()
        invariant
            0 <= i <= src@.len(),
            out@ == before + src@.subrange(0, i as int),
        decreases src@.len() - i,
    {
        out.push(src[i]);
        i = i + 1;
        assert(out@ =~= before + src@.subrange(0, i as int));
    }
    assert(src@.subrange(0, src@.len() as int) =~= src@);
}

/// Appends `count` zero bytes to `out`.
pub fn push_zeros(out: &mut Vec<u8>, count: usize)
    ensures
        final(out)@ == old(out)@ + Seq::new(count as nat, |i: int| 0u8),
{
    let ghost before = out@;
    let mut i: usize = 0;
    while i < count
        invariant
            0 <= i <= count,
            out@ == before + Seq::new(i as nat, |k: int| 0u8),
        decreases count - i,
    {
        out.push(0u8);
        i = i + 1;
        assert(out@ =~= before + Seq::new(i as nat, |k: int| 0u8));
    }
}

/// Appends the little-endian bytes of `v` to `out`.
pub fn push_u16_le(out: &mut Vec<u8>, v: u16)
    ensures
        final(out)@ == old(out)@ + spec_u16_to_le_bytes(v),
{
    let b = u16_to_le_bytes(v);
    push_bytes(out, b.as_slice());
}

/// Appends the little-endian bytes of `v` to `out`.
pub fn push_u32_le(out: &mut Vec<u8>, v: u32)
    ensures
        final(out)@ == old(out)@ + spec_u32_to_le_bytes(v),
{
    let b = u32_to_le_bytes(v);
    push_bytes(out, b.as_slice());
}

/// Appends the little-endian bytes of `v` to `out`.
pub fn push_u64_le(out: &mut Vec<u8>, v: u64)
    ensures
        final(out)@ == old(out)@ + spec_u64_to_le_bytes(v),
{
    let b = u64_to_le_bytes(v);
    push_bytes(out, b.as_slice());
}

/// The eight little-endian bytes of `v`, as an array.
pub fn u64_le_array(v: u64) -> (out: [u8; 8])
    ensures
        out@ == spec_u64_to_le_bytes(v),
{
    let b = u64_to_le_bytes(v);
    let out: [u8; 8] = read_array::<8>(b.as_slice(), 0);
    assert(b@.subrange(0, 8) =~= b@);
    out
}

} // verus!
