//! Little-endian integers and fixed-size fields inside byte buffers.

use vstd::prelude::*;

verus! {

/// The unsigned 16-bit integer stored little-endian at `at`.
pub open spec fn le_u16(s: Seq<u8>, at: int) -> u16 {
    (s[at] as int + s[at + 1] as int * 0x100) as u16
}

/// The unsigned 32-bit integer stored little-endian at `at`.
pub open spec fn le_u32(s: Seq<u8>, at: int) -> u32 {
    (s[at] as int + s[at + 1] as int * 0x100 + s[at + 2] as int * 0x1_0000 + s[at + 3] as int
        * 0x100_0000) as u32
}

/// The unsigned 64-bit integer stored little-endian at `at`.
pub open spec fn le_u64(s: Seq<u8>, at: int) -> u64 {
    (le_u32(s, at) as int + le_u32(s, at + 4) as int * 0x1_0000_0000) as u64
}

/// The smallest multiple of eight that is not below `n`.
pub open spec fn align8(n: int) -> int {
    (n + 7) / 8 * 8
}

/// `align8` rounds up by less than one word and lands on a word boundary.
pub proof fn lemma_align8(n: int)
    requires
        0 <= n,
    ensures
        n <= align8(n) < n + 8,
        align8(n) % 8 == 0,
        n % 8 == 0 ==> align8(n) == n,
{
}

/// `align8` is monotone.
pub proof fn lemma_align8_monotone(a: int, b: int)
    requires
        0 <= a <= b,
    ensures
        align8(a) <= align8(b),
{
}

/// The reader of `le_u16`.
pub(crate) fn read_u16_le(data: &[u8], at: usize) -> (v: u16)
    requires
        at + 2 <= data.len(),
    ensures
        v == le_u16(data@, at as int),
{
    let b0: u16 = data[at] as u16;
    let b1: u16 = data[at + 1] as u16;
    b0 + b1 * 0x100
}

/// The reader of `le_u32`.
pub(crate) fn read_u32_le(data: &[u8], at: usize) -> (v: u32)
    requires
        at + 4 <= data.len(),
    ensures
        v == le_u32(data@, at as int),
{
    let b0: u32 = data[at] as u32;
    let b1: u32 = data[at + 1] as u32;
    let b2: u32 = data[at + 2] as u32;
    let b3: u32 = data[at + 3] as u32;
    b0 + b1 * 0x100 + b2 * 0x1_0000 + b3 * 0x100_0000
}

/// The reader of `le_u64`.
pub(crate) fn read_u64_le(data: &[u8], at: usize) -> (v: u64)
    requires
        at + 8 <= data.len(),
    ensures
        v == le_u64(data@, at as int),
{
    let lo: u64 = read_u32_le(data, at) as u64;
    let hi: u64 = read_u32_le(data, at + 4) as u64;
    lo + hi * 0x1_0000_0000
}

/// Copies the 32 bytes that start at `at`.
pub(crate) fn read_array32(data: &[u8], at: usize) -> (out: [u8; 32])
    requires
        at + 32 <= data.len(),
    ensures
        out@ == data@.subrange(at as int, at + 32),
{
    let mut out = [0u8; 32];
    let mut i: usize = 0;
    while i < 32
        invariant
            i <= 32,
            at + 32 <= data.len(),
            forall|j: int| 0 <= j < i ==> out@[j] == data@[at + j],
        decreases 32 - i,
    {
        out[i] = data[at + i];
        i += 1;
    }
    assert(out@ =~= data@.subrange(at as int, at + 32));
    out
}

/// Whether two byte strings hold the same bytes.
pub fn bytes_eq(a: &[u8], b: &[u8]) -> (same: bool)
    ensures
        same == (a@ == b@),
{
    if a.len() != b.len() {
        return false;
    }
    let mut i: usize = 0;
    while i < a.len()
        invariant
            i <= a@.len(),
            a@.len() == b@.len(),
            forall|j: int| 0 <= j < i ==> a@[j] == b@[j],
        decreases a@.len() - i,
    {
        if a[i] != b[i] {
            return false;
        }
        i += 1;
    }
    assert(a@ =~= b@);
    true
}

} // verus!
