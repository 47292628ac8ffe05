//! Little-endian byte-level codec: every multi-byte field of a ZIP record is
//! read and written field by field, never by reinterpreting memory.

use vstd::prelude::*;

verus! {

/// The 16-bit little-endian value stored at byte offset `i` of `d`.
pub open spec fn spec_u16_le(d: Seq<u8>, i: int) -> u16 {
    (d[i] as u16) | ((d[i + 1] as u16) << 8)
}

/// The 32-bit little-endian value stored at byte offset `i` of `d`.
pub open spec fn spec_u32_le(d: Seq<u8>, i: int) -> u32 {
    (d[i] as u32) | ((d[i + 1] as u32) << 8) | ((d[i + 2] as u32) << 16)
        | ((d[i + 3] as u32) << 24)
}

/// Reads the 16-bit little-endian value at offset `i`.
pub fn read_u16_le(d: &Vec<u8>, i: usize) -> (r: u16)
    requires
        i + 2 <= d@.len(),
    ensures
        r == spec_u16_le(d@, i as int),
{
    // binding the length shows the verifier that the offsets fit in usize
    let n = d.len();
    let b0 = d[i];
    let b1 = d[i + 1];
    (b0 as u16) | ((b1 as u16) << 8)
}

/// Reads the 32-bit little-endian value at offset `i`.
pub fn read_u32_le(d: &Vec<u8>, i: usize) -> (r: u32)
    requires
        i + 4 <= d@.len(),
    ensures
        r == spec_u32_le(d@, i as int),
{
    // binding the length shows the verifier that the offsets fit in usize
    let n = d.len();
    let b0 = d[i];
    let b1 = d[i + 1];
    let b2 = d[i + 2];
    let b3 = d[i + 3];
    (b0 as u32) | ((b1 as u32) << 8) | ((b2 as u32) << 16) | ((b3 as u32) << 24)
}

/// Appends `x` to `v` as two little-endian bytes.
pub fn push_u16_le(v: &mut Vec<u8>, x: u16)
    ensures
        final(v)@.len() == old(v)@.len() + 2,
        forall|i: int| 0 <= i < old(v)@.len() ==> final(v)@[i] == old(v)@[i],
        spec_u16_le(final(v)@, old(v)@.len() as int) == x,
{
    let lo = (x & 0xff) as u8;
    let hi = ((x >> 8) & 0xff) as u8;
    v.push(lo);
    v.push(hi);
    proof {
        assert((((x & 0xff) as u8) as u16) | (((((x >> 8) & 0xff) as u8) as u16) << 8) == x)
            by (bit_vector);
    }
}

/// Appends `x` to `v` as four little-endian bytes.
pub fn push_u32_le(v: &mut Vec<u8>, x: u32)
    ensures
        final(v)@.len() == old(v)@.len() + 4,
        forall|i: int| 0 <= i < old(v)@.len() ==> final(v)@[i] == old(v)@[i],
        spec_u32_le(final(v)@, old(v)@.len() as int) == x,
{
    let b0 = (x & 0xff) as u8;
    let b1 = ((x >> 8) & 0xff) as u8;
    let b2 = ((x >> 16) & 0xff) as u8;
    let b3 = ((x >> 24) & 0xff) as u8;
    v.push(b0);
    v.push(b1);
    v.push(b2);
    v.push(b3);
    proof {
        assert((((x & 0xff) as u8) as u32) | (((((x >> 8) & 0xff) as u8) as u32) << 8)
            | (((((x >> 16) & 0xff) as u8) as u32) << 16)
            | (((((x >> 24) & 0xff) as u8) as u32) << 24) == x) by (bit_vector);
    }
}

/// Appends all of `b` to `v`.
pub fn push_bytes(v: &mut Vec<u8>, b: &Vec<u8>)
    ensures
        final(v)@.len() == old(v)@.len() + b@.len(),
        forall|i: int| 0 <= i < old(v)@.len() ==> final(v)@[i] == old(v)@[i],
        forall|j: int| 0 <= j < b@.len() ==> final(v)@[old(v)@.len() + j] == b@[j],
{
    let mut i: usize = 0;
    while i < b.len()
        invariant
            i <= b@.len(),
            v@.len() == old(v)@.len() + i,
            forall|k: int| 0 <= k < old(v)@.len() ==> v@[k] == old(v)@[k],
            forall|j: int| 0 <= j < i ==> v@[old(v)@.len() + j] == b@[j],
        decreases b@.len() - i,
    {
        v.push(b[i]);
        i = i + 1;
    }
}

/// Copies the `n` bytes of `d` that start at offset `a` into a fresh vector.
pub fn copy_range(d: &Vec<u8>, a: usize, n: usize) -> (r: Vec<u8>)
    requires
        a + n <= d@.len(),
    ensures
        r@ == d@.subrange(a as int, a as int + n as int),
{
    let mut r: Vec<u8> = Vec::new();
    let mut i: usize = 0;
    while i < n
        invariant
            i <= n,
            a + n <= d@.len(),
            r@.len() == i as int,
            forall|j: int| 0 <= j < i ==> r@[j] == d@[a + j],
        decreases n - i,
    {
        // binding the length shows the verifier that the index fits in usize
        let len = d.len();
        r.push(d[a + i]);
        i = i + 1;
    }
    proof {
        assert(r@ =~= d@.subrange(a as int, a as int + n as int));
    }
    r
}

} // verus!
