//! Little-endian fixed-width integer fields inside a byte buffer: spec-level
//! values, verified readers, and verified writers used by the encoders.

use vstd::prelude::*;

verus! {

/// Value of the two-byte little-endian field at `i`.
pub open spec fn u16_le(s: Seq<u8>, i: int) -> int {
    s[i] + 0x100 * s[i + 1]
}

/// Value of the four-byte little-endian field at `i`.
pub open spec fn u32_le(s: Seq<u8>, i: int) -> int {
    s[i] + 0x100 * s[i + 1] + 0x1_0000 * s[i + 2] + 0x100_0000 * s[i + 3]
}

/// Value of the eight-byte little-endian field at `i`.
pub open spec fn u64_le(s: Seq<u8>, i: int) -> int {
    u32_le(s, i) + 0x1_0000_0000 * u32_le(s, i + 4)
}

pub fn read_u8_at(data: &Vec<u8>, pos: usize) -> (r: u8)
    requires
        pos < data@.len(),
    ensures
        r == data@[pos as int],
{
    data[pos]
}

pub fn read_u16_at(data: &Vec<u8>, pos: usize) -> (r: u16)
    requires
        pos + 2 <= data@.len(),
    ensures
        r == u16_le(data@, pos as int),
{
    // Binding the length shows the solver that the positions fit in usize.
    let _len: usize = data.len();
    let b0 = data[pos] as u16;
    let b1 = data[pos + 1] as u16;
    b0 + 0x100 * b1
}

pub fn read_u32_at(data: &Vec<u8>, pos: usize) -> (r: u32)
    requires
        pos + 4 <= data@.len(),
    ensures
        r == u32_le(data@, pos as int),
{
    // Binding the length shows the solver that the positions fit in usize.
    let _len: usize = data.len();
    let b0 = data[pos] as u32;
    let b1 = data[pos + 1] as u32;
    let b2 = data[pos + 2] as u32;
    let b3 = data[pos + 3] as u32;
    b0 + 0x100 * b1 + 0x1_0000 * b2 + 0x100_0000 * b3
}

pub fn read_u64_at(data: &Vec<u8>, pos: usize) -> (r: u64)
    requires
        pos + 8 <= data@.len(),
    ensures
        r == u64_le(data@, pos as int),
{
    // Binding the length shows the solver that the positions fit in usize.
    let _len: usize = data.len();
    let lo = read_u32_at(data, pos) as u64;
    let hi = read_u32_at(data, pos + 4) as u64;
    lo + 0x1_0000_0000 * hi
}

pub fn push_u16_le(out: &mut Vec<u8>, v: u16)
    ensures
        final(out)@.len() == old(out)@.len() + 2,
        final(out)@.subrange(0, old(out)@.len() as int) == old(out)@,
        forall|j: int| 0 <= j < old(out)@.len() ==> final(out)@[j] == old(out)@[j],
        u16_le(final(out)@, old(out)@.len() as int) == v,
{
    let b0 = (v % 0x100) as u8;
    let b1 = (v / 0x100) as u8;
    out.push(b0);
    out.push(b1);
    proof {
        assert(out@.subrange(0, old(out)@.len() as int) =~= old(out)@);
        assert(b0 + 0x100 * b1 == v) by {
            assert(v % 0x100 + 0x100 * (v / 0x100) == v) by (nonlinear_arith);
        };
    }
}

pub fn push_u32_le(out: &mut Vec<u8>, v: u32)
    ensures
        final(out)@.len() == old(out)@.len() + 4,
        final(out)@.subrange(0, old(out)@.len() as int) == old(out)@,
        forall|j: int| 0 <= j < old(out)@.len() ==> final(out)@[j] == old(out)@[j],
        u32_le(final(out)@, old(out)@.len() as int) == v,
{
    let b0 = (v % 0x100) as u8;
    let b1 = ((v / 0x100) % 0x100) as u8;
    let b2 = ((v / 0x1_0000) % 0x100) as u8;
    let b3 = (v / 0x100_0000) as u8;
    out.push(b0);
    out.push(b1);
    out.push(b2);
    out.push(b3);
    proof {
        assert(out@.subrange(0, old(out)@.len() as int) =~= old(out)@);
        assert(v % 0x100 + 0x100 * ((v / 0x100) % 0x100) + 0x1_0000 * ((v / 0x1_0000) % 0x100)
            + 0x100_0000 * (v / 0x100_0000) == v) by (bit_vector);
    }
}

pub fn push_u64_le(out: &mut Vec<u8>, v: u64)
    ensures
        final(out)@.len() == old(out)@.len() + 8,
        final(out)@.subrange(0, old(out)@.len() as int) == old(out)@,
        forall|j: int| 0 <= j < old(out)@.len() ==> final(out)@[j] == old(out)@[j],
        u64_le(final(out)@, old(out)@.len() as int) == v,
{
    let lo = (v % 0x1_0000_0000) as u32;
    let hi = (v / 0x1_0000_0000) as u32;
    push_u32_le(out, lo);
    push_u32_le(out, hi);
    proof {
        assert(out@.subrange(0, old(out)@.len() as int) =~= old(out)@);
        assert(u32_le(out@, old(out)@.len() as int) == lo);
        assert(lo + 0x1_0000_0000 * hi == v) by {
            assert(v % 0x1_0000_0000 + 0x1_0000_0000 * (v / 0x1_0000_0000) == v)
                by (nonlinear_arith);
        };
    }
}

} // verus!
