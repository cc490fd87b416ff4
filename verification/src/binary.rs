//! Big-endian reads and writes of 16- and 32-bit integers over byte
//! buffers, with their mathematical models.

use vstd::pervasive::VecAdditionalExecFns;
use vstd::prelude::*;

verus! {

/// The 16-bit value encoded big-endian by two bytes.
pub open spec fn be16(b0: u8, b1: u8) -> u16 {
    (b0 * 0x100 + b1) as u16
}

/// The 32-bit value encoded big-endian by four bytes.
pub open spec fn be32(b0: u8, b1: u8, b2: u8, b3: u8) -> u32 {
    (be16(b0, b1) * 0x10000 + be16(b2, b3)) as u32
}

/// High byte of a 16-bit value.
pub open spec fn hi8(v: u16) -> u8 {
    (v / 0x100) as u8
}

/// Low byte of a 16-bit value.
pub open spec fn lo8(v: u16) -> u8 {
    (v % 0x100) as u8
}

/// High 16-bit half of a 32-bit value.
pub open spec fn hi16(v: u32) -> u16 {
    (v / 0x10000) as u16
}

/// Low 16-bit half of a 32-bit value.
pub open spec fn lo16(v: u32) -> u16 {
    (v % 0x10000) as u16
}

/// Reading back the two bytes of a 16-bit value gives its halves.
pub proof fn lemma_be16_inverse(b0: u8, b1: u8)
    ensures
        hi8(be16(b0, b1)) == b0,
        lo8(be16(b0, b1)) == b1,
{
    assert((b0 * 0x100 + b1) / 0x100 == b0) by {
        assert(b0 * 0x100 + b1 == 0x100 * b0 + b1);
        vstd::arithmetic::div_mod::lemma_fundamental_div_mod_converse(
            b0 * 0x100 + b1,
            0x100,
            b0 as int,
            b1 as int,
        );
    }
    assert((b0 * 0x100 + b1) % 0x100 == b1) by {
        vstd::arithmetic::div_mod::lemma_fundamental_div_mod_converse(
            b0 * 0x100 + b1,
            0x100,
            b0 as int,
            b1 as int,
        );
    }
}

/// Reading back the two 16-bit halves of a 32-bit value gives the halves.
pub proof fn lemma_be32_inverse(h: u16, l: u16)
    ensures
        hi16((h * 0x10000 + l) as u32) == h,
        lo16((h * 0x10000 + l) as u32) == l,
{
    vstd::arithmetic::div_mod::lemma_fundamental_div_mod_converse(
        h * 0x10000 + l,
        0x10000,
        h as int,
        l as int,
    );
}

/// Read the big-endian 16-bit value at byte offset `i`.
pub fn read_u16(raw: &[u8], i: usize) -> (r: u16)
    requires
        i + 2 <= raw@.len(),
    ensures
        r == be16(raw@[i as int], raw@[i as int + 1]),
{
    let hi = raw[i] as u16;
    let lo = raw[i + 1] as u16;
    hi * 0x100 + lo
}

/// Write `v` big-endian at byte offset `i`.
pub fn write_u16(raw: &mut Vec<u8>, i: usize, v: u16)
    requires
        i + 2 <= old(raw)@.len(),
    ensures
        final(raw)@ == old(raw)@.update(i as int, hi8(v)).update(i as int + 1, lo8(v)),
{
    let n = raw.len();
    assert(i + 2 <= n);
    assert(v / 0x100 <= 0xff);
    raw.set(i, (v / 0x100) as u8);
    raw.set(i + 1, (v % 0x100) as u8);
}

/// Read the big-endian 32-bit value at byte offset `i`.
pub fn read_u32(raw: &[u8], i: usize) -> (r: u32)
    requires
        i + 4 <= raw@.len(),
    ensures
        r == be32(raw@[i as int], raw@[i as int + 1], raw@[i as int + 2], raw@[i as int + 3]),
{
    let n = raw.len();
    assert(i + 4 <= n);
    let hi = read_u16(raw, i) as u32;
    let lo = read_u16(raw, i + 2) as u32;
    hi * 0x10000 + lo
}

/// Write `v` big-endian at byte offset `i`.
pub fn write_u32(raw: &mut Vec<u8>, i: usize, v: u32)
    requires
        i + 4 <= old(raw)@.len(),
    ensures
        final(raw)@ == old(raw)@.update(i as int, hi8(hi16(v))).update(
            i as int + 1,
            lo8(hi16(v)),
        ).update(i as int + 2, hi8(lo16(v))).update(i as int + 3, lo8(lo16(v))),
{
    let n = raw.len();
    assert(i + 4 <= n);
    assert(v / 0x10000 <= 0xffff);
    write_u16(raw, i, (v / 0x10000) as u16);
    write_u16(raw, i + 2, (v % 0x10000) as u16);
}

} // verus!
