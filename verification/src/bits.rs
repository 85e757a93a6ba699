//! Byte-level building blocks: little-endian integer fields, big-endian bit
//!-group words, and two's-complement wire images of signed fields.
//!
//! Bit-field groups are modelled as one machine word per group whose most
//! significant bit is the first bit on the wire; the word is then laid out
//! big-endian, so the first wire byte holds the first eight bits.

use vstd::prelude::*;

verus! {

// ---------------------------------------------------------------------------
// Little-endian integers
// ---------------------------------------------------------------------------

pub open spec fn u16_lo(v: u16) -> u8 {
    (v & 0xff) as u8
}

pub open spec fn u16_hi(v: u16) -> u8 {
    ((v >> 8) & 0xff) as u8
}

/// The two wire bytes of a little-endian 16-bit field.
pub open spec fn u16_le(v: u16) -> Seq<u8> {
    seq![u16_lo(v), u16_hi(v)]
}

pub open spec fn u16_from_le(b0: u8, b1: u8) -> u16 {
    (b0 as u16) | ((b1 as u16) << 8)
}

/// The four wire bytes of a little-endian 32-bit field.
pub open spec fn u32_le(v: u32) -> Seq<u8> {
    seq![
        (v & 0xff) as u8,
        ((v >> 8) & 0xff) as u8,
        ((v >> 16) & 0xff) as u8,
        ((v >> 24) & 0xff) as u8,
    ]
}

pub open spec fn u32_from_le(b0: u8, b1: u8, b2: u8, b3: u8) -> u32 {
    (b0 as u32) | ((b1 as u32) << 8) | ((b2 as u32) << 16) | ((b3 as u32) << 24)
}

/// The eight wire bytes of a little-endian 64-bit field.
pub open spec fn u64_le(v: u64) -> Seq<u8> {
    seq![
        (v & 0xff) as u8,
        ((v >> 8) & 0xff) as u8,
        ((v >> 16) & 0xff) as u8,
        ((v >> 24) & 0xff) as u8,
        ((v >> 32) & 0xff) as u8,
        ((v >> 40) & 0xff) as u8,
        ((v >> 48) & 0xff) as u8,
        ((v >> 56) & 0xff) as u8,
    ]
}

pub open spec fn u64_from_le(
    b0: u8, b1: u8, b2: u8, b3: u8, b4: u8, b5: u8, b6: u8, b7: u8,
) -> u64 {
    (b0 as u64) | ((b1 as u64) << 8) | ((b2 as u64) << 16) | ((b3 as u64) << 24)
        | ((b4 as u64) << 32) | ((b5 as u64) << 40) | ((b6 as u64) << 48)
        | ((b7 as u64) << 56)
}

// ---------------------------------------------------------------------------
// Big-endian bit-group words
// ---------------------------------------------------------------------------

/// The two wire bytes of a 16-bit bit-field group, first wire bit at bit 15.
pub open spec fn u16_be(w: u16) -> Seq<u8> {
    seq![((w >> 8) & 0xff) as u8, (w & 0xff) as u8]
}

pub open spec fn u16_from_be(b0: u8, b1: u8) -> u16 {
    ((b0 as u16) << 8) | (b1 as u16)
}

/// The four wire bytes of a 32-bit bit-field group, first wire bit at bit 31.
pub open spec fn u32_be(w: u32) -> Seq<u8> {
    seq![
        ((w >> 24) & 0xff) as u8,
        ((w >> 16) & 0xff) as u8,
        ((w >> 8) & 0xff) as u8,
        (w & 0xff) as u8,
    ]
}

pub open spec fn u32_from_be(b0: u8, b1: u8, b2: u8, b3: u8) -> u32 {
    ((b0 as u32) << 24) | ((b1 as u32) << 16) | ((b2 as u32) << 8) | (b3 as u32)
}

// ---------------------------------------------------------------------------
// Single bits and masked casts
// ---------------------------------------------------------------------------

#[verifier::opaque]
pub open spec fn b2w8(b: bool) -> u8 {
    if b {
        1
    } else {
        0
    }
}

#[verifier::opaque]
pub open spec fn b2w32(b: bool) -> u32 {
    if b {
        1
    } else {
        0
    }
}

/// The single-bit image of a flag: below two, and one exactly for a set flag.
pub proof fn lemma_b2w8(b: bool)
    ensures
        b2w8(b) < 2,
        (b2w8(b) == 1) == b,
{
    reveal(b2w8);
}

/// The single-bit image of a flag: below two, and one exactly for a set flag.
pub proof fn lemma_b2w32(b: bool)
    ensures
        b2w32(b) < 2,
        (b2w32(b) == 1) == b,
{
    reveal(b2w32);
}

pub fn b8(b: bool) -> (r: u8)
    ensures
        r == b2w8(b),
{
    proof {
        reveal(b2w8);
    }
    if b {
        1
    } else {
        0
    }
}

pub fn b32(b: bool) -> (r: u32)
    ensures
        r == b2w32(b),
{
    proof {
        reveal(b2w32);
    }
    if b {
        1
    } else {
        0
    }
}

/// The low byte of `w & m` for a mask below 256.
pub fn mask8(w: u32, m: u32) -> (r: u8)
    requires
        m < 0x100,
    ensures
        r == (w & m) as u8,
{
    proof {
        assert(w & m <= m) by (bit_vector);
    }
    (w & m) as u8
}

/// The low byte of `w & m` for a 16-bit word and a mask below 256.
pub fn mask8_16(w: u16, m: u16) -> (r: u8)
    requires
        m < 0x100,
    ensures
        r == (w & m) as u8,
{
    proof {
        assert(w & m <= m) by (bit_vector);
    }
    (w & m) as u8
}

/// The low 16 bits of a 32-bit word.
pub fn low16_32(w: u32) -> (r: u16)
    ensures
        r == (w & 0xffff) as u16,
{
    proof {
        assert(w & 0xffff < 0x10000) by (bit_vector);
    }
    (w & 0xffff) as u16
}

// ---------------------------------------------------------------------------
// Signed fields as two's-complement wire images
// ---------------------------------------------------------------------------

pub open spec fn u8_of_i8(v: i8) -> u8 {
    if v >= 0 {
        v as u8
    } else {
        (v + 256) as u8
    }
}

pub open spec fn i8_of_u8(w: u8) -> i8 {
    if w < 128 {
        w as i8
    } else {
        (w - 256) as i8
    }
}

pub open spec fn u16_of_i16(v: i16) -> u16 {
    if v >= 0 {
        v as u16
    } else {
        (v + 0x10000) as u16
    }
}

pub open spec fn i16_of_u16(w: u16) -> i16 {
    if w < 0x8000 {
        w as i16
    } else {
        (w - 0x10000) as i16
    }
}

pub proof fn lemma_i8_wire_roundtrip(v: i8)
    ensures
        i8_of_u8(u8_of_i8(v)) == v,
{
}

pub proof fn lemma_i16_wire_roundtrip(v: i16)
    ensures
        i16_of_u16(u16_of_i16(v)) == v,
{
}

// ---------------------------------------------------------------------------
// Round-trip lemmas for the integer layouts
// ---------------------------------------------------------------------------

pub proof fn lemma_u16_le_roundtrip(v: u16)
    by (bit_vector)
    ensures
        u16_from_le(u16_lo(v), u16_hi(v)) == v,
        v & 0xff < 256,
        (v >> 8) & 0xff < 256,
{
}

/// The two bytes of a reassembled 16-bit value are the bytes it was read
/// from.
pub proof fn lemma_u16_from_le_split(b0: u8, b1: u8)
    by (bit_vector)
    ensures
        u16_lo(u16_from_le(b0, b1)) == b0,
        u16_hi(u16_from_le(b0, b1)) == b1,
{
}

pub proof fn lemma_u32_le_roundtrip(v: u32)
    by (bit_vector)
    ensures
        u32_from_le(
            (v & 0xff) as u8,
            ((v >> 8) & 0xff) as u8,
            ((v >> 16) & 0xff) as u8,
            ((v >> 24) & 0xff) as u8,
        ) == v,
        v & 0xff < 256,
        (v >> 8) & 0xff < 256,
        (v >> 16) & 0xff < 256,
        (v >> 24) & 0xff < 256,
{
}

pub proof fn lemma_u64_le_roundtrip(v: u64)
    by (bit_vector)
    ensures
        u64_from_le(
            (v & 0xff) as u8,
            ((v >> 8) & 0xff) as u8,
            ((v >> 16) & 0xff) as u8,
            ((v >> 24) & 0xff) as u8,
            ((v >> 32) & 0xff) as u8,
            ((v >> 40) & 0xff) as u8,
            ((v >> 48) & 0xff) as u8,
            ((v >> 56) & 0xff) as u8,
        ) == v,
        v & 0xff < 256,
        (v >> 8) & 0xff < 256,
        (v >> 16) & 0xff < 256,
        (v >> 24) & 0xff < 256,
        (v >> 32) & 0xff < 256,
        (v >> 40) & 0xff < 256,
        (v >> 48) & 0xff < 256,
        (v >> 56) & 0xff < 256,
{
}

pub proof fn lemma_u16_be_roundtrip(w: u16)
    by (bit_vector)
    ensures
        u16_from_be(((w >> 8) & 0xff) as u8, (w & 0xff) as u8) == w,
        w & 0xff < 256,
        (w >> 8) & 0xff < 256,
{
}

pub proof fn lemma_u32_be_roundtrip(w: u32)
    by (bit_vector)
    ensures
        u32_from_be(
            ((w >> 24) & 0xff) as u8,
            ((w >> 16) & 0xff) as u8,
            ((w >> 8) & 0xff) as u8,
            (w & 0xff) as u8,
        ) == w,
        w & 0xff < 256,
        (w >> 8) & 0xff < 256,
        (w >> 16) & 0xff < 256,
        (w >> 24) & 0xff < 256,
{
}

// ---------------------------------------------------------------------------
// Executable writers
// ---------------------------------------------------------------------------

pub fn push_u16_le(out: &mut Vec<u8>, v: u16)
    ensures
        final(out)@ == old(out)@ + u16_le(v),
{
    proof {
        lemma_u16_le_roundtrip(v);
    }
    out.push((v & 0xff) as u8);
    out.push(((v >> 8) & 0xff) as u8);
    assert(out@ =~= old(out)@ + u16_le(v));
}

pub fn push_u32_le(out: &mut Vec<u8>, v: u32)
    ensures
        final(out)@ == old(out)@ + u32_le(v),
{
    proof {
        lemma_u32_le_roundtrip(v);
    }
    out.push((v & 0xff) as u8);
    out.push(((v >> 8) & 0xff) as u8);
    out.push(((v >> 16) & 0xff) as u8);
    out.push(((v >> 24) & 0xff) as u8);
    assert(out@ =~= old(out)@ + u32_le(v));
}

pub fn push_u64_le(out: &mut Vec<u8>, v: u64)
    ensures
        final(out)@ == old(out)@ + u64_le(v),
{
    proof {
        lemma_u64_le_roundtrip(v);
    }
    out.push((v & 0xff) as u8);
    out.push(((v >> 8) & 0xff) as u8);
    out.push(((v >> 16) & 0xff) as u8);
    out.push(((v >> 24) & 0xff) as u8);
    out.push(((v >> 32) & 0xff) as u8);
    out.push(((v >> 40) & 0xff) as u8);
    out.push(((v >> 48) & 0xff) as u8);
    out.push(((v >> 56) & 0xff) as u8);
    assert(out@ =~= old(out)@ + u64_le(v));
}

pub fn push_u16_be(out: &mut Vec<u8>, w: u16)
    ensures
        final(out)@ == old(out)@ + u16_be(w),
{
    proof {
        lemma_u16_be_roundtrip(w);
    }
    out.push(((w >> 8) & 0xff) as u8);
    out.push((w & 0xff) as u8);
    assert(out@ =~= old(out)@ + u16_be(w));
}

pub fn push_u32_be(out: &mut Vec<u8>, w: u32)
    ensures
        final(out)@ == old(out)@ + u32_be(w),
{
    proof {
        lemma_u32_be_roundtrip(w);
    }
    out.push(((w >> 24) & 0xff) as u8);
    out.push(((w >> 16) & 0xff) as u8);
    out.push(((w >> 8) & 0xff) as u8);
    out.push((w & 0xff) as u8);
    assert(out@ =~= old(out)@ + u32_be(w));
}

// ---------------------------------------------------------------------------
// Executable readers
// ---------------------------------------------------------------------------

pub fn get_u16_le(b: &[u8], i: usize) -> (r: u16)
    requires
        i + 2 <= b@.len(),
    ensures
        r == u16_from_le(b@[i as int], b@[i + 1]),
{
    (b[i] as u16) | ((b[i + 1] as u16) << 8)
}

pub fn get_u32_le(b: &[u8], i: usize) -> (r: u32)
    requires
        i + 4 <= b@.len(),
    ensures
        r == u32_from_le(b@[i as int], b@[i + 1], b@[i + 2], b@[i + 3]),
{
    (b[i] as u32) | ((b[i + 1] as u32) << 8) | ((b[i + 2] as u32) << 16)
        | ((b[i + 3] as u32) << 24)
}

pub fn get_u64_le(b: &[u8], i: usize) -> (r: u64)
    requires
        i + 8 <= b@.len(),
    ensures
        r == u64_from_le(
            b@[i as int], b@[i + 1], b@[i + 2], b@[i + 3],
            b@[i + 4], b@[i + 5], b@[i + 6], b@[i + 7],
        ),
{
    (b[i] as u64) | ((b[i + 1] as u64) << 8) | ((b[i + 2] as u64) << 16)
        | ((b[i + 3] as u64) << 24) | ((b[i + 4] as u64) << 32)
        | ((b[i + 5] as u64) << 40) | ((b[i + 6] as u64) << 48)
        | ((b[i + 7] as u64) << 56)
}

pub fn get_u16_be(b: &[u8], i: usize) -> (r: u16)
    requires
        i + 2 <= b@.len(),
    ensures
        r == u16_from_be(b@[i as int], b@[i + 1]),
{
    ((b[i] as u16) << 8) | (b[i + 1] as u16)
}

pub fn get_u32_be(b: &[u8], i: usize) -> (r: u32)
    requires
        i + 4 <= b@.len(),
    ensures
        r == u32_from_be(b@[i as int], b@[i + 1], b@[i + 2], b@[i + 3]),
{
    ((b[i] as u32) << 24) | ((b[i + 1] as u32) << 16) | ((b[i + 2] as u32) << 8)
        | (b[i + 3] as u32)
}

// ---------------------------------------------------------------------------
// Executable signed conversions
// ---------------------------------------------------------------------------

pub fn i8_to_wire(v: i8) -> (r: u8)
    ensures
        r == u8_of_i8(v),
{
    if v >= 0 {
        v as u8
    } else {
        ((v as i32) + 256) as u8
    }
}

pub fn wire_to_i8(w: u8) -> (r: i8)
    ensures
        r == i8_of_u8(w),
{
    if w < 128 {
        w as i8
    } else {
        ((w as i32) - 256) as i8
    }
}

pub fn i16_to_wire(v: i16) -> (r: u16)
    ensures
        r == u16_of_i16(v),
{
    if v >= 0 {
        v as u16
    } else {
        ((v as i32) + 0x10000) as u16
    }
}

pub fn wire_to_i16(w: u16) -> (r: i16)
    ensures
        r == i16_of_u16(w),
{
    if w < 0x8000 {
        w as i16
    } else {
        ((w as i32) - 0x10000) as i16
    }
}

// ---------------------------------------------------------------------------
// Byte-run writers and readers
// ---------------------------------------------------------------------------

/// Append every byte of `v`.
pub fn push_bytes(out: &mut Vec<u8>, v: &Vec<u8>)
    ensures
        final(out)@ == old(out)@ + v@,
{
    let mut i: usize = 0;
    while i < v.len()
        invariant
            i <= v@.len(),
            out@ == old(out)@ + v@.subrange(0, i as int),
        decreases v@.len() - i,
    {
        out.push(v[i]);
        i = i + 1;
        assert(out@ =~= old(out)@ + v@.subrange(0, i as int));
    }
    assert(out@ =~= old(out)@ + v@);
}

/// Append the two's-complement wire image of every signed byte of `v`.
pub fn push_i8s(out: &mut Vec<u8>, v: &Vec<i8>)
    ensures
        final(out)@ == old(out)@ + v@.map_values(|x: i8| u8_of_i8(x)),
{
    let mut i: usize = 0;
    while i < v.len()
        invariant
            i <= v@.len(),
            out@ == old(out)@ + v@.subrange(0, i as int).map_values(|x: i8| u8_of_i8(x)),
        decreases v@.len() - i,
    {
        out.push(i8_to_wire(v[i]));
        i = i + 1;
        assert(out@ =~= old(out)@ + v@.subrange(0, i as int).map_values(|x: i8| u8_of_i8(x)));
    }
    assert(v@.subrange(0, v@.len() as int) =~= v@);
}

/// Copy the bytes `b[i..j]` into a fresh vector.
pub fn bytes_to_vec(b: &[u8], i: usize, j: usize) -> (r: Vec<u8>)
    requires
        i <= j <= b@.len(),
    ensures
        r@ == b@.subrange(i as int, j as int),
{
    let mut r: Vec<u8> = Vec::new();
    let mut k: usize = i;
    while k < j
        invariant
            i <= k <= j <= b@.len(),
            r@ == b@.subrange(i as int, k as int),
        decreases j - k,
    {
        r.push(b[k]);
        k = k + 1;
        assert(r@ =~= b@.subrange(i as int, k as int));
    }
    r
}

/// Read the bytes `b[i..j]` as signed deltas.
pub fn bytes_to_i8_vec(b: &[u8], i: usize, j: usize) -> (r: Vec<i8>)
    requires
        i <= j <= b@.len(),
    ensures
        r@ == b@.subrange(i as int, j as int).map_values(|x: u8| i8_of_u8(x)),
{
    let mut r: Vec<i8> = Vec::new();
    let mut k: usize = i;
    while k < j
        invariant
            i <= k <= j <= b@.len(),
            r@ == b@.subrange(i as int, k as int).map_values(|x: u8| i8_of_u8(x)),
        decreases j - k,
    {
        r.push(wire_to_i8(b[k]));
        k = k + 1;
        assert(r@ =~= b@.subrange(i as int, k as int).map_values(|x: u8| i8_of_u8(x)));
    }
    r
}

} // verus!
