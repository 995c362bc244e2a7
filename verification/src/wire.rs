//! Little-endian integers on the wire: their mathematical reading, and the
//! executable helpers that read and append them.
use vstd::prelude::*;

verus! {

/// The unsigned 16-bit little-endian value stored at `b[i..i + 2]`.
pub open spec fn le_u16(b: Seq<u8>, i: int) -> int {
    b[i] + 256 * b[i + 1]
}

/// The unsigned 32-bit little-endian value stored at `b[i..i + 4]`.
pub open spec fn le_u32(b: Seq<u8>, i: int) -> int {
    b[i] + 256 * b[i + 1] + 65536 * b[i + 2] + 16777216 * b[i + 3]
}

/// The unsigned 64-bit little-endian value stored at `b[i..i + 8]`.
pub open spec fn le_u64(b: Seq<u8>, i: int) -> int {
    le_u32(b, i) + 4294967296 * le_u32(b, i + 4)
}

/// The four little-endian bytes of a 32-bit value.
pub open spec fn u32_le_bytes(v: int) -> Seq<u8> {
    seq![
        (v % 256) as u8,
        (v / 256 % 256) as u8,
        (v / 65536 % 256) as u8,
        (v / 16777216 % 256) as u8,
    ]
}

/// The eight little-endian bytes of a 64-bit value.
pub open spec fn u64_le_bytes(v: int) -> Seq<u8> {
    u32_le_bytes(v % 4294967296) + u32_le_bytes(v / 4294967296)
}

/// Reading back the four bytes of a 32-bit value gives the value.
pub proof fn lemma_u32_roundtrip(v: int)
    requires
        0 <= v < 0x1_0000_0000,
    ensures
        u32_le_bytes(v).len() == 4,
        le_u32(u32_le_bytes(v), 0) == v,
{
    let b = u32_le_bytes(v);
    assert(b[0] == v % 256);
    assert(b[1] == v / 256 % 256);
    assert(b[2] == v / 65536 % 256);
    assert(b[3] == v / 16777216 % 256);
    assert(v % 256 + 256 * (v / 256 % 256) + 65536 * (v / 65536 % 256) + 16777216 * (v
        / 16777216 % 256) == v) by (nonlinear_arith)
        requires
            0 <= v < 0x1_0000_0000,
    {
        vstd::arithmetic::div_mod::lemma_fundamental_div_mod(v, 256);
        vstd::arithmetic::div_mod::lemma_fundamental_div_mod(v / 256, 256);
        vstd::arithmetic::div_mod::lemma_fundamental_div_mod(v / 65536, 256);
        vstd::arithmetic::div_mod::lemma_div_denominator(v, 256, 256);
        vstd::arithmetic::div_mod::lemma_div_denominator(v, 65536, 256);
    }
}

/// Reading back the eight bytes of a 64-bit value gives the value.
pub proof fn lemma_u64_roundtrip(v: int)
    requires
        0 <= v < 0x1_0000_0000_0000_0000,
    ensures
        u64_le_bytes(v).len() == 8,
        le_u64(u64_le_bytes(v), 0) == v,
{
    let lo = v % 4294967296;
    let hi = v / 4294967296;
    lemma_u32_roundtrip(lo);
    assert(0 <= hi < 0x1_0000_0000) by (nonlinear_arith)
        requires
            0 <= v < 0x1_0000_0000_0000_0000,
            hi == v / 4294967296,
    ;
    lemma_u32_roundtrip(hi);
    let b = u64_le_bytes(v);
    assert(le_u32(b, 0) == le_u32(u32_le_bytes(lo), 0));
    assert(le_u32(b, 4) == le_u32(u32_le_bytes(hi), 0));
    vstd::arithmetic::div_mod::lemma_fundamental_div_mod(v, 4294967296);
}

/// The value stored little-endian at `data[i..i + 2]`.
pub fn get_u16_le(data: &[u8], i: usize) -> (v: u16)
    requires
        i + 2 <= data@.len(),
    ensures
        v as int == le_u16(data@, i as int),
{
    data[i] as u16 + (data[i + 1] as u16) * 256
}

/// The value stored little-endian at `data[i..i + 4]`.
pub fn get_u32_le(data: &[u8], i: usize) -> (v: u32)
    requires
        i + 4 <= data@.len(),
    ensures
        v as int == le_u32(data@, i as int),
{
    data[i] as u32 + (data[i + 1] as u32) * 256 + (data[i + 2] as u32) * 65536 + (data[i
        + 3] as u32) * 16777216
}

/// The value stored little-endian at `data[i..i + 8]`.
pub fn get_u64_le(data: &[u8], i: usize) -> (v: u64)
    requires
        i + 8 <= data@.len(),
    ensures
        v as int == le_u64(data@, i as int),
{
    let len = data.len();
    assert(i + 8 <= len);
    let lo = get_u32_le(data, i) as u64;
    let hi = get_u32_le(data, i + 4) as u64;
    lo + hi * 4294967296
}

/// Appends the four little-endian bytes of `v`.
pub fn push_u32_le(out: &mut Vec<u8>, v: u32)
    ensures
        final(out)@ == old(out)@ + u32_le_bytes(v as int),
{
    out.push((v % 256) as u8);
    out.push((v / 256 % 256) as u8);
    out.push((v / 65536 % 256) as u8);
    out.push((v / 16777216 % 256) as u8);
    assert(final(out)@ =~= old(out)@ + u32_le_bytes(v as int));
}

/// Appends the eight little-endian bytes of `v`.
pub fn push_u64_le(out: &mut Vec<u8>, v: u64)
    ensures
        final(out)@ == old(out)@ + u64_le_bytes(v as int),
{
    let ghost start = out@;
    push_u32_le(out, (v % 4294967296) as u32);
    push_u32_le(out, (v / 4294967296) as u32);
    assert(final(out)@ =~= start + u64_le_bytes(v as int));
}

/// Appends every byte of `src`, in order.
pub fn push_bytes(out: &mut Vec<u8>, src: &[u8])
    ensures
        final(out)@ == old(out)@ + src@,
{
    let ghost start = out@;
    let mut i: usize = 0;
    while i < src.len()
        invariant
            i <= src@.len(),
            out@ == start + src@.take(i as int),
        decreases src@.len() - i,
    {
        out.push(src[i]);
        i = i + 1;
        assert(out@ =~= start + src@.take(i as int));
    }
    assert(src@.take(i as int) =~= src@);
}

} // verus!
