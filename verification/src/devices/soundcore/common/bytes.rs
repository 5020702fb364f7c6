use vstd::prelude::*;

verus! {

/// Appends `bytes` to the end of `out`.
pub fn push_all(out: &mut Vec<u8>, bytes: &[u8])
    ensures
        final(out)@ == old(out)@ + bytes@,
{
    let ghost start = out@;
    let mut i: usize = 0;
    while i < bytes.len()
        invariant
            i <= bytes@.len(),
            out@ == start + bytes@.subrange(0, i as int),
        decreases bytes@.len() - i,
    {
        out.push(bytes[i]);
        i = i + 1;
        assert(out@ =~= start + bytes@.subrange(0, i as int));
    }
    assert(bytes@.subrange(0, bytes@.len() as int) =~= bytes@);
}

/// The two bytes of `v`, least significant first.
pub open spec fn spec_u16_le(v: u16) -> Seq<u8> {
    seq![(v % 256) as u8, (v / 256) as u8]
}

/// The four bytes of `v`, most significant first.
pub open spec fn spec_u32_be(v: u32) -> Seq<u8> {
    seq![
        (v / 0x100_0000) as u8,
        ((v / 0x1_0000) % 256) as u8,
        ((v / 256) % 256) as u8,
        (v % 256) as u8,
    ]
}

/// The number held little-endian in `lo`, `hi`.
pub open spec fn spec_u16_from_le(lo: u8, hi: u8) -> u16 {
    (hi as int * 256 + lo as int) as u16
}

/// The number held big-endian in four bytes.
pub open spec fn spec_u32_from_be(b0: u8, b1: u8, b2: u8, b3: u8) -> u32 {
    (b0 as int * 0x100_0000 + b1 as int * 0x1_0000 + b2 as int * 256 + b3 as int) as u32
}

pub fn u16_le_bytes(v: u16) -> (r: [u8; 2])
    ensures
        r@ == spec_u16_le(v),
{
    let r = [(v % 256) as u8, (v / 256) as u8];
    assert(r@ =~= spec_u16_le(v));
    r
}

pub fn u16_from_le(lo: u8, hi: u8) -> (r: u16)
    ensures
        r == spec_u16_from_le(lo, hi),
{
    (hi as u16) * 256 + (lo as u16)
}

pub fn u32_be_bytes(v: u32) -> (r: [u8; 4])
    ensures
        r@ == spec_u32_be(v),
{
    let r = [(v / 0x100_0000) as u8, ((v / 0x1_0000) % 256) as u8, ((v / 256) % 256) as u8, (v % 256) as u8];
    assert(r@ =~= spec_u32_be(v));
    r
}

pub fn u32_from_be(b0: u8, b1: u8, b2: u8, b3: u8) -> (r: u32)
    ensures
        r == spec_u32_from_be(b0, b1, b2, b3),
{
    (b0 as u32) * 0x100_0000 + (b1 as u32) * 0x1_0000 + (b2 as u32) * 256 + (b3 as u32)
}

/// Reading back the two bytes of a `u16` gives the `u16`.
pub proof fn lemma_u16_le_roundtrip(v: u16)
    ensures
        spec_u16_from_le(spec_u16_le(v)[0], spec_u16_le(v)[1]) == v,
{
}

/// Reading back the four bytes of a `u32` gives the `u32`.
pub proof fn lemma_u32_be_roundtrip(v: u32)
    ensures
        spec_u32_from_be(spec_u32_be(v)[0], spec_u32_be(v)[1], spec_u32_be(v)[2], spec_u32_be(v)[3]) == v,
{
}

} // verus!
