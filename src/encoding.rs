//! Bitcoin consensus encoding of integers and length-prefixed byte strings.
use vstd::prelude::*;

verus! {

/// The four little-endian bytes of `x`.
pub open spec fn u32_le(x: u32) -> Seq<u8> {
    seq![
        (x % 0x100) as u8,
        ((x / 0x100) % 0x100) as u8,
        ((x / 0x1_0000) % 0x100) as u8,
        (x / 0x100_0000) as u8,
    ]
}

/// The number that four little-endian bytes stand for.
pub open spec fn le_value(b: Seq<u8>) -> int {
    b[0] as int + 0x100 * b[1] + 0x1_0000 * b[2] + 0x100_0000 * b[3]
}

/// Four little-endian bytes stand for the number they encode.
pub proof fn lemma_u32_le_value(x: u32)
    ensures
        le_value(u32_le(x)) == x,
{
    let v = x as int;
    assert(v == v % 0x100 + 0x100 * ((v / 0x100) % 0x100) + 0x1_0000 * ((v / 0x1_0000) % 0x100)
        + 0x100_0000 * (v / 0x100_0000)) by (nonlinear_arith)
        requires
            0 <= v < 0x1_0000_0000,
    ;
}

/// The eight little-endian bytes of `x`.
pub open spec fn u64_le(x: u64) -> Seq<u8> {
    u32_le((x % 0x1_0000_0000) as u32) + u32_le((x / 0x1_0000_0000) as u32)
}

/// The two little-endian bytes of `x`, which must be below 2^16.
pub open spec fn u16_le(x: nat) -> Seq<u8> {
    seq![(x % 0x100) as u8, ((x / 0x100) % 0x100) as u8]
}

/// The variable-length integer (CompactSize) that prefixes lists and byte strings.
pub open spec fn compact_size(n: nat) -> Seq<u8> {
    if n < 0xfd {
        seq![n as u8]
    } else if n <= 0xffff {
        seq![0xfdu8] + u16_le(n)
    } else if n <= 0xffff_ffff {
        seq![0xfeu8] + u32_le(n as u32)
    } else {
        seq![0xffu8] + u64_le(n as u64)
    }
}

/// A byte string preceded by its length.
pub open spec fn var_bytes(b: Seq<u8>) -> Seq<u8> {
    compact_size(b.len()) + b
}

/// Appends the bytes of `src` to `buf`.
pub fn push_bytes(buf: &mut Vec<u8>, src: &[u8])
    ensures
        final(buf)@ == old(buf)@ + src@,
{
    let ghost start = buf@;
    let mut i: usize = 0;
    while i < src.len()
        invariant
            i <= src@.len(),
            buf@ == start + src@.subrange(0, i as int),
        decreases src@.len() - i,
    {
        buf.push(src[i]);
        i = i + 1;
        assert(buf@ =~= start + src@.subrange(0, i as int));
    }
    assert(src@.subrange(0, i as int) =~= src@);
}

/// Appends the little-endian encoding of `x`.
pub fn push_u32_le(buf: &mut Vec<u8>, x: u32)
    ensures
        final(buf)@ == old(buf)@ + u32_le(x),
{
    buf.push((x % 0x100) as u8);
    buf.push(((x / 0x100) % 0x100) as u8);
    buf.push(((x / 0x1_0000) % 0x100) as u8);
    buf.push((x / 0x100_0000) as u8);
    assert(final(buf)@ =~= old(buf)@ + u32_le(x));
}

/// Appends the little-endian encoding of `x`.
pub fn push_u64_le(buf: &mut Vec<u8>, x: u64)
    ensures
        final(buf)@ == old(buf)@ + u64_le(x),
{
    push_u32_le(buf, (x % 0x1_0000_0000) as u32);
    push_u32_le(buf, (x / 0x1_0000_0000) as u32);
    assert(final(buf)@ =~= old(buf)@ + u64_le(x));
}

/// Appends the CompactSize encoding of `n`.
pub fn push_compact_size(buf: &mut Vec<u8>, n: usize)
    ensures
        final(buf)@ == old(buf)@ + compact_size(n as nat),
{
    if n < 0xfd {
        buf.push(n as u8);
    } else if n <= 0xffff {
        buf.push(0xfd);
        buf.push((n % 0x100) as u8);
        buf.push(((n / 0x100) % 0x100) as u8);
    } else if n <= 0xffff_ffff {
        buf.push(0xfe);
        push_u32_le(buf, n as u32);
    } else {
        buf.push(0xff);
        push_u64_le(buf, n as u64);
    }
    assert(final(buf)@ =~= old(buf)@ + compact_size(n as nat));
}

/// Appends `src` preceded by its CompactSize length.
pub fn push_var_bytes(buf: &mut Vec<u8>, src: &[u8])
    ensures
        final(buf)@ == old(buf)@ + var_bytes(src@),
{
    push_compact_size(buf, src.len());
    push_bytes(buf, src);
    assert(final(buf)@ =~= old(buf)@ + var_bytes(src@));
}

} // verus!
