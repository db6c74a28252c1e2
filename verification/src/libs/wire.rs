//! Integers in network byte order.

use vstd::prelude::*;

verus! {

/// The two bytes of `x`, most significant first.
pub open spec fn be16(x: u16) -> Seq<u8> {
    seq![(x / 256) as u8, (x % 256) as u8]
}

/// The number that two bytes in network order stand for.
pub open spec fn be16_value(hi: u8, lo: u8) -> u16 {
    (hi * 256 + lo) as u16
}

/// The four bytes of `x`, most significant first.
pub open spec fn be32(x: u32) -> Seq<u8> {
    seq![
        (x / 0x100_0000) as u8,
        (x / 0x1_0000 % 256) as u8,
        (x / 0x100 % 256) as u8,
        (x % 256) as u8,
    ]
}

/// The number that the first four bytes of `s`, in network order, stand for.
pub open spec fn be32_value(s: Seq<u8>) -> u32
    recommends
        s.len() >= 4,
{
    (s[0] * 0x100_0000 + s[1] * 0x1_0000 + s[2] * 0x100 + s[3]) as u32
}

/// Decoding undoes encoding, for 16-bit numbers.
pub proof fn lemma_be16_round_trip(x: u16)
    ensures
        be16(x).len() == 2,
        be16_value(be16(x)[0], be16(x)[1]) == x,
{
}

/// Encoding undoes decoding, for 16-bit numbers.
pub proof fn lemma_be16_value_round_trip(hi: u8, lo: u8)
    ensures
        be16(be16_value(hi, lo)) =~= seq![hi, lo],
{
}

/// Decoding undoes encoding, for 32-bit numbers.
pub proof fn lemma_be32_round_trip(x: u32)
    ensures
        be32(x).len() == 4,
        be32_value(be32(x)) == x,
{
}

/// Encoding undoes decoding, for 32-bit numbers.
pub proof fn lemma_be32_value_round_trip(s: Seq<u8>)
    requires
        s.len() == 4,
    ensures
        be32(be32_value(s)) =~= s,
{
}

/// Appends `x` to `out` in network byte order.
pub fn push_be16(out: &mut Vec<u8>, x: u16)
    ensures
        final(out)@ == old(out)@ + be16(x),
{
    out.push((x / 256) as u8);
    out.push((x % 256) as u8);
}

/// Appends `x` to `out` in network byte order.
pub fn push_be32(out: &mut Vec<u8>, x: u32)
    ensures
        final(out)@ == old(out)@ + be32(x),
{
    out.push((x / 0x100_0000) as u8);
    out.push((x / 0x1_0000 % 256) as u8);
    out.push((x / 0x100 % 256) as u8);
    out.push((x % 256) as u8);
}

/// Overwrites the two bytes at `at` with `x` in network byte order.
pub fn write_be16(buf: &mut Vec<u8>, at: usize, x: u16)
    requires
        at + 2 <= old(buf).len(),
    ensures
        final(buf)@ == old(buf)@.update(at as int, be16(x)[0]).update(at + 1, be16(x)[1]),
{
    buf[at] = (x / 256) as u8;
    buf[at + 1] = (x % 256) as u8;
}

/// Reads the 16-bit number that starts at `at`.
pub fn read_be16(bytes: &[u8], at: usize) -> (x: u16)
    requires
        at + 2 <= bytes@.len(),
    ensures
        x == be16_value(bytes@[at as int], bytes@[at + 1]),
{
    let hi: u16 = bytes[at] as u16;
    let lo: u16 = bytes[at + 1] as u16;
    hi * 256 + lo
}

/// Reads the 32-bit number that starts at `at`.
pub fn read_be32(bytes: &[u8], at: usize) -> (x: u32)
    requires
        at + 4 <= bytes@.len(),
    ensures
        x == be32_value(bytes@.subrange(at as int, at + 4)),
{
    let b0: u32 = bytes[at] as u32;
    let b1: u32 = bytes[at + 1] as u32;
    let b2: u32 = bytes[at + 2] as u32;
    let b3: u32 = bytes[at + 3] as u32;
    b0 * 0x100_0000 + b1 * 0x1_0000 + b2 * 0x100 + b3
}

/// Appends all of `src` to `out`.
pub fn push_all(out: &mut Vec<u8>, src: &[u8])
    ensures
        final(out)@ == old(out)@ + src@,
{
    let mut i: usize = 0;
    while i < src.len()
        invariant
            i <= src@.len(),
            out@ == old(out)@ + src@.subrange(0, i as int),
        decreases src@.len() - i,
    {
        out.push(src[i]);
        i += 1;
    }
}

/// Copies the bytes of `src` from `from` up to `to` into a vector of their own.
pub fn copy_range(src: &[u8], from: usize, to: usize) -> (out: Vec<u8>)
    requires
        from <= to <= src@.len(),
    ensures
        out@ == src@.subrange(from as int, to as int),
{
    let mut out: Vec<u8> = Vec::new();
    let mut i: usize = from;
    while i < to
        invariant
            from <= i <= to <= src@.len(),
            out@ == src@.subrange(from as int, i as int),
        decreases to - i,
    {
        out.push(src[i]);
        i += 1;
    }
    out
}

} // verus!
