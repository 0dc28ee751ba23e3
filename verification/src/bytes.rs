//! Little-endian byte serialization of 16- and 32-bit words, with the
//! alignment and power-of-two helpers the image format is defined over.

use vstd::prelude::*;

verus! {

/// The two-byte little-endian image of a 16-bit word.
pub open spec fn u16_le(v: u16) -> Seq<u8> {
    seq![(v & 0xff) as u8, ((v >> 8) & 0xff) as u8]
}

/// The four-byte little-endian image of a 32-bit word.
pub open spec fn u32_le(v: u32) -> Seq<u8> {
    seq![
        (v & 0xff) as u8,
        ((v >> 8) & 0xff) as u8,
        ((v >> 16) & 0xff) as u8,
        ((v >> 24) & 0xff) as u8,
    ]
}

/// The 16-bit word denoted by two bytes read little-endian.
pub open spec fn u16_from_le(b0: u8, b1: u8) -> u16 {
    (b0 as u16) | ((b1 as u16) << 8)
}

/// The 32-bit word denoted by four bytes read little-endian.
pub open spec fn u32_from_le(b0: u8, b1: u8, b2: u8, b3: u8) -> u32 {
    (b0 as u32) | ((b1 as u32) << 8) | ((b2 as u32) << 16) | ((b3 as u32) << 24)
}

/// Decoding the little-endian image of a 16-bit word gives the word back.
pub proof fn lemma_u16_le_round_trip(v: u16)
    ensures
        u16_from_le(u16_le(v)[0], u16_le(v)[1]) == v,
{
    assert(((v & 0xff) as u8 as u16) | ((((v >> 8) & 0xff) as u8 as u16) << 8) == v)
        by (bit_vector);
}

/// Decoding the little-endian image of a 32-bit word gives the word back.
pub proof fn lemma_u32_le_round_trip(v: u32)
    ensures
        u32_from_le(u32_le(v)[0], u32_le(v)[1], u32_le(v)[2], u32_le(v)[3]) == v,
{
    assert(((v & 0xff) as u8 as u32) | ((((v >> 8) & 0xff) as u8 as u32) << 8)
        | ((((v >> 16) & 0xff) as u8 as u32) << 16) | ((((v >> 24) & 0xff) as u8 as u32) << 24)
        == v) by (bit_vector);
}

/// Appends the little-endian image of a 16-bit word.
pub fn push_u16_le(out: &mut Vec<u8>, v: u16)
    ensures
        final(out)@ == old(out)@ + u16_le(v),
{
    out.push((v & 0xff) as u8);
    out.push(((v >> 8) & 0xff) as u8);
    proof {
        assert(out@ =~= old(out)@ + u16_le(v));
    }
}

/// Appends the little-endian image of a 32-bit word.
pub fn push_u32_le(out: &mut Vec<u8>, v: u32)
    ensures
        final(out)@ == old(out)@ + u32_le(v),
{
    out.push((v & 0xff) as u8);
    out.push(((v >> 8) & 0xff) as u8);
    out.push(((v >> 16) & 0xff) as u8);
    out.push(((v >> 24) & 0xff) as u8);
    proof {
        assert(out@ =~= old(out)@ + u32_le(v));
    }
}

/// Reads the 16-bit word stored little-endian at `i`.
pub fn read_u16_le(b: &Vec<u8>, i: usize) -> (r: u16)
    requires
        i + 2 <= b@.len(),
    ensures
        r == u16_from_le(b@[i as int], b@[i + 1]),
{
    let n = b.len();
    assert(i + 2 <= n);
    (b[i] as u16) | ((b[i + 1] as u16) << 8)
}

/// Reads the 32-bit word stored little-endian at `i`.
pub fn read_u32_le(b: &Vec<u8>, i: usize) -> (r: u32)
    requires
        i + 4 <= b@.len(),
    ensures
        r == u32_from_le(b@[i as int], b@[i + 1], b@[i + 2], b@[i + 3]),
{
    let n = b.len();
    assert(i + 4 <= n);
    (b[i] as u32) | ((b[i + 1] as u32) << 8) | ((b[i + 2] as u32) << 16)
        | ((b[i + 3] as u32) << 24)
}

/// Bytes of padding that bring `n` up to a multiple of four.
pub open spec fn pad4(n: int) -> int {
    (4 - n % 4) % 4
}

/// Padding to four is small and completes its length to a multiple of four.
pub proof fn lemma_pad4_aligns(n: int)
    requires
        n >= 0,
    ensures
        0 <= pad4(n) < 4,
        (n + pad4(n)) % 4 == 0,
{
}

/// Computes the padding that brings `n` up to a multiple of four.
pub fn pad4_for(n: usize) -> (r: usize)
    ensures
        r == pad4(n as int),
        (n + r) % 4 == 0,
        r < 4,
{
    (4 - n % 4) % 4
}

/// Appends all of `src`.
pub fn push_bytes(out: &mut Vec<u8>, src: &Vec<u8>)
    ensures
        final(out)@ == old(out)@ + src@,
{
    let n = src.len();
    let mut i: usize = 0;
    while i < n
        invariant
            i <= n,
            n == src@.len(),
            out@ == old(out)@ + src@.subrange(0, i as int),
        decreases n - i,
    {
        out.push(src[i]);
        proof {
            assert(out@ =~= old(out)@ + src@.subrange(0, i + 1));
        }
        i = i + 1;
    }
    proof {
        assert(src@.subrange(0, n as int) =~= src@);
    }
}

/// Copies `len` bytes of `b` starting at `start` into a fresh vector.
pub fn copy_range(b: &Vec<u8>, start: usize, len: usize) -> (r: Vec<u8>)
    requires
        start + len <= b@.len(),
    ensures
        r@ == b@.subrange(start as int, start + len),
{
    let bn = b.len();
    assert(start + len <= bn);
    let mut out: Vec<u8> = Vec::new();
    let mut i: usize = 0;
    while i < len
        invariant
            i <= len,
            bn == b@.len(),
            start + len <= bn,
            out@ == b@.subrange(start as int, start + i),
        decreases len - i,
    {
        out.push(b[start + i]);
        proof {
            assert(out@ =~= b@.subrange(start as int, start + i + 1));
        }
        i = i + 1;
    }
    out
}

/// Whether `n` is a power of two.
pub open spec fn is_power_of_two(n: int) -> bool
    decreases n,
{
    if n <= 0 {
        false
    } else if n == 1 {
        true
    } else {
        n % 2 == 0 && is_power_of_two(n / 2)
    }
}

/// A power of two no smaller than four is a multiple of four.
pub proof fn lemma_power_of_two_multiple_of_four(n: int)
    requires
        is_power_of_two(n),
        n >= 4,
    ensures
        n % 4 == 0,
    decreases n,
{
    if n == 4 {
    } else {
        lemma_power_of_two_multiple_of_four(n / 2);
        assert(n % 2 == 0 && (n / 2) % 4 == 0 ==> n % 4 == 0) by (nonlinear_arith);
    }
}

/// A run of `n` zero bytes.
pub open spec fn zeros(n: nat) -> Seq<u8> {
    Seq::new(n, |i: int| 0u8)
}

/// Appends `count` zero bytes.
pub fn push_zeros(out: &mut Vec<u8>, count: usize)
    requires
        old(out)@.len() + count <= usize::MAX,
    ensures
        final(out)@ == old(out)@ + zeros(count as nat),
{
    let mut i: usize = 0;
    while i < count
        invariant
            i <= count,
            out@ == old(out)@ + zeros(i as nat),
        decreases count - i,
    {
        out.push(0u8);
        proof {
            assert(out@ =~= old(out)@ + zeros((i + 1) as nat));
        }
        i = i + 1;
    }
}

/// Doubling keeps a number a power of two.
pub proof fn lemma_power_of_two_double(n: int)
    requires
        is_power_of_two(n),
        n >= 1,
    ensures
        is_power_of_two(2 * n),
{
    assert((2 * n) / 2 == n);
}

/// 512 is a power of two.
pub proof fn lemma_power_of_two_512()
    ensures
        is_power_of_two(512),
{
    assert(is_power_of_two(1));
    assert(is_power_of_two(2));
    assert(is_power_of_two(4));
    assert(is_power_of_two(8));
    assert(is_power_of_two(16));
    assert(is_power_of_two(32));
    assert(is_power_of_two(64));
    assert(is_power_of_two(128));
    assert(is_power_of_two(256));
    assert(is_power_of_two(512));
}

/// The smallest power of two that is at least `n` and at least 512.
pub fn pow2_at_least(n: usize) -> (r: usize)
    requires
        n <= 0x4000_0000,
    ensures
        is_power_of_two(r as int),
        r >= n,
        r >= 512,
        r == 512 || r < 2 * n,
        r % 4 == 0,
{
    proof {
        lemma_power_of_two_512();
    }
    let mut p: usize = 512;
    while p < n
        invariant
            is_power_of_two(p as int),
            p >= 512,
            p == 512 || p < 2 * n,
            p < 0x8000_0000,
            n <= 0x4000_0000,
        decreases 0x8000_0000 - p,
    {
        proof {
            lemma_power_of_two_double(p as int);
        }
        p = p * 2;
    }
    proof {
        lemma_power_of_two_multiple_of_four(p as int);
    }
    p
}

} // verus!
