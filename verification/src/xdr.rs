//! XDR primitives: big-endian integers, zero padding, and variable-length
//! opaque data — the building blocks of the binary transaction envelope.

use vstd::prelude::*;

verus! {

/// Big-endian bytes of a 32-bit unsigned integer.
pub open spec fn be_u32(v: u32) -> Seq<u8> {
    seq![
        (v as int / 0x1000000 % 256) as u8,
        (v as int / 0x10000 % 256) as u8,
        (v as int / 0x100 % 256) as u8,
        (v as int % 256) as u8,
    ]
}

/// Big-endian bytes of a 64-bit unsigned integer.
pub open spec fn be_u64(v: u64) -> Seq<u8> {
    seq![
        (v as int / 0x100000000000000 % 256) as u8,
        (v as int / 0x1000000000000 % 256) as u8,
        (v as int / 0x10000000000 % 256) as u8,
        (v as int / 0x100000000 % 256) as u8,
        (v as int / 0x1000000 % 256) as u8,
        (v as int / 0x10000 % 256) as u8,
        (v as int / 0x100 % 256) as u8,
        (v as int % 256) as u8,
    ]
}

/// Big-endian bytes of a 64-bit signed integer: its two's-complement image.
pub open spec fn be_i64(v: i64) -> Seq<u8> {
    be_u64(v as u64)
}

/// XDR pads opaque data with zeros to a multiple of four bytes.
pub open spec fn xdr_pad_len(n: int) -> int {
    (4 - n % 4) % 4
}

/// A run of zero bytes.
pub open spec fn zero_bytes(n: int) -> Seq<u8> {
    Seq::new(n as nat, |i: int| 0u8)
}

/// XDR variable-length opaque data: a length word, the bytes, zero padding.
pub open spec fn xdr_opaque(b: Seq<u8>) -> Seq<u8> {
    be_u32(b.len() as u32) + b + zero_bytes(xdr_pad_len(b.len() as int))
}

/// If two words agree above `shift_big` and on the byte at `shift_small`,
/// they agree above `shift_small`.
proof fn lemma_be_u64_step(x: u64, y: u64, shift_small: int, shift_big: int)
    requires
        shift_small > 0,
        shift_big == shift_small * 256,
        x as int / shift_big == y as int / shift_big,
        (x as int / shift_small) % 256 == (y as int / shift_small) % 256,
    ensures
        x as int / shift_small == y as int / shift_small,
{
    vstd::arithmetic::div_mod::lemma_div_denominator(x as int, shift_small, 256);
    vstd::arithmetic::div_mod::lemma_div_denominator(y as int, shift_small, 256);
    vstd::arithmetic::div_mod::lemma_fundamental_div_mod(x as int / shift_small, 256);
    vstd::arithmetic::div_mod::lemma_fundamental_div_mod(y as int / shift_small, 256);
}

/// The 32-bit big-endian encoding is injective.
pub proof fn lemma_be_u32_injective(x: u32, y: u32)
    requires
        be_u32(x) == be_u32(y),
    ensures
        x == y,
{
    assert(be_u32(x)[0] == be_u32(y)[0]);
    assert(be_u32(x)[1] == be_u32(y)[1]);
    assert(be_u32(x)[2] == be_u32(y)[2]);
    assert(be_u32(x)[3] == be_u32(y)[3]);
    assert(x as int / 0x1000000 < 256) by {
        vstd::arithmetic::div_mod::lemma_fundamental_div_mod(x as int, 0x1000000);
    }
    assert(y as int / 0x1000000 < 256) by {
        vstd::arithmetic::div_mod::lemma_fundamental_div_mod(y as int, 0x1000000);
    }
    assert(x as int / 0x1000000 == y as int / 0x1000000);
    lemma_be_u64_step_32(x, y, 0x10000, 0x1000000);
    lemma_be_u64_step_32(x, y, 0x100, 0x10000);
    lemma_be_u64_step_32(x, y, 1, 0x100);
}

/// If two words agree above `shift_big` and on the byte at `shift_small`,
/// they agree above `shift_small`.
proof fn lemma_be_u64_step_32(x: u32, y: u32, shift_small: int, shift_big: int)
    requires
        shift_small > 0,
        shift_big == shift_small * 256,
        x as int / shift_big == y as int / shift_big,
        (x as int / shift_small) % 256 == (y as int / shift_small) % 256,
    ensures
        x as int / shift_small == y as int / shift_small,
{
    vstd::arithmetic::div_mod::lemma_div_denominator(x as int, shift_small, 256);
    vstd::arithmetic::div_mod::lemma_div_denominator(y as int, shift_small, 256);
    vstd::arithmetic::div_mod::lemma_fundamental_div_mod(x as int / shift_small, 256);
    vstd::arithmetic::div_mod::lemma_fundamental_div_mod(y as int / shift_small, 256);
}

/// The big-endian encoding is injective: equal bytes mean equal words.
pub proof fn lemma_be_u64_injective(x: u64, y: u64)
    requires
        be_u64(x) == be_u64(y),
    ensures
        x == y,
{
    assert(be_u64(x)[0] == be_u64(y)[0]);
    assert(be_u64(x)[1] == be_u64(y)[1]);
    assert(be_u64(x)[2] == be_u64(y)[2]);
    assert(be_u64(x)[3] == be_u64(y)[3]);
    assert(be_u64(x)[4] == be_u64(y)[4]);
    assert(be_u64(x)[5] == be_u64(y)[5]);
    assert(be_u64(x)[6] == be_u64(y)[6]);
    assert(be_u64(x)[7] == be_u64(y)[7]);
    // the top byte is the whole quotient: both quotients are below 256
    assert(x as int / 0x100000000000000 < 256) by {
        vstd::arithmetic::div_mod::lemma_fundamental_div_mod(x as int, 0x100000000000000);
    }
    assert(y as int / 0x100000000000000 < 256) by {
        vstd::arithmetic::div_mod::lemma_fundamental_div_mod(y as int, 0x100000000000000);
    }
    assert(x as int / 0x100000000000000 == y as int / 0x100000000000000);
    lemma_be_u64_step(x, y, 0x1000000000000, 0x100000000000000);
    lemma_be_u64_step(x, y, 0x10000000000, 0x1000000000000);
    lemma_be_u64_step(x, y, 0x100000000, 0x10000000000);
    lemma_be_u64_step(x, y, 0x1000000, 0x100000000);
    lemma_be_u64_step(x, y, 0x10000, 0x1000000);
    lemma_be_u64_step(x, y, 0x100, 0x10000);
    lemma_be_u64_step(x, y, 1, 0x100);
}

/// Appends the big-endian bytes of a 32-bit word.
pub fn push_be_u32(out: &mut Vec<u8>, v: u32)
    ensures
        final(out)@ =~= old(out)@ + be_u32(v),
{
    out.push((v / 0x1000000 % 256) as u8);
    out.push((v / 0x10000 % 256) as u8);
    out.push((v / 0x100 % 256) as u8);
    out.push((v % 256) as u8);
}

/// Appends the big-endian bytes of a 64-bit word.
pub fn push_be_u64(out: &mut Vec<u8>, v: u64)
    ensures
        final(out)@ =~= old(out)@ + be_u64(v),
{
    out.push((v / 0x100000000000000 % 256) as u8);
    out.push((v / 0x1000000000000 % 256) as u8);
    out.push((v / 0x10000000000 % 256) as u8);
    out.push((v / 0x100000000 % 256) as u8);
    out.push((v / 0x1000000 % 256) as u8);
    out.push((v / 0x10000 % 256) as u8);
    out.push((v / 0x100 % 256) as u8);
    out.push((v % 256) as u8);
}

/// Appends the big-endian two's-complement bytes of a signed 64-bit word.
pub fn push_be_i64(out: &mut Vec<u8>, v: i64)
    ensures
        final(out)@ =~= old(out)@ + be_i64(v),
{
    push_be_u64(out, #[verifier::truncate] (v as u64));
}

/// Appends a copy of the given bytes.
pub fn push_bytes(out: &mut Vec<u8>, b: &Vec<u8>)
    ensures
        final(out)@ =~= old(out)@ + b@,
{
    let n = b.len();
    let mut i: usize = 0;
    while i < n
        invariant
            0 <= i <= n,
            n == b@.len(),
            out@ =~= old(out)@ + b@.take(i as int),
        decreases n - i,
    {
        out.push(b[i]);
        proof {
            assert(b@.take(i as int + 1) =~= b@.take(i as int) + seq![b@[i as int]]);
        }
        i = i + 1;
    }
    proof {
        assert(b@.take(n as int) =~= b@);
    }
}

/// Appends `n` zero bytes.
pub fn push_zeros(out: &mut Vec<u8>, n: usize)
    ensures
        final(out)@ =~= old(out)@ + zero_bytes(n as int),
    decreases n,
{
    let mut i: usize = 0;
    while i < n
        invariant
            0 <= i <= n,
            out@ =~= old(out)@ + zero_bytes(i as int),
        decreases n - i,
    {
        out.push(0);
        proof {
            assert(zero_bytes(i as int + 1) =~= zero_bytes(i as int) + seq![0u8]);
        }
        i = i + 1;
    }
}

/// Appends the bytes as XDR variable-length opaque data.
pub fn push_opaque(out: &mut Vec<u8>, b: &Vec<u8>)
    requires
        b@.len() <= u32::MAX,
    ensures
        final(out)@ =~= old(out)@ + xdr_opaque(b@),
{
    let n = b.len();
    push_be_u32(out, n as u32);
    push_bytes(out, b);
    push_zeros(out, (4 - n % 4) % 4);
}

} // verus!
