//! Opaque 32-bit scalar words and their byte-exact serialized form.
//!
//! Every scalar the GPU kernels read as a 32-bit float is carried on the host
//! as its IEEE-754 bit pattern: a plain `u32` word that the host packs into
//! records and buffers but never computes with.  This module encodes small
//! nonnegative integers as such words, lays word streams out as the
//! little-endian bytes a GPU buffer holds, and rounds copy row pitches up to
//! an alignment.

use vstd::prelude::*;

verus! {

use vstd::arithmetic::power2::{
    lemma2_to64,
    lemma_pow2_adds,
    lemma_pow2_strictly_increases,
    lemma_pow2_unfold,
    pow2,
};
use vstd::arithmetic::div_mod::{lemma_fundamental_div_mod, lemma_mod_multiples_basic};
use vstd::bits::lemma_u64_shl_is_mul;

/// Bit pattern of the 32-bit float 0.0.
pub const F32_ZERO: u32 = 0x0000_0000;

/// Bit pattern of the 32-bit float 1.0.
pub const F32_ONE: u32 = 0x3F80_0000;

/// Position of the highest set bit of `n`: the greatest `e` with
/// `pow2(e) <= n` (and 0 when `n` is 0 or 1).
pub open spec fn msb(n: nat) -> nat
    decreases n,
{
    if n < 2 {
        0
    } else {
        1 + msb((n / 2) as nat)
    }
}

/// For positive `n`, `msb(n)` brackets `n` between two powers of two.
pub proof fn lemma_msb_bounds(n: nat)
    requires
        1 <= n,
    ensures
        pow2(msb(n)) <= n < pow2(msb(n) + 1),
    decreases n,
{
    if n < 2 {
        lemma2_to64();
    } else {
        let m = msb((n / 2) as nat);
        lemma_msb_bounds((n / 2) as nat);
        lemma_pow2_unfold(m + 1);
        lemma_pow2_unfold(m + 2);
        assert(2 * (n / 2) <= n);
        assert(n <= 2 * (n / 2) + 1);
    }
}

/// If `e1 <= e2` then `pow2(e1) <= pow2(e2)`.
pub proof fn lemma_pow2_increases(e1: nat, e2: nat)
    requires
        e1 <= e2,
    ensures
        pow2(e1) <= pow2(e2),
{
    if e1 < e2 {
        lemma_pow2_strictly_increases(e1, e2);
    }
}

/// The IEEE-754 single-precision bit pattern of the nonnegative integer `n`.
/// The pattern represents `n` exactly whenever `n < pow2(24)`; the pixel
/// table only ever encodes coordinates far below that bound.
pub open spec fn f32_bits_of_uint(n: nat) -> nat {
    if n == 0 {
        0
    } else {
        ((msb(n) + 127) * pow2(23) + n * pow2((23 - msb(n)) as nat) - pow2(23)) as nat
    }
}

/// Encodes a small nonnegative integer as the bit pattern of the equal-valued
/// 32-bit float, the form in which the pixel-coordinate table stores it.
pub fn f32_bits_of_small(n: u32) -> (r: u32)
    requires
        n < 0x0100_0000,
    ensures
        r == f32_bits_of_uint(n as nat),
{
    if n == 0 {
        return 0;
    }
    proof {
        lemma2_to64();
    }
    let mut e: u32 = 0;
    let mut tmp: u32 = n;
    while tmp >= 2
        invariant
            1 <= tmp <= n,
            0 < n < 0x0100_0000,
            e < 24,
            msb(n as nat) == e + msb(tmp as nat),
            pow2(e as nat) * tmp <= n,
        decreases tmp,
    {
        proof {
            lemma_pow2_unfold((e + 1) as nat);
            assert(pow2((e + 1) as nat) * (tmp / 2) as nat <= pow2(e as nat) * tmp as nat)
                by (nonlinear_arith)
                requires
                    pow2((e + 1) as nat) == 2 * pow2(e as nat),
                    2 * (tmp / 2) <= tmp,
            ;
            assert(pow2((e + 1) as nat) <= pow2((e + 1) as nat) * (tmp / 2) as nat)
                by (nonlinear_arith)
                requires
                    1 <= tmp / 2,
            ;
            lemma2_to64();
            if e + 1 >= 24 {
                lemma_pow2_increases(24, (e + 1) as nat);
                assert(false);
            }
        }
        tmp = tmp / 2;
        e = e + 1;
    }
    proof {
        assert(msb(n as nat) == e);
        lemma_msb_bounds(n as nat);
        lemma2_to64();
        // n * pow2(23 - e) lies in [pow2(23), pow2(24)), so the shift below
        // neither overflows nor loses the implicit leading bit.
        lemma_pow2_adds(e as nat, (23 - e) as nat);
        lemma_pow2_adds((e + 1) as nat, (23 - e) as nat);
        assert(pow2(e as nat) * pow2((23 - e) as nat) <= (n as nat) * pow2((23 - e) as nat)
            < pow2((e + 1) as nat) * pow2((23 - e) as nat)) by (nonlinear_arith)
            requires
                pow2(e as nat) <= (n as nat),
                (n as nat) < pow2((e + 1) as nat),
                pow2((23 - e) as nat) > 0,
        ;
        assert(pow2(23) == 0x0080_0000);
        assert(pow2(24) == 0x0100_0000);
        lemma_u64_shl_is_mul(n as u64, (23 - e) as u64);
    }
    let wide: u64 = (n as u64) << ((23 - e) as u64);
    let mantissa: u64 = wide - 0x0080_0000;
    let bits: u64 = ((e as u64) + 127) * 0x0080_0000 + mantissa;
    bits as u32
}

/// The four little-endian bytes of one 32-bit word.
pub open spec fn word_le_bytes(w: u32) -> Seq<u8> {
    seq![
        (w & 0xff) as u8,
        ((w >> 8) & 0xff) as u8,
        ((w >> 16) & 0xff) as u8,
        ((w >> 24) & 0xff) as u8,
    ]
}

/// The little-endian byte stream of a word sequence, in order.
pub open spec fn words_le_bytes(ws: Seq<u32>) -> Seq<u8>
    decreases ws.len(),
{
    if ws.len() == 0 {
        Seq::empty()
    } else {
        words_le_bytes(ws.drop_last()) + word_le_bytes(ws.last())
    }
}

/// Serializing one more word appends its four bytes.
pub proof fn lemma_words_le_bytes_push(ws: Seq<u32>, w: u32)
    ensures
        words_le_bytes(ws.push(w)) == words_le_bytes(ws) + word_le_bytes(w),
{
    assert(ws.push(w).drop_last() =~= ws);
    assert(ws.push(w).last() == w);
}

/// The byte stream is exactly four bytes per word.
pub proof fn lemma_words_le_bytes_len(ws: Seq<u32>)
    ensures
        words_le_bytes(ws).len() == 4 * ws.len(),
    decreases ws.len(),
{
    if ws.len() > 0 {
        lemma_words_le_bytes_len(ws.drop_last());
    }
}

/// Serializes a word vector into the little-endian byte stream that the
/// matching GPU buffer holds.
pub fn encode_words_le(ws: &Vec<u32>) -> (r: Vec<u8>)
    ensures
        r@ == words_le_bytes(ws@),
        r@.len() == 4 * ws@.len(),
{
    let mut r: Vec<u8> = Vec::new();
    let mut i: usize = 0;
    while i < ws.len()
        invariant
            i <= ws@.len(),
            r@ == words_le_bytes(ws@.take(i as int)),
            r@.len() == 4 * i,
        decreases ws@.len() - i,
    {
        let w = ws[i];
        r.push((w & 0xff) as u8);
        r.push(((w >> 8) & 0xff) as u8);
        r.push(((w >> 16) & 0xff) as u8);
        r.push(((w >> 24) & 0xff) as u8);
        proof {
            assert(ws@.take(i + 1) =~= ws@.take(i as int).push(ws@[i as int]));
            lemma_words_le_bytes_push(ws@.take(i as int), ws@[i as int]);
            lemma_words_le_bytes_len(ws@.take(i + 1));
        }
        i = i + 1;
    }
    proof {
        assert(ws@.take(ws@.len() as int) =~= ws@);
    }
    r
}

/// `len` rounded up to the next multiple of `align`.
pub open spec fn spec_round_up(len: int, align: int) -> int {
    ((len + align - 1) / align) * align
}

/// Rounds `len` up to the next multiple of `align`, as buffer-to-texture row
/// pitches require under the GPU API's row-alignment rule.
pub fn round_up_to_align(len: u32, align: u32) -> (r: u32)
    requires
        1 <= align,
        len + align <= u32::MAX,
    ensures
        r == spec_round_up(len as int, align as int),
        r as int % align as int == 0,
        len <= r < len + align,
{
    let l: u64 = len as u64;
    let a: u64 = align as u64;
    let q: u64 = (l + a - 1) / a;
    proof {
        lemma_fundamental_div_mod((l + a - 1) as int, a as int);
        lemma_mod_multiples_basic(q as int, a as int);
        // a * q lands in [l, l + a): the least multiple of a at or above l
        assert(a as int * q as int <= l + a - 1);
        assert(l + a - 1 < a as int * q as int + a);
        assert(q as int * a as int == a as int * q as int) by (nonlinear_arith);
    }
    let r: u64 = q * a;
    r as u32
}

} // verus!
