//! Carry chains on 64-bit limbs through 128-bit intermediates, and the reduction of a
//! folded value to its canonical representative.

use crate::field::p;
use vstd::arithmetic::div_mod::{lemma_fundamental_div_mod_converse, lemma_mod_multiples_vanish, lemma_small_mod};
use vstd::prelude::*;

verus! {

/// The integer that four 64-bit limbs stand for, least significant limb first.
pub open spec fn limbs_value(x0: u64, x1: u64, x2: u64, x3: u64) -> nat {
    (x0 + x1 * 0x1_0000_0000_0000_0000 + x2 * 0x1_0000_0000_0000_0000_0000_0000_0000_0000
        + x3 * 0x1_0000_0000_0000_0000_0000_0000_0000_0000_0000_0000_0000_0000int) as nat
}

/// A 128-bit word is its high half times 2^64 plus its low half.
pub proof fn lemma_split_u128(t: u128)
    by (bit_vector)
    ensures
        (t as u64) + (t >> 64) * 0x1_0000_0000_0000_0000 == t,
        (t >> 64) <= 0xffff_ffff_ffff_ffff,
{
}

/// The product of two 64-bit words leaves room for two more 64-bit addends in 128 bits.
pub proof fn lemma_mul_u64_bound(a: u64, b: u64)
    by (nonlinear_arith)
    ensures
        0 <= a * b <= 0xffff_ffff_ffff_fffe_0000_0000_0000_0001,
{
}

/// Multiply-accumulate: the low and high halves of `a * b + c + d`.
pub fn mul_acc(a: u64, b: u64, c: u64, d: u64) -> (r: (u64, u64))
    ensures
        r.0 + r.1 * 0x1_0000_0000_0000_0000 == a * b + c + d,
{
    proof {
        lemma_mul_u64_bound(a, b);
    }
    let t: u128 = (a as u128) * (b as u128) + (c as u128) + (d as u128);
    proof {
        lemma_split_u128(t);
    }
    (#[verifier::truncate] (t as u64), (t >> 64) as u64)
}

/// The sum of three 64-bit words, as its low half and its carry.
pub fn add_carry(a: u64, b: u64, c: u64) -> (r: (u64, u64))
    ensures
        r.0 + r.1 * 0x1_0000_0000_0000_0000 == a + b + c,
        r.1 <= 2,
{
    let t: u128 = (a as u128) + (b as u128) + (c as u128);
    proof {
        lemma_split_u128(t);
    }
    (#[verifier::truncate] (t as u64), (t >> 64) as u64)
}

/// The top bit of a 128-bit word.
pub proof fn lemma_top_bit_u128(t: u128)
    by (bit_vector)
    ensures
        t < 0x8000_0000_0000_0000_0000_0000_0000_0000 ==> (t >> 127) == 0,
        t >= 0x8000_0000_0000_0000_0000_0000_0000_0000 ==> (t >> 127) == 1,
{
}

/// The difference `a - b - borrow` of 64-bit words, as its low 64 bits and the borrow out.
pub fn sub_borrow(a: u64, b: u64, borrow: u64) -> (r: (u64, u64))
    requires
        borrow <= 1,
    ensures
        r.0 - r.1 * 0x1_0000_0000_0000_0000 == a - b - borrow,
        r.1 <= 1,
{
    let t: u128 = (a as u128).wrapping_sub(b as u128).wrapping_sub(borrow as u128);
    proof {
        lemma_split_u128(t);
        lemma_top_bit_u128(t);
    }
    (#[verifier::truncate] (t as u64), (t >> 127) as u64)
}

/// The low 63 bits of a limb.
pub const UMASK63: u64 = 0x7fff_ffff_ffff_ffff;

/// A 128-bit word is what lies at and above bit 63, times 2^63, plus its low 63 bits.
pub proof fn lemma_split_at_63(t: u128)
    by (bit_vector)
    ensures
        (t >> 63) * 0x8000_0000_0000_0000 + ((t as u64) & 0x7fff_ffff_ffff_ffff) == t,
        ((t as u64) & 0x7fff_ffff_ffff_ffff) < 0x8000_0000_0000_0000,
        t < 0x1_0000_0000_0000_0000_0000_0000 ==> (t >> 63) < 0x2_0000_0000,
{
}

/// The top bit of a limb, and the limb without it.
pub proof fn lemma_top_bit(g: u64)
    by (bit_vector)
    ensures
        g < 0x8000_0000_0000_0000 ==> (g >> 63) == 0 && (g & 0x7fff_ffff_ffff_ffff) == g,
        g >= 0x8000_0000_0000_0000 ==> (g >> 63) == 1 && (g & 0x7fff_ffff_ffff_ffff) == g
            - 0x8000_0000_0000_0000,
{
}

/// A masked choice keeps its first operand under the zero mask and its second under the
/// all-ones mask.
pub proof fn lemma_select(mask: u64, a: u64, b: u64)
    by (bit_vector)
    ensures
        mask == 0 ==> ((!mask & a) | (mask & b)) == a,
        mask == 0xffff_ffff_ffff_ffff ==> ((!mask & a) | (mask & b)) == b,
{
}

/// Branch-free choice between two limbs: `a` under the zero mask, `b` under the all-ones mask.
pub fn select(mask: u64, a: u64, b: u64) -> (r: u64)
    ensures
        mask == 0 ==> r == a,
        mask == 0xffff_ffff_ffff_ffff ==> r == b,
        r == (!mask & a) | (mask & b),
{
    proof {
        lemma_select(mask, a, b);
    }
    (!mask & a) | (mask & b)
}

/// The canonical representative of a value below twice the prime: nineteen is added, and
/// where the sum reaches bit 255 its low 255 bits are kept, else the value itself.
pub fn canonical_select(f0: u64, f1: u64, f2: u64, f3: u64) -> (out: (u64, u64, u64, u64))
    requires
        limbs_value(f0, f1, f2, f3) < 2 * p(),
    ensures
        limbs_value(out.0, out.1, out.2, out.3) == limbs_value(f0, f1, f2, f3) % p(),
        limbs_value(out.0, out.1, out.2, out.3) < p(),
{
    let ghost v = limbs_value(f0, f1, f2, f3);
    let (g0, k0) = add_carry(f0, 19, 0);
    let (g1, k1) = add_carry(f1, 0, k0);
    let (g2, k2) = add_carry(f2, 0, k1);
    let (g3, k3) = add_carry(f3, 0, k2);
    proof {
        assert(k3 == 0);
        assert(limbs_value(g0, g1, g2, g3) == v + 19);
        lemma_top_bit(g3);
        lemma_top_bit(f3);
    }
    let rollover: u64 = 0u64.wrapping_sub(g3 >> 63);
    let out3: u64 = select(rollover, f3, g3) & UMASK63;
    let out2: u64 = select(rollover, f2, g2);
    let out1: u64 = select(rollover, f1, g1);
    let out0: u64 = select(rollover, f0, g0);
    proof {
        if v >= p() {
            assert(limbs_value(out0, out1, out2, out3) == v - p());
            lemma_fundamental_div_mod_converse(v as int, p() as int, 1, v - p());
        } else {
            assert(limbs_value(out0, out1, out2, out3) == v);
            lemma_small_mod(v, p());
        }
    }
    (out0, out1, out2, out3)
}

/// Reduces `r0 + r1 * 2^64 + r2 * 2^128 + t * 2^192` modulo the prime: what lies at and above
/// bit 255 is folded back in through 2^255 = 19, then the canonical representative is selected.
pub fn reduce(r0: u64, r1: u64, r2: u64, t: u128) -> (out: (u64, u64, u64, u64))
    requires
        t < 0x1_0000_0000_0000_0000_0000_0000,
    ensures
        limbs_value(out.0, out.1, out.2, out.3) == (r0 + r1 * 0x1_0000_0000_0000_0000 + r2
            * 0x1_0000_0000_0000_0000_0000_0000_0000_0000 + t
            * 0x1_0000_0000_0000_0000_0000_0000_0000_0000_0000_0000_0000_0000int) % (p() as int),
        limbs_value(out.0, out.1, out.2, out.3) < p(),
{
    let ghost v: int = r0 + r1 * 0x1_0000_0000_0000_0000 + r2
        * 0x1_0000_0000_0000_0000_0000_0000_0000_0000 + t
        * 0x1_0000_0000_0000_0000_0000_0000_0000_0000_0000_0000_0000_0000int;
    proof {
        lemma_split_at_63(t);
    }
    let h: u64 = (t >> 63) as u64;
    let top63: u64 = #[verifier::truncate] (t as u64) & UMASK63;
    let (f0, c0) = add_carry(r0, 19 * h, 0);
    let (f1, c1) = add_carry(r1, 0, c0);
    let (f2, c2) = add_carry(r2, 0, c1);
    let f3: u64 = top63 + c2;
    proof {
        let folded = limbs_value(f0, f1, f2, f3);
        assert(folded == v - h * p());
        lemma_mod_multiples_vanish(-(h as int), v, p() as int);
    }
    canonical_select(f0, f1, f2, f3)
}

} // verus!
