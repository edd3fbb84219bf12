//! Field elements and the operations on them: addition, subtraction, multiplication,
//! squaring, multiplication by 121665, the conditional swap and the broadcast of a scalar bit.
//!
//! Every operation is a fixed sequence of limb operations without a branch on its operands,
//! and gives the canonical representative of its result.

use crate::bits::{lemma_limb_bit, lemma_limbs_bit};
use crate::field::{fe_add_spec, fe_mul_spec, fe_sub_spec, p, scalar_bit};
use crate::limbs::{
    add_carry, lemma_split_u128, lemma_top_bit, limbs_value, mul_acc, reduce, sub_borrow, UMASK63,
};
use vstd::arithmetic::div_mod::{
    lemma_fundamental_div_mod_converse, lemma_mod_multiples_vanish, lemma_small_mod,
};
use vstd::prelude::*;

verus! {

/// An element of the field of integers modulo 2^255 - 19, held as four 64-bit limbs.
///
/// The limbs are little-endian by significance: `x0` is the least significant and `x3` the
/// most significant, of which a canonical element uses only the low 63 bits.
#[derive(PartialEq, Eq, Structural, Clone, Copy, Debug)]
pub struct Fe25519 {
    pub x3: u64,
    pub x2: u64,
    pub x1: u64,
    pub x0: u64,
}

impl View for Fe25519 {
    type V = nat;

    /// The 256-bit integer that the four limbs stand for.
    open spec fn view(&self) -> nat {
        limbs_value(self.x0, self.x1, self.x2, self.x3)
    }
}

impl Fe25519 {
    /// The canonical form: the integer that the limbs stand for lies below the prime.
    pub open spec fn canonical(&self) -> bool {
        self@ < p()
    }
}

/// The mask with every bit clear.
pub open spec fn zero_mask() -> Fe25519 {
    Fe25519 { x3: 0, x2: 0, x1: 0, x0: 0 }
}

/// The mask with every bit set.
pub open spec fn ones_mask() -> Fe25519 {
    Fe25519 {
        x3: 0xffff_ffff_ffff_ffff,
        x2: 0xffff_ffff_ffff_ffff,
        x1: 0xffff_ffff_ffff_ffff,
        x0: 0xffff_ffff_ffff_ffff,
    }
}

/// The mask that a bit broadcasts to: all ones for a set bit, all zeros for a clear one.
pub open spec fn mask_of(bit: bool) -> Fe25519 {
    if bit {
        ones_mask()
    } else {
        zero_mask()
    }
}

/// The masked exchange of two limbs: each bit of `a` and `b` changes places where the same bit
/// of `m` is set.
pub open spec fn cswap_limb(m: u64, a: u64, b: u64) -> (u64, u64) {
    (a ^ (m & (a ^ b)), b ^ (m & (a ^ b)))
}

/// The masked exchange of two field elements, limb by limb.
pub open spec fn fe_cswap_spec(swap: Fe25519, a: Fe25519, b: Fe25519) -> (Fe25519, Fe25519) {
    (
        Fe25519 {
            x3: cswap_limb(swap.x3, a.x3, b.x3).0,
            x2: cswap_limb(swap.x2, a.x2, b.x2).0,
            x1: cswap_limb(swap.x1, a.x1, b.x1).0,
            x0: cswap_limb(swap.x0, a.x0, b.x0).0,
        },
        Fe25519 {
            x3: cswap_limb(swap.x3, a.x3, b.x3).1,
            x2: cswap_limb(swap.x2, a.x2, b.x2).1,
            x1: cswap_limb(swap.x1, a.x1, b.x1).1,
            x0: cswap_limb(swap.x0, a.x0, b.x0).1,
        },
    )
}

/// The masked exchange of two limbs keeps both under the zero mask, exchanges them under the
/// all-ones mask, and undoes itself when applied twice under any mask.
pub proof fn lemma_cswap_limb(m: u64, a: u64, b: u64)
    by (bit_vector)
    ensures
        m == 0 ==> (a ^ (m & (a ^ b))) == a && (b ^ (m & (a ^ b))) == b,
        m == 0xffff_ffff_ffff_ffff ==> (a ^ (m & (a ^ b))) == b && (b ^ (m & (a ^ b))) == a,
        ((a ^ (m & (a ^ b))) ^ (m & ((a ^ (m & (a ^ b))) ^ (b ^ (m & (a ^ b)))))) == a,
        ((b ^ (m & (a ^ b))) ^ (m & ((a ^ (m & (a ^ b))) ^ (b ^ (m & (a ^ b)))))) == b,
{
}

impl Default for Fe25519 {
    /// The zero element.
    fn default() -> (r: Fe25519)
        ensures
            r == (Fe25519 { x3: 0, x2: 0, x1: 0, x0: 0 }),
            r@ == 0,
    {
        Fe25519 { x3: 0, x2: 0, x1: 0, x0: 0 }
    }
}

/// A four-limb integer times a single factor, limb by limb.
proof fn lemma_limbs_times(a0: int, a1: int, a2: int, a3: int, b: int)
    by (nonlinear_arith)
    ensures
        (a0 + a1 * 0x1_0000_0000_0000_0000 + a2 * 0x1_0000_0000_0000_0000_0000_0000_0000_0000
            + a3 * 0x1_0000_0000_0000_0000_0000_0000_0000_0000_0000_0000_0000_0000int) * b == a0
            * b + (a1 * b) * 0x1_0000_0000_0000_0000 + (a2 * b)
            * 0x1_0000_0000_0000_0000_0000_0000_0000_0000 + (a3 * b)
            * 0x1_0000_0000_0000_0000_0000_0000_0000_0000_0000_0000_0000_0000int,
        b * (a0 + a1 * 0x1_0000_0000_0000_0000 + a2 * 0x1_0000_0000_0000_0000_0000_0000_0000_0000
            + a3 * 0x1_0000_0000_0000_0000_0000_0000_0000_0000_0000_0000_0000_0000int) == a0
            * b + (a1 * b) * 0x1_0000_0000_0000_0000 + (a2 * b)
            * 0x1_0000_0000_0000_0000_0000_0000_0000_0000 + (a3 * b)
            * 0x1_0000_0000_0000_0000_0000_0000_0000_0000_0000_0000_0000_0000int,
{
}

/// The product of two four-limb integers, collected by powers of 2^64.
proof fn lemma_product_expand(
    a0: int,
    a1: int,
    a2: int,
    a3: int,
    b0: int,
    b1: int,
    b2: int,
    b3: int,
)
    ensures
        (a0 + a1 * 0x1_0000_0000_0000_0000 + a2 * 0x1_0000_0000_0000_0000_0000_0000_0000_0000
            + a3 * 0x1_0000_0000_0000_0000_0000_0000_0000_0000_0000_0000_0000_0000int) * (b0 + b1
            * 0x1_0000_0000_0000_0000 + b2 * 0x1_0000_0000_0000_0000_0000_0000_0000_0000 + b3
            * 0x1_0000_0000_0000_0000_0000_0000_0000_0000_0000_0000_0000_0000int) == a0 * b0 + (a0
            * b1 + a1 * b0) * 0x1_0000_0000_0000_0000 + (a0 * b2 + a1 * b1 + a2 * b0)
            * 0x1_0000_0000_0000_0000_0000_0000_0000_0000 + (a0 * b3 + a1 * b2 + a2 * b1 + a3
            * b0) * 0x1_0000_0000_0000_0000_0000_0000_0000_0000_0000_0000_0000_0000int + (a1 * b3
            + a2 * b2 + a3 * b1)
            * 0x1_0000_0000_0000_0000_0000_0000_0000_0000_0000_0000_0000_0000_0000_0000_0000_0000int
            + (a2 * b3 + a3 * b2)
            * 0x1_0000_0000_0000_0000_0000_0000_0000_0000_0000_0000_0000_0000_0000_0000_0000_0000_0000_0000_0000_0000int
            + (a3 * b3)
            * 0x1_0000_0000_0000_0000_0000_0000_0000_0000_0000_0000_0000_0000_0000_0000_0000_0000_0000_0000_0000_0000_0000_0000_0000_0000int,
{
    let a = a0 + a1 * 0x1_0000_0000_0000_0000 + a2 * 0x1_0000_0000_0000_0000_0000_0000_0000_0000
        + a3 * 0x1_0000_0000_0000_0000_0000_0000_0000_0000_0000_0000_0000_0000int;
    lemma_limbs_times(b0, b1, b2, b3, a);
    lemma_limbs_times(a0, a1, a2, a3, b0);
    lemma_limbs_times(a0, a1, a2, a3, b1);
    lemma_limbs_times(a0, a1, a2, a3, b2);
    lemma_limbs_times(a0, a1, a2, a3, b3);
}

/// Field multiplication: `dest` becomes the canonical product of `src1` and `src2`.
pub fn fe_mul(dest: &mut Fe25519, src1: &Fe25519, src2: &Fe25519)
    requires
        src1.canonical(),
        src2.canonical(),
    ensures
        final(dest)@ == fe_mul_spec(src1@, src2@),
        final(dest).canonical(),
{
    // Schoolbook 4x4: one row for each limb of src1.
    let (m00, c) = mul_acc(src1.x0, src2.x0, 0, 0);
    let (m01, c) = mul_acc(src1.x0, src2.x1, c, 0);
    let (m02, c) = mul_acc(src1.x0, src2.x2, c, 0);
    let (m03, m04) = mul_acc(src1.x0, src2.x3, c, 0);

    let (m10, c) = mul_acc(src1.x1, src2.x0, m01, 0);
    let (m11, c) = mul_acc(src1.x1, src2.x1, c, m02);
    let (m12, c) = mul_acc(src1.x1, src2.x2, c, m03);
    let (m13, m14) = mul_acc(src1.x1, src2.x3, c, m04);

    let (m20, c) = mul_acc(src1.x2, src2.x0, m11, 0);
    let (m21, c) = mul_acc(src1.x2, src2.x1, c, m12);
    let (m22, c) = mul_acc(src1.x2, src2.x2, c, m13);
    let (m23, m24) = mul_acc(src1.x2, src2.x3, c, m14);

    let (m30, c) = mul_acc(src1.x3, src2.x0, m21, 0);
    let (m31, c) = mul_acc(src1.x3, src2.x1, c, m22);
    let (m32, c) = mul_acc(src1.x3, src2.x2, c, m23);
    let (m33, m34) = mul_acc(src1.x3, src2.x3, c, m24);

    proof {
        lemma_product_expand(
            src1.x0 as int,
            src1.x1 as int,
            src1.x2 as int,
            src1.x3 as int,
            src2.x0 as int,
            src2.x1 as int,
            src2.x2 as int,
            src2.x3 as int,
        );
        assert(limbs_value(m00, m10, m20, m30) + limbs_value(m31, m32, m33, m34)
            * 0x1_0000_0000_0000_0000_0000_0000_0000_0000_0000_0000_0000_0000_0000_0000_0000_0000int
            == src1@ * src2@);
    }

    // The high half weighs 2^256 = 38 (mod p).
    let (r0, c) = mul_acc(m31, 38, m00, 0);
    let (r1, c) = mul_acc(m32, 38, m10, c);
    let (r2, c) = mul_acc(m33, 38, m20, c);
    let t: u128 = (m34 as u128) * 38 + (m30 as u128) + (c as u128);
    proof {
        let hi = limbs_value(m31, m32, m33, m34);
        let v: int = r0 + r1 * 0x1_0000_0000_0000_0000 + r2
            * 0x1_0000_0000_0000_0000_0000_0000_0000_0000 + t
            * 0x1_0000_0000_0000_0000_0000_0000_0000_0000_0000_0000_0000_0000int;
        assert(v == src1@ * src2@ - (2 * hi) * p());
        lemma_mod_multiples_vanish(-(2 * hi), (src1@ * src2@) as int, p() as int);
    }
    let (d0, d1, d2, d3) = reduce(r0, r1, r2, t);
    *dest = Fe25519 { x3: d3, x2: d2, x1: d1, x0: d0 };
}

/// Field squaring: `dest` becomes the canonical square of `src`.
///
/// The ten distinct limb products are formed once; those off the diagonal are counted twice.
pub fn fe_square(dest: &mut Fe25519, src: &Fe25519)
    requires
        src.canonical(),
    ensures
        final(dest)@ == fe_mul_spec(src@, src@),
        final(dest).canonical(),
{
    let (l00, h00) = mul_acc(src.x0, src.x0, 0, 0);
    let (l01, h01) = mul_acc(src.x0, src.x1, 0, 0);
    let (l02, h02) = mul_acc(src.x0, src.x2, 0, 0);
    let (l03, h03) = mul_acc(src.x0, src.x3, 0, 0);
    let (l11, h11) = mul_acc(src.x1, src.x1, 0, 0);
    let (l12, h12) = mul_acc(src.x1, src.x2, 0, 0);
    let (l13, h13) = mul_acc(src.x1, src.x3, 0, 0);
    let (l22, h22) = mul_acc(src.x2, src.x2, 0, 0);
    let (l23, h23) = mul_acc(src.x2, src.x3, 0, 0);
    let (l33, h33) = mul_acc(src.x3, src.x3, 0, 0);

    let scan_1: u128 = (h00 as u128) + 2 * (l01 as u128);
    proof {
        lemma_split_u128(scan_1);
    }
    let scan_2: u128 = 2 * (h01 as u128) + 2 * (l02 as u128) + (l11 as u128) + (scan_1 >> 64);
    proof {
        lemma_split_u128(scan_2);
    }
    let scan_3: u128 = 2 * (h02 as u128) + (h11 as u128) + 2 * (l03 as u128) + 2 * (l12 as u128)
        + (scan_2 >> 64);
    proof {
        lemma_split_u128(scan_3);
    }
    let scan_4: u128 = 2 * (h03 as u128) + 2 * (h12 as u128) + (l22 as u128) + 2 * (l13 as u128)
        + (scan_3 >> 64);
    proof {
        lemma_split_u128(scan_4);
    }
    let scan_5: u128 = 2 * (h13 as u128) + (h22 as u128) + 2 * (l23 as u128) + (scan_4 >> 64);
    proof {
        lemma_split_u128(scan_5);
    }
    let scan_6: u128 = 2 * (h23 as u128) + (l33 as u128) + (scan_5 >> 64);
    proof {
        lemma_split_u128(scan_6);
    }
    let m0: u64 = l00;
    let m1: u64 = #[verifier::truncate] (scan_1 as u64);
    let m2: u64 = #[verifier::truncate] (scan_2 as u64);
    let m3: u64 = #[verifier::truncate] (scan_3 as u64);
    let m4: u64 = #[verifier::truncate] (scan_4 as u64);
    let m5: u64 = #[verifier::truncate] (scan_5 as u64);
    let m6: u64 = #[verifier::truncate] (scan_6 as u64);
    let m7: u128 = (h33 as u128) + (scan_6 >> 64);

    proof {
        lemma_product_expand(
            src.x0 as int,
            src.x1 as int,
            src.x2 as int,
            src.x3 as int,
            src.x0 as int,
            src.x1 as int,
            src.x2 as int,
            src.x3 as int,
        );
        assert(limbs_value(m0, m1, m2, m3) + (m4 + m5 * 0x1_0000_0000_0000_0000 + m6
            * 0x1_0000_0000_0000_0000_0000_0000_0000_0000 + m7
            * 0x1_0000_0000_0000_0000_0000_0000_0000_0000_0000_0000_0000_0000int)
            * 0x1_0000_0000_0000_0000_0000_0000_0000_0000_0000_0000_0000_0000_0000_0000_0000_0000int
            == src@ * src@);
    }

    // The high half weighs 2^256 = 38 (mod p).
    let (r0, c) = mul_acc(m4, 38, m0, 0);
    let (r1, c) = mul_acc(m5, 38, m1, c);
    let (r2, c) = mul_acc(m6, 38, m2, c);
    let t: u128 = m7 * 38 + (m3 as u128) + (c as u128);
    proof {
        let hi: int = m4 + m5 * 0x1_0000_0000_0000_0000 + m6
            * 0x1_0000_0000_0000_0000_0000_0000_0000_0000 + m7
            * 0x1_0000_0000_0000_0000_0000_0000_0000_0000_0000_0000_0000_0000int;
        let v: int = r0 + r1 * 0x1_0000_0000_0000_0000 + r2
            * 0x1_0000_0000_0000_0000_0000_0000_0000_0000 + t
            * 0x1_0000_0000_0000_0000_0000_0000_0000_0000_0000_0000_0000_0000int;
        assert(v == src@ * src@ - (2 * hi) * p());
        lemma_mod_multiples_vanish(-(2 * hi), (src@ * src@) as int, p() as int);
    }
    let (d0, d1, d2, d3) = reduce(r0, r1, r2, t);
    *dest = Fe25519 { x3: d3, x2: d2, x1: d1, x0: d0 };
}

/// Field addition: `dest` becomes the canonical sum of `src1` and `src2`.
pub fn fe_add(dest: &mut Fe25519, src1: &Fe25519, src2: &Fe25519)
    requires
        src1.canonical(),
        src2.canonical(),
    ensures
        final(dest)@ == fe_add_spec(src1@, src2@),
        final(dest).canonical(),
{
    let (s0, c) = add_carry(src1.x0, src2.x0, 0);
    let (s1, c) = add_carry(src1.x1, src2.x1, c);
    let (s2, c) = add_carry(src1.x2, src2.x2, c);
    let t: u128 = (src1.x3 as u128) + (src2.x3 as u128) + (c as u128);
    let (d0, d1, d2, d3) = reduce(s0, s1, s2, t);
    *dest = Fe25519 { x3: d3, x2: d2, x1: d1, x0: d0 };
}

/// Field subtraction: `dest` becomes the canonical difference of `src1` and `src2`.
///
/// Where the limb-wise difference borrows out of the top limb it stands 2^256 too high;
/// taking nineteen off and clearing bit 255 then adds the prime in its place.
pub fn fe_sub(dest: &mut Fe25519, src1: &Fe25519, src2: &Fe25519)
    requires
        src1.canonical(),
        src2.canonical(),
    ensures
        final(dest)@ == fe_sub_spec(src1@, src2@),
        final(dest).canonical(),
{
    let (s0, b) = sub_borrow(src1.x0, src2.x0, 0);
    let (s1, b) = sub_borrow(src1.x1, src2.x1, b);
    let (s2, b) = sub_borrow(src1.x2, src2.x2, b);
    let (s3, b) = sub_borrow(src1.x3, src2.x3, b);

    let (d0, c) = sub_borrow(s0, 19 * b, 0);
    let (d1, c) = sub_borrow(s1, 0, c);
    let (d2, c) = sub_borrow(s2, 0, c);
    let (e3, c) = sub_borrow(s3, 0, c);
    let d3: u64 = e3 & UMASK63;
    proof {
        lemma_top_bit(e3);
        let diff: int = src1@ - src2@;
        if b == 1 {
            assert(limbs_value(d0, d1, d2, d3) == diff + p());
            lemma_fundamental_div_mod_converse(diff, p() as int, -1, diff + p());
        } else {
            assert(limbs_value(d0, d1, d2, d3) == diff);
            lemma_small_mod(diff as nat, p());
        }
    }
    *dest = Fe25519 { x3: d3, x2: d2, x1: d1, x0: d0 };
}

/// Multiplication by the curve constant 121665: `dest` becomes the canonical product.
pub fn fe_mul_121665(dest: &mut Fe25519, src: &Fe25519)
    requires
        src.canonical(),
    ensures
        final(dest)@ == fe_mul_spec(121665, src@),
        final(dest).canonical(),
{
    let (r0, c) = mul_acc(src.x0, 121_665, 0, 0);
    let (r1, c) = mul_acc(src.x1, 121_665, c, 0);
    let (r2, c) = mul_acc(src.x2, 121_665, c, 0);
    let t: u128 = (src.x3 as u128) * 121_665 + (c as u128);
    let (d0, d1, d2, d3) = reduce(r0, r1, r2, t);
    *dest = Fe25519 { x3: d3, x2: d2, x1: d1, x0: d0 };
}

/// Conditional swap: exchanges `x_2` and `x_3` where `swap` is the all-ones mask and leaves
/// them as they are where it is the zero mask, by masked exclusive-or and without a branch.
pub fn fe_cswap(swap: &Fe25519, x_2: &mut Fe25519, x_3: &mut Fe25519)
    ensures
        (*final(x_2), *final(x_3)) == fe_cswap_spec(*swap, *old(x_2), *old(x_3)),
        *swap == zero_mask() ==> *final(x_2) == *old(x_2) && *final(x_3) == *old(x_3),
        *swap == ones_mask() ==> *final(x_2) == *old(x_3) && *final(x_3) == *old(x_2),
{
    proof {
        lemma_cswap_limb(swap.x3, x_2.x3, x_3.x3);
        lemma_cswap_limb(swap.x2, x_2.x2, x_3.x2);
        lemma_cswap_limb(swap.x1, x_2.x1, x_3.x1);
        lemma_cswap_limb(swap.x0, x_2.x0, x_3.x0);
    }
    let dummy = Fe25519 {
        x3: swap.x3 & (x_2.x3 ^ x_3.x3),
        x2: swap.x2 & (x_2.x2 ^ x_3.x2),
        x1: swap.x1 & (x_2.x1 ^ x_3.x1),
        x0: swap.x0 & (x_2.x0 ^ x_3.x0),
    };
    x_2.x3 = x_2.x3 ^ dummy.x3;
    x_2.x2 = x_2.x2 ^ dummy.x2;
    x_2.x1 = x_2.x1 ^ dummy.x1;
    x_2.x0 = x_2.x0 ^ dummy.x0;
    x_3.x3 = x_3.x3 ^ dummy.x3;
    x_3.x2 = x_3.x2 ^ dummy.x2;
    x_3.x1 = x_3.x1 ^ dummy.x1;
    x_3.x0 = x_3.x0 ^ dummy.x0;
}

/// Bit `t` of the scalar `k`, broadcast to a mask over all four limbs.
pub fn k_t(k: &Fe25519, t: i16) -> (r: Fe25519)
    requires
        0 <= t <= 255,
    ensures
        r == mask_of(scalar_bit(k@, t as nat)),
{
    let s: u64 = (t % 64) as u64;
    let x: u64 = if t <= 63 {
        k.x0 >> s
    } else if t <= 127 {
        k.x1 >> s
    } else if t <= 191 {
        k.x2 >> s
    } else {
        k.x3 >> s
    };
    proof {
        lemma_limbs_bit(k.x0, k.x1, k.x2, k.x3, s as nat);
        lemma_limb_bit(k.x0, s);
        lemma_limb_bit(k.x1, s);
        lemma_limb_bit(k.x2, s);
        lemma_limb_bit(k.x3, s);
    }
    let m: u64 = 0u64.wrapping_sub(x & 1);
    Fe25519 { x3: m, x2: m, x1: m, x0: m }
}

} // verus!
