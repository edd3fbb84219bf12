//! The bits of a four-limb integer: bit `64 * j + s` of the integer is bit `s` of limb `j`.

use crate::field::scalar_bit;
use crate::limbs::limbs_value;
use vstd::arithmetic::div_mod::{
    lemma_div_denominator, lemma_fundamental_div_mod, lemma_fundamental_div_mod_converse,
    lemma_mod_multiples_vanish,
};
use vstd::arithmetic::power2::{lemma2_to64, lemma2_to64_rest, lemma_pow2_adds, lemma_pow2_pos, lemma_pow2_unfold, pow2};
use vstd::bits::lemma_u64_shr_is_div;
use vstd::prelude::*;

verus! {

/// A bit at or above position `n` of `lo + 2^n * y` is a bit of `y`.
pub proof fn lemma_bit_of_high_part(lo: nat, y: nat, n: nat, t: nat)
    requires
        lo < pow2(n),
        n <= t,
    ensures
        scalar_bit(lo + pow2(n) * y, t) == scalar_bit(y, (t - n) as nat),
{
    let x = lo + pow2(n) * y;
    let s = (t - n) as nat;
    lemma_pow2_pos(n);
    lemma_pow2_pos(s);
    lemma_pow2_adds(n, s);
    assert(pow2(n) * y == y * pow2(n)) by (nonlinear_arith);
    lemma_fundamental_div_mod_converse(x as int, pow2(n) as int, y as int, lo as int);
    lemma_div_denominator(x as int, pow2(n) as int, pow2(s) as int);
}

/// A bit below position `m` of `y0 + 2^m * z` is a bit of `y0`.
pub proof fn lemma_bit_of_low_part(y0: nat, z: nat, m: nat, t: nat)
    requires
        y0 < pow2(m),
        t < m,
    ensures
        scalar_bit(y0 + pow2(m) * z, t) == scalar_bit(y0, t),
{
    let x = y0 + pow2(m) * z;
    let d = pow2(t);
    let h = pow2((m - t - 1) as nat);
    lemma_pow2_pos(t);
    lemma_pow2_adds(t, (m - t) as nat);
    lemma_pow2_unfold((m - t) as nat);
    let q = y0 / d;
    let r = y0 % d;
    lemma_fundamental_div_mod(y0 as int, d as int);
    assert(pow2(m) * z == d * (2 * (h * z))) by (nonlinear_arith)
        requires
            pow2(m) == d * (2 * h),
    ;
    assert(x == d * (q + 2 * (h * z)) + r) by (nonlinear_arith)
        requires
            x == y0 + d * (2 * (h * z)),
            y0 == d * q + r,
    ;
    assert(d * (q + 2 * (h * z)) == (q + 2 * (h * z)) * d) by (nonlinear_arith);
    lemma_fundamental_div_mod_converse(x as int, d as int, (q + 2 * (h * z)) as int, r as int);
    lemma_mod_multiples_vanish((h * z) as int, q as int, 2);
}

/// The lowest bit of a shifted limb is the bit of the limb at the shift's position.
pub proof fn lemma_limb_bit(x: u64, s: u64)
    requires
        s < 64,
    ensures
        ((x >> s) & 1) == 1 <==> scalar_bit(x as nat, s as nat),
        ((x >> s) & 1) == 0 || ((x >> s) & 1) == 1,
{
    lemma_u64_shr_is_div(x, s);
    let y = x >> s;
    assert((y & 1) == y % 2) by (bit_vector);
}

/// Bit `64 * j + s` of a four-limb integer is bit `s` of its limb `j`.
pub proof fn lemma_limbs_bit(x0: u64, x1: u64, x2: u64, x3: u64, s: nat)
    requires
        s < 64,
    ensures
        scalar_bit(limbs_value(x0, x1, x2, x3), s) == scalar_bit(x0 as nat, s),
        scalar_bit(limbs_value(x0, x1, x2, x3), 64 + s) == scalar_bit(x1 as nat, s),
        scalar_bit(limbs_value(x0, x1, x2, x3), 128 + s) == scalar_bit(x2 as nat, s),
        scalar_bit(limbs_value(x0, x1, x2, x3), 192 + s) == scalar_bit(x3 as nat, s),
{
    lemma2_to64();
    lemma2_to64_rest();
    lemma_pow2_adds(64, 64);
    lemma_pow2_adds(64, 128);
    let v = limbs_value(x0, x1, x2, x3);
    let w: nat = 0x1_0000_0000_0000_0000;
    let h1: nat = (x1 + w * (x2 + w * x3)) as nat;
    let h2: nat = (x2 + w * x3) as nat;
    assert(v == x0 + pow2(64) * h1);
    assert(v == (x0 + w * x1) + pow2(128) * h2);
    assert(v == (x0 + w * x1 + w * w * x2) + pow2(192) * x3);
    lemma_bit_of_low_part(x0 as nat, h1, 64, s);
    lemma_bit_of_high_part(x0 as nat, h1, 64, 64 + s);
    lemma_bit_of_low_part(x1 as nat, h2, 64, s);
    lemma_bit_of_high_part((x0 + w * x1) as nat, h2, 128, 128 + s);
    lemma_bit_of_low_part(x2 as nat, x3 as nat, 64, s);
    lemma_bit_of_high_part((x0 + w * x1 + w * w * x2) as nat, x3 as nat, 192, 192 + s);
}

} // verus!
