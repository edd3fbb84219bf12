//! The laws of the field arithmetic, of the conditional swap and of the byte encoding, over
//! the functions that the contracts of the operations are stated with.

use crate::arith::{fe_cswap_spec, lemma_cswap_limb, ones_mask, zero_mask, Fe25519};
use crate::codec::{
    decode_u_spec, encode_spec, le64, le_value, lemma_limb_bytes_of_le64, lemma_limbs_of_value,
};
use crate::fermat::lemma_fermat_inverse;
use crate::field::{fe_add_spec, fe_inv, fe_mul_spec, fe_sub_spec, p};
use vstd::arithmetic::div_mod::{
    lemma_add_mod_noop_right, lemma_mul_mod_noop_general, lemma_small_mod,
};
use vstd::arithmetic::mul::{
    lemma_mul_is_associative, lemma_mul_is_commutative, lemma_mul_is_distributive_add,
};
use vstd::prelude::*;

verus! {

/// Field addition is commutative and associative.
pub proof fn lemma_add_commutes_and_associates(a: nat, b: nat, c: nat)
    ensures
        fe_add_spec(a, b) == fe_add_spec(b, a),
        fe_add_spec(fe_add_spec(a, b), c) == fe_add_spec(a, fe_add_spec(b, c)),
{
    let m = p() as int;
    let (x, y, z) = (a as int, b as int, c as int);
    lemma_add_mod_noop_right(z, x + y, m);
    lemma_add_mod_noop_right(x, y + z, m);
}

/// Zero is the neutral element of field addition.
pub proof fn lemma_add_identity(a: nat)
    requires
        a < p(),
    ensures
        fe_add_spec(a, 0) == a,
        fe_add_spec(0, a) == a,
{
    lemma_small_mod(a, p());
}

/// Field subtraction undoes field addition, and an element less itself is zero.
pub proof fn lemma_sub_inverse(a: nat, b: nat)
    requires
        a < p(),
    ensures
        fe_add_spec(fe_sub_spec(a, b), b) == a,
        fe_sub_spec(a, a) == 0,
{
    let m = p() as int;
    lemma_add_mod_noop_right(b as int, a - b, m);
    lemma_small_mod(a, p());
    lemma_small_mod(0, p());
}

/// Field multiplication is commutative and associative, and distributes over field addition.
pub proof fn lemma_mul_commutes_associates_distributes(a: nat, b: nat, c: nat)
    ensures
        fe_mul_spec(a, b) == fe_mul_spec(b, a),
        fe_mul_spec(fe_mul_spec(a, b), c) == fe_mul_spec(a, fe_mul_spec(b, c)),
        fe_mul_spec(a, fe_add_spec(b, c)) == fe_add_spec(fe_mul_spec(a, b), fe_mul_spec(a, c)),
{
    let m = p() as int;
    let (x, y, z) = (a as int, b as int, c as int);
    lemma_mul_is_commutative(x, y);
    lemma_mul_mod_noop_general(x * y, z, m);
    lemma_mul_mod_noop_general(x, y * z, m);
    lemma_mul_is_associative(x, y, z);
    lemma_mul_mod_noop_general(x, y + z, m);
    lemma_mul_is_distributive_add(x, y, z);
    lemma_add_mod_noop_right((x * y) % m, x * z, m);
    lemma_add_mod_noop_right(x * z, x * y, m);
}

/// One is the neutral element of field multiplication, and zero absorbs.
pub proof fn lemma_mul_identity(a: nat)
    requires
        a < p(),
    ensures
        fe_mul_spec(a, 1) == a,
        fe_mul_spec(1, a) == a,
        fe_mul_spec(a, 0) == 0,
        fe_mul_spec(0, a) == 0,
{
    lemma_small_mod(a, p());
    lemma_small_mod(0, p());
    assert(a * 1 == a && 1 * a == a && a * 0 == 0 && 0 * a == 0) by (nonlinear_arith);
}

/// The product of a field element that is not zero and its inverse is one.
pub proof fn lemma_inversion(a: nat)
    requires
        0 < a < p(),
    ensures
        fe_mul_spec(a, fe_inv(a)) == 1,
{
    lemma_fermat_inverse(a);
}

/// The square of a field element that is not zero, times its inverse, is the element.
pub proof fn lemma_square_times_inverse(a: nat)
    requires
        0 < a < p(),
    ensures
        fe_mul_spec(fe_mul_spec(a, a), fe_inv(a)) == a,
{
    lemma_fermat_inverse(a);
    lemma_mul_commutes_associates_distributes(a, a, fe_inv(a));
    lemma_mul_identity(a);
}

/// The conditional swap is the identity under the zero mask and exchanges its operands under
/// the all-ones mask; under any mask, swapping twice gives the operands back.
pub proof fn lemma_cswap_laws(swap: Fe25519, a: Fe25519, b: Fe25519)
    ensures
        fe_cswap_spec(zero_mask(), a, b) == (a, b),
        fe_cswap_spec(ones_mask(), a, b) == (b, a),
        fe_cswap_spec(swap, fe_cswap_spec(swap, a, b).0, fe_cswap_spec(swap, a, b).1) == (a, b),
{
    lemma_cswap_limb(0, a.x0, b.x0);
    lemma_cswap_limb(0, a.x1, b.x1);
    lemma_cswap_limb(0, a.x2, b.x2);
    lemma_cswap_limb(0, a.x3, b.x3);
    lemma_cswap_limb(0xffff_ffff_ffff_ffff, a.x0, b.x0);
    lemma_cswap_limb(0xffff_ffff_ffff_ffff, a.x1, b.x1);
    lemma_cswap_limb(0xffff_ffff_ffff_ffff, a.x2, b.x2);
    lemma_cswap_limb(0xffff_ffff_ffff_ffff, a.x3, b.x3);
    lemma_cswap_limb(swap.x0, a.x0, b.x0);
    lemma_cswap_limb(swap.x1, a.x1, b.x1);
    lemma_cswap_limb(swap.x2, a.x2, b.x2);
    lemma_cswap_limb(swap.x3, a.x3, b.x3);
}

/// Decoding a u-coordinate and encoding it again gives the 32 bytes back, where they stand
/// for a canonical value, whose bit 255 is then clear.
pub proof fn lemma_decode_then_encode(b: Seq<u8>)
    requires
        b.len() == 32,
        b[31] < 0x80,
        le_value(b) < p(),
    ensures
        decode_u_spec(b) == le_value(b),
        encode_spec(decode_u_spec(b)) == b,
{
    let v = le_value(b);
    lemma_small_mod(
        v,
        0x8000_0000_0000_0000_0000_0000_0000_0000_0000_0000_0000_0000_0000_0000_0000_0000nat,
    );
    lemma_small_mod(v, p());
    lemma_limb_bytes_of_le64(b, 0);
    lemma_limb_bytes_of_le64(b, 8);
    lemma_limb_bytes_of_le64(b, 16);
    lemma_limb_bytes_of_le64(b, 24);
    lemma_limbs_of_value(
        le64(b, 0) as u64,
        le64(b, 8) as u64,
        le64(b, 16) as u64,
        le64(b, 24) as u64,
    );
    assert(b =~= b.subrange(0, 8) + b.subrange(8, 16) + b.subrange(16, 24) + b.subrange(24, 32));
}

} // verus!
