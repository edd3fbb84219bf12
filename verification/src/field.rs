//! The field of integers modulo 2^255 - 19 as residue arithmetic on natural numbers: what
//! the contracts of the limb arithmetic are stated over.

use vstd::arithmetic::div_mod::lemma_mul_mod_noop;
use vstd::arithmetic::power::{lemma_pow1, lemma_pow_adds, pow};
use vstd::arithmetic::power2::pow2;
use vstd::prelude::*;

verus! {

/// The field prime, two to the 255th power less nineteen.
pub open spec fn p() -> nat {
    0x7fff_ffff_ffff_ffff_ffff_ffff_ffff_ffff_ffff_ffff_ffff_ffff_ffff_ffff_ffff_ffednat
}

/// The sum of two residues.
pub open spec fn fe_add_spec(a: nat, b: nat) -> nat {
    (a + b) % p()
}

/// The difference of two residues.
pub open spec fn fe_sub_spec(a: nat, b: nat) -> nat {
    ((a - b) % (p() as int)) as nat
}

/// The product of two residues.
pub open spec fn fe_mul_spec(a: nat, b: nat) -> nat {
    (a * b) % p()
}

/// The residue of `a` raised to the power `e`.
pub open spec fn fe_pow(a: nat, e: nat) -> nat {
    (pow(a as int, e) % (p() as int)) as nat
}

/// The Fermat inverse of a residue: `a` raised to the power `p - 2`.
pub open spec fn fe_inv(a: nat) -> nat {
    fe_pow(a, (p() - 2) as nat)
}

/// Bit `t` of the integer `k`.
pub open spec fn scalar_bit(k: nat, t: nat) -> bool {
    (k / pow2(t)) % 2 == 1
}

/// The first power of a canonical residue is the residue itself.
pub proof fn lemma_fe_pow_one(a: nat)
    requires
        a < p(),
    ensures
        fe_pow(a, 1) == a,
{
    lemma_pow1(a as int);
}

/// Multiplying two powers of one base adds their exponents.
pub proof fn lemma_fe_pow_mul(a: nat, e1: nat, e2: nat)
    ensures
        (fe_pow(a, e1) * fe_pow(a, e2)) % p() == fe_pow(a, e1 + e2),
{
    lemma_mul_mod_noop(pow(a as int, e1), pow(a as int, e2), p() as int);
    lemma_pow_adds(a as int, e1, e2);
}

} // verus!
