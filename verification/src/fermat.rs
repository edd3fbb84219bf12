//! Fermat's little theorem in the field, and what it gives: the power `p - 2` of a residue
//! that is not zero is its inverse.

use crate::field::{fe_inv, fe_mul_spec, fe_pow, p};
use crate::lucas::lemma_generator_gives_fermat;
use crate::numtheory::{is_prime, lemma_pw_add, pw};
use crate::primality::m255::{lemma_prime_m255, m255};
use vstd::arithmetic::div_mod::lemma_small_mod;
use vstd::arithmetic::power::{lemma0_pow, lemma_pow1};
use vstd::prelude::*;

verus! {

/// The field prime is a prime.
pub proof fn lemma_p_is_prime()
    ensures
        is_prime(p()),
{
    lemma_prime_m255();
    assert(p() == m255());
}

/// Fermat's little theorem in the field: a residue that is not zero, raised to the power
/// `p - 1`, gives one.
pub proof fn lemma_fermat(a: nat)
    requires
        0 < a < p(),
    ensures
        fe_pow(a, (p() - 1) as nat) == 1,
{
    lemma_prime_m255();
    assert(p() == m255());
    lemma_generator_gives_fermat(2, m255(), a);
}

/// The Fermat inverse of a residue that is not zero is its inverse: their product is one.
pub proof fn lemma_fermat_inverse(a: nat)
    requires
        0 < a < p(),
    ensures
        fe_mul_spec(a, fe_inv(a)) == 1,
        fe_mul_spec(fe_inv(a), a) == 1,
{
    lemma_fermat(a);
    lemma_pw_add(a, 1, (p() - 2) as nat, p());
    lemma_pow1(a as int);
    lemma_small_mod(a, p());
    assert(pw(a, 1, p()) == a);
    assert(fe_inv(a) == pw(a, (p() - 2) as nat, p()));
    assert(fe_inv(a) * a == a * fe_inv(a)) by (nonlinear_arith);
}

/// The Fermat inverse of zero is zero.
pub proof fn lemma_fermat_inverse_of_zero()
    ensures
        fe_inv(0) == 0,
{
    lemma0_pow((p() - 2) as nat);
    lemma_small_mod(0, p());
}

} // verus!
