//! The certificate that a number of 37 bits is a prime, by Lucas's criterion.
//!
//! The number less one has the prime factors 2, 13 and 2773320623. The powers of 7 by that
//! number with one prime factor divided out are raised digit by digit; each step is a product
//! of literals, which the solver computes.

use crate::lucas::{is_generator, lemma_generator_gives_prime, lemma_lucas};
use crate::modexp::{lemma_pw_one, lemma_step16};
use crate::numtheory::{
    is_prime, lemma_prime_by_trial, lemma_prime_factor_split, lemma_pw_mul, lemma_pw_zero, pw,
};
use crate::primality::small::{lemma_prime_2, lemma_prime_2773320623};
use vstd::arithmetic::div_mod::lemma_small_mod;
use vstd::prelude::*;

verus! {

/// A prime of 37 bits.
#[verifier::inline]
pub open spec fn m37() -> nat {
    72106336199
}

/// 7 to the power 26, modulo the prime.
#[verifier::inline]
spec fn v0() -> nat {
    28357292573
}

/// The chain of squarings and multiplications that gives `v0`.
proof fn lemma_chain_0()
    ensures
        pw(7, 26, m37()) == v0(),
{
    lemma_pw_zero(7, m37());
    lemma_step16(7, m37(), 0x0, 1, 1, 7);
    lemma_step16(7, m37(), 0x1, 7, 10, v0());
}

/// 7 to the power 2773320623, modulo the prime.
#[verifier::inline]
spec fn v1() -> nat {
    41406479190
}

/// The chain that gives `v1`, up to its base-16 digit 6.
proof fn lemma_chain_1_0()
    ensures
        pw(7, 0xa5_4d83, m37()) == 27333411576,
{
    lemma_pw_zero(7, m37());
    lemma_step16(7, m37(), 0x0, 1, 10, 282475249);
    lemma_step16(7, m37(), 0xa, 282475249, 5, 5710926507);
    lemma_step16(7, m37(), 0xa5, 5710926507, 4, 36259762445);
    lemma_step16(7, m37(), 0xa54, 36259762445, 13, 47331669410);
    lemma_step16(7, m37(), 0xa54d, 47331669410, 8, 2678787658);
    lemma_step16(7, m37(), 0xa_54d8, 2678787658, 3, 27333411576);
}

/// The chain of squarings and multiplications that gives `v1`.
proof fn lemma_chain_1()
    ensures
        pw(7, 2773320623, m37()) == v1(),
{
    lemma_chain_1_0();
    lemma_step16(7, m37(), 0xa5_4d83, 27333411576, 10, 26669029567);
    lemma_step16(7, m37(), 0xa54_d83a, 26669029567, 15, v1());
}

/// `v1` to the power 2, modulo the prime.
#[verifier::inline]
spec fn v2() -> nat {
    58700762603
}

/// The chain of squarings and multiplications that gives `v2`.
proof fn lemma_chain_2()
    ensures
        pw(v1(), 2, m37()) == v2(),
{
    lemma_pw_zero(v1(), m37());
    lemma_step16(v1(), m37(), 0x0, 1, 2, v2());
}

/// `v1` to the power 13, modulo the prime.
#[verifier::inline]
spec fn v3() -> nat {
    72106336198
}

/// The chain of squarings and multiplications that gives `v3`.
proof fn lemma_chain_3()
    ensures
        pw(v1(), 13, m37()) == v3(),
{
    lemma_pw_zero(v1(), m37());
    lemma_step16(v1(), m37(), 0x0, 1, 13, v3());
}

/// `v3` to the power 2, modulo the prime.
#[verifier::inline]
spec fn v4() -> nat {
    1
}

/// The chain of squarings and multiplications that gives `v4`.
proof fn lemma_chain_4()
    ensures
        pw(v3(), 2, m37()) == v4(),
{
    lemma_pw_zero(v3(), m37());
    lemma_step16(v3(), m37(), 0x0, 1, 2, v4());
}

/// The prime of 37 bits is a prime: 7 is a generator modulo it.
pub proof fn lemma_prime_m37()
    ensures
        is_prime(m37()),
        is_generator(7, m37()),
{
    lemma_prime_2();
    lemma_prime_by_trial(13);
    lemma_prime_2773320623();
    lemma_pw_one(7, m37());
    lemma_chain_0();
    lemma_pw_mul(7, 1, 26, m37());
    lemma_chain_1();
    lemma_pw_mul(7, 1, 2773320623, m37());
    lemma_chain_2();
    lemma_pw_mul(7, 2773320623, 2, m37());
    lemma_chain_3();
    lemma_pw_mul(7, 2773320623, 13, m37());
    lemma_chain_4();
    lemma_pw_mul(7, 36053168099, 2, m37());
    assert forall|q: nat| is_prime(q) && (m37() - 1) % (q as int) == 0 implies pw(
        7,
        ((m37() - 1) / (q as int)) as nat,
        m37(),
    ) != 1 by {
        lemma_prime_factor_split(q, 2, 36053168099);
        if q != 2 {
            lemma_prime_factor_split(q, 13, 2773320623);
            if q != 13 {
                lemma_prime_factor_split(q, 2773320623, 1);
                if q != 2773320623 {
                    lemma_small_mod(1, q);
                }
            }
        }
    }
    lemma_lucas(7, m37());
    lemma_generator_gives_prime(7, m37());
}

} // verus!
