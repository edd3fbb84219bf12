//! The certificate that a number of 51 bits is a prime, by Lucas's criterion.
//!
//! The number less one has the prime factors 2, 3, 7, 19, 47, 127 and 8574133. The powers of 2
//! by that number with one prime factor divided out are raised digit by digit; each step is a
//! product of literals, which the solver computes.

use crate::lucas::{is_generator, lemma_generator_gives_prime, lemma_lucas};
use crate::modexp::{lemma_pw_one, lemma_step16};
use crate::numtheory::{
    is_prime, lemma_prime_by_trial, lemma_prime_factor_split, lemma_pw_mul, lemma_pw_zero, pw,
};
use crate::primality::small::{lemma_prime_2, lemma_prime_8574133};
use vstd::arithmetic::div_mod::lemma_small_mod;
use vstd::prelude::*;

verus! {

/// A prime of 51 bits.
#[verifier::inline]
pub open spec fn m51() -> nat {
    1919519569386763
}

/// 2 to the power 47, modulo the prime.
#[verifier::inline]
spec fn v0() -> nat {
    140737488355328
}

/// The chain of squarings and multiplications that gives `v0`.
proof fn lemma_chain_0()
    ensures
        pw(2, 47, m51()) == v0(),
{
    lemma_pw_zero(2, m51());
    lemma_step16(2, m51(), 0x0, 1, 2, 4);
    lemma_step16(2, m51(), 0x2, 4, 15, v0());
}

/// `v0` to the power 4763262, modulo the prime.
#[verifier::inline]
spec fn v1() -> nat {
    1059928654987441
}

/// The chain of squarings and multiplications that gives `v1`.
proof fn lemma_chain_1()
    ensures
        pw(v0(), 4763262, m51()) == v1(),
{
    lemma_pw_zero(v0(), m51());
    lemma_step16(v0(), m51(), 0x0, 1, 4, 532668510618300);
    lemma_step16(v0(), m51(), 0x4, 532668510618300, 8, 1695675144498580);
    lemma_step16(v0(), m51(), 0x48, 1695675144498580, 10, 172202281839068);
    lemma_step16(v0(), m51(), 0x48a, 172202281839068, 14, 34198026557694);
    lemma_step16(v0(), m51(), 0x48ae, 34198026557694, 7, 1510818319332567);
    lemma_step16(v0(), m51(), 0x4_8ae7, 1510818319332567, 14, v1());
}

/// `v0` to the power 8574133, modulo the prime.
#[verifier::inline]
spec fn v2() -> nat {
    972898871401305
}

/// The chain of squarings and multiplications that gives `v2`.
proof fn lemma_chain_2()
    ensures
        pw(v0(), 8574133, m51()) == v2(),
{
    lemma_pw_zero(v0(), m51());
    lemma_step16(v0(), m51(), 0x0, 1, 8, 1830080758523207);
    lemma_step16(v0(), m51(), 0x8, 1830080758523207, 2, 1528468517435470);
    lemma_step16(v0(), m51(), 0x82, 1528468517435470, 13, 717345482767761);
    lemma_step16(v0(), m51(), 0x82d, 717345482767761, 4, 558957928675463);
    lemma_step16(v0(), m51(), 0x82d4, 558957928675463, 11, 30806031210335);
    lemma_step16(v0(), m51(), 0x8_2d4b, 30806031210335, 5, v2());
}

/// `v2` to the power 37506, modulo the prime.
#[verifier::inline]
spec fn v3() -> nat {
    576774792492622
}

/// The chain of squarings and multiplications that gives `v3`.
proof fn lemma_chain_3()
    ensures
        pw(v2(), 37506, m51()) == v3(),
{
    lemma_pw_zero(v2(), m51());
    lemma_step16(v2(), m51(), 0x0, 1, 9, 577092532878700);
    lemma_step16(v2(), m51(), 0x9, 577092532878700, 2, 516450810769732);
    lemma_step16(v2(), m51(), 0x92, 516450810769732, 8, 684703094133394);
    lemma_step16(v2(), m51(), 0x928, 684703094133394, 2, v3());
}

/// `v2` to the power 127, modulo the prime.
#[verifier::inline]
spec fn v4() -> nat {
    1622536855848791
}

/// The chain of squarings and multiplications that gives `v4`.
proof fn lemma_chain_4()
    ensures
        pw(v2(), 127, m51()) == v4(),
{
    lemma_pw_zero(v2(), m51());
    lemma_step16(v2(), m51(), 0x0, 1, 7, 1728862986123260);
    lemma_step16(v2(), m51(), 0x7, 1728862986123260, 15, v4());
}

/// `v4` to the power 798, modulo the prime.
#[verifier::inline]
spec fn v5() -> nat {
    621931926534591
}

/// The chain of squarings and multiplications that gives `v5`.
proof fn lemma_chain_5()
    ensures
        pw(v4(), 798, m51()) == v5(),
{
    lemma_pw_zero(v4(), m51());
    lemma_step16(v4(), m51(), 0x0, 1, 3, 240498525343042);
    lemma_step16(v4(), m51(), 0x3, 240498525343042, 1, 159285854540044);
    lemma_step16(v4(), m51(), 0x31, 159285854540044, 14, v5());
}

/// `v4` to the power 47, modulo the prime.
#[verifier::inline]
spec fn v6() -> nat {
    1525567716917230
}

/// The chain of squarings and multiplications that gives `v6`.
proof fn lemma_chain_6()
    ensures
        pw(v4(), 47, m51()) == v6(),
{
    lemma_pw_zero(v4(), m51());
    lemma_step16(v4(), m51(), 0x0, 1, 2, 997625779998136);
    lemma_step16(v4(), m51(), 0x2, 997625779998136, 15, v6());
}

/// `v6` to the power 42, modulo the prime.
#[verifier::inline]
spec fn v7() -> nat {
    602275051902557
}

/// The chain of squarings and multiplications that gives `v7`.
proof fn lemma_chain_7()
    ensures
        pw(v6(), 42, m51()) == v7(),
{
    lemma_pw_zero(v6(), m51());
    lemma_step16(v6(), m51(), 0x0, 1, 2, 116983984032563);
    lemma_step16(v6(), m51(), 0x2, 116983984032563, 10, v7());
}

/// `v6` to the power 19, modulo the prime.
#[verifier::inline]
spec fn v8() -> nat {
    434730541851122
}

/// The chain of squarings and multiplications that gives `v8`.
proof fn lemma_chain_8()
    ensures
        pw(v6(), 19, m51()) == v8(),
{
    lemma_pw_zero(v6(), m51());
    lemma_step16(v6(), m51(), 0x0, 1, 1, 1525567716917230);
    lemma_step16(v6(), m51(), 0x1, 1525567716917230, 3, v8());
}

/// `v8` to the power 6, modulo the prime.
#[verifier::inline]
spec fn v9() -> nat {
    1124719358789780
}

/// The chain of squarings and multiplications that gives `v9`.
proof fn lemma_chain_9()
    ensures
        pw(v8(), 6, m51()) == v9(),
{
    lemma_pw_zero(v8(), m51());
    lemma_step16(v8(), m51(), 0x0, 1, 6, v9());
}

/// `v8` to the power 7, modulo the prime.
#[verifier::inline]
spec fn v10() -> nat {
    1786118255295341
}

/// The chain of squarings and multiplications that gives `v10`.
proof fn lemma_chain_10()
    ensures
        pw(v8(), 7, m51()) == v10(),
{
    lemma_pw_zero(v8(), m51());
    lemma_step16(v8(), m51(), 0x0, 1, 7, v10());
}

/// `v10` to the power 2, modulo the prime.
#[verifier::inline]
spec fn v11() -> nat {
    1786118255295340
}

/// The chain of squarings and multiplications that gives `v11`.
proof fn lemma_chain_11()
    ensures
        pw(v10(), 2, m51()) == v11(),
{
    lemma_pw_zero(v10(), m51());
    lemma_step16(v10(), m51(), 0x0, 1, 2, v11());
}

/// `v10` to the power 3, modulo the prime.
#[verifier::inline]
spec fn v12() -> nat {
    1919519569386762
}

/// The chain of squarings and multiplications that gives `v12`.
proof fn lemma_chain_12()
    ensures
        pw(v10(), 3, m51()) == v12(),
{
    lemma_pw_zero(v10(), m51());
    lemma_step16(v10(), m51(), 0x0, 1, 3, v12());
}

/// `v12` to the power 2, modulo the prime.
#[verifier::inline]
spec fn v13() -> nat {
    1
}

/// The chain of squarings and multiplications that gives `v13`.
proof fn lemma_chain_13()
    ensures
        pw(v12(), 2, m51()) == v13(),
{
    lemma_pw_zero(v12(), m51());
    lemma_step16(v12(), m51(), 0x0, 1, 2, v13());
}

/// The prime of 51 bits is a prime: 2 is a generator modulo it.
pub proof fn lemma_prime_m51()
    ensures
        is_prime(m51()),
        is_generator(2, m51()),
{
    lemma_prime_2();
    lemma_prime_by_trial(3);
    lemma_prime_by_trial(7);
    lemma_prime_by_trial(19);
    lemma_prime_by_trial(47);
    lemma_prime_by_trial(127);
    lemma_prime_8574133();
    lemma_pw_one(2, m51());
    lemma_chain_0();
    lemma_pw_mul(2, 1, 47, m51());
    lemma_chain_1();
    lemma_pw_mul(2, 47, 4763262, m51());
    lemma_chain_2();
    lemma_pw_mul(2, 47, 8574133, m51());
    lemma_chain_3();
    lemma_pw_mul(2, 402984251, 37506, m51());
    lemma_chain_4();
    lemma_pw_mul(2, 402984251, 127, m51());
    lemma_chain_5();
    lemma_pw_mul(2, 51178999877, 798, m51());
    lemma_chain_6();
    lemma_pw_mul(2, 51178999877, 47, m51());
    lemma_chain_7();
    lemma_pw_mul(2, 2405412994219, 42, m51());
    lemma_chain_8();
    lemma_pw_mul(2, 2405412994219, 19, m51());
    lemma_chain_9();
    lemma_pw_mul(2, 45702846890161, 6, m51());
    lemma_chain_10();
    lemma_pw_mul(2, 45702846890161, 7, m51());
    lemma_chain_11();
    lemma_pw_mul(2, 319919928231127, 2, m51());
    lemma_chain_12();
    lemma_pw_mul(2, 319919928231127, 3, m51());
    lemma_chain_13();
    lemma_pw_mul(2, 959759784693381, 2, m51());
    assert forall|q: nat| is_prime(q) && (m51() - 1) % (q as int) == 0 implies pw(
        2,
        ((m51() - 1) / (q as int)) as nat,
        m51(),
    ) != 1 by {
        lemma_prime_factor_split(q, 2, 959759784693381);
        if q != 2 {
            lemma_prime_factor_split(q, 3, 319919928231127);
            if q != 3 {
                lemma_prime_factor_split(q, 7, 45702846890161);
                if q != 7 {
                    lemma_prime_factor_split(q, 19, 2405412994219);
                    if q != 19 {
                        lemma_prime_factor_split(q, 47, 51178999877);
                        if q != 47 {
                            lemma_prime_factor_split(q, 47, 1088914891);
                            if q != 47 {
                                lemma_prime_factor_split(q, 127, 8574133);
                                if q != 127 {
                                    lemma_prime_factor_split(q, 8574133, 1);
                                    if q != 8574133 {
                                        lemma_small_mod(1, q);
                                    }
                                }
                            }
                        }
                    }
                }
            }
        }
    }
    lemma_lucas(2, m51());
    lemma_generator_gives_prime(2, m51());
}

} // verus!
