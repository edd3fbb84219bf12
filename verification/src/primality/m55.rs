//! The certificate that a number of 55 bits is a prime, by Lucas's criterion.
//!
//! The number less one has the prime factors 2, 3, 31, 107, 223, 4153 and 430751. The powers of
//! 10 by that number with one prime factor divided out are raised digit by digit; each step is
//! a product of literals, which the solver computes.

use crate::lucas::{is_generator, lemma_generator_gives_prime, lemma_lucas};
use crate::modexp::{lemma_pw_one, lemma_step16};
use crate::numtheory::{
    is_prime, lemma_prime_by_trial, lemma_prime_factor_split, lemma_pw_mul, lemma_pw_zero, pw,
};
use crate::primality::small::{lemma_prime_2, lemma_prime_430751};
use vstd::arithmetic::div_mod::lemma_small_mod;
use vstd::prelude::*;

verus! {

/// A prime of 55 bits.
#[verifier::inline]
pub open spec fn m55() -> nat {
    31757755568855353
}

/// 10 to the power 4, modulo the prime.
#[verifier::inline]
spec fn v0() -> nat {
    10000
}

/// The chain of squarings and multiplications that gives `v0`.
proof fn lemma_chain_0()
    ensures
        pw(10, 4, m55()) == v0(),
{
    lemma_pw_zero(10, m55());
    lemma_step16(10, m55(), 0x0, 1, 4, v0());
}

/// `v0` to the power 18431620338, modulo the prime.
#[verifier::inline]
spec fn v1() -> nat {
    25185179080663893
}

/// The chain that gives `v1`, up to its base-16 digit 6.
proof fn lemma_chain_1_0()
    ensures
        pw(v0(), 0x44_a9c3, m55()) == 24582205016464257,
{
    lemma_pw_zero(v0(), m55());
    lemma_step16(v0(), m55(), 0x0, 1, 4, 10000000000000000);
    lemma_step16(v0(), m55(), 0x4, 10000000000000000, 4, 20185845655621898);
    lemma_step16(v0(), m55(), 0x44, 20185845655621898, 10, 16029312584995266);
    lemma_step16(v0(), m55(), 0x44a, 16029312584995266, 9, 11582681494516477);
    lemma_step16(v0(), m55(), 0x44a9, 11582681494516477, 12, 29509559180854715);
    lemma_step16(v0(), m55(), 0x4_4a9c, 29509559180854715, 3, 24582205016464257);
}

/// The chain of squarings and multiplications that gives `v1`.
proof fn lemma_chain_1()
    ensures
        pw(v0(), 18431620338, m55()) == v1(),
{
    lemma_chain_1_0();
    lemma_step16(v0(), m55(), 0x44_a9c3, 24582205016464257, 4, 11194716576220192);
    lemma_step16(v0(), m55(), 0x44a_9c34, 11194716576220192, 15, 7133319307371405);
    lemma_step16(v0(), m55(), 0x44a9_c34f, 7133319307371405, 2, v1());
}

/// `v0` to the power 430751, modulo the prime.
#[verifier::inline]
spec fn v2() -> nat {
    19675005983192339
}

/// The chain of squarings and multiplications that gives `v2`.
proof fn lemma_chain_2()
    ensures
        pw(v0(), 430751, m55()) == v2(),
{
    lemma_pw_zero(v0(), m55());
    lemma_step16(v0(), m55(), 0x0, 1, 6, 10520566599400037);
    lemma_step16(v0(), m55(), 0x6, 10520566599400037, 9, 19649648375030157);
    lemma_step16(v0(), m55(), 0x69, 19649648375030157, 2, 28426946498736103);
    lemma_step16(v0(), m55(), 0x692, 28426946498736103, 9, 24956410460233424);
    lemma_step16(v0(), m55(), 0x6929, 24956410460233424, 15, v2());
}

/// `v2` to the power 4438146, modulo the prime.
#[verifier::inline]
spec fn v3() -> nat {
    29494927157741833
}

/// The chain of squarings and multiplications that gives `v3`.
proof fn lemma_chain_3()
    ensures
        pw(v2(), 4438146, m55()) == v3(),
{
    lemma_pw_zero(v2(), m55());
    lemma_step16(v2(), m55(), 0x0, 1, 4, 22251605594089182);
    lemma_step16(v2(), m55(), 0x4, 22251605594089182, 3, 22556205607312730);
    lemma_step16(v2(), m55(), 0x43, 22556205607312730, 11, 25127126686578413);
    lemma_step16(v2(), m55(), 0x43b, 25127126686578413, 8, 6714843259683444);
    lemma_step16(v2(), m55(), 0x43b8, 6714843259683444, 8, 2981394690353151);
    lemma_step16(v2(), m55(), 0x4_3b88, 2981394690353151, 2, v3());
}

/// `v2` to the power 4153, modulo the prime.
#[verifier::inline]
spec fn v4() -> nat {
    15207171396149413
}

/// The chain of squarings and multiplications that gives `v4`.
proof fn lemma_chain_4()
    ensures
        pw(v2(), 4153, m55()) == v4(),
{
    lemma_pw_zero(v2(), m55());
    lemma_step16(v2(), m55(), 0x0, 1, 1, 19675005983192339);
    lemma_step16(v2(), m55(), 0x1, 19675005983192339, 0, 22470751321987266);
    lemma_step16(v2(), m55(), 0x10, 22470751321987266, 3, 413996871637565);
    lemma_step16(v2(), m55(), 0x103, 413996871637565, 9, v4());
}

/// `v4` to the power 19902, modulo the prime.
#[verifier::inline]
spec fn v5() -> nat {
    5141820974828509
}

/// The chain of squarings and multiplications that gives `v5`.
proof fn lemma_chain_5()
    ensures
        pw(v4(), 19902, m55()) == v5(),
{
    lemma_pw_zero(v4(), m55());
    lemma_step16(v4(), m55(), 0x0, 1, 4, 17674647252123534);
    lemma_step16(v4(), m55(), 0x4, 17674647252123534, 13, 26395494805736797);
    lemma_step16(v4(), m55(), 0x4d, 26395494805736797, 11, 26980604610228641);
    lemma_step16(v4(), m55(), 0x4db, 26980604610228641, 14, v5());
}

/// `v4` to the power 223, modulo the prime.
#[verifier::inline]
spec fn v6() -> nat {
    22232028643106014
}

/// The chain of squarings and multiplications that gives `v6`.
proof fn lemma_chain_6()
    ensures
        pw(v4(), 223, m55()) == v6(),
{
    lemma_pw_zero(v4(), m55());
    lemma_step16(v4(), m55(), 0x0, 1, 13, 7821279959839879);
    lemma_step16(v4(), m55(), 0xd, 7821279959839879, 15, v6());
}

/// `v6` to the power 186, modulo the prime.
#[verifier::inline]
spec fn v7() -> nat {
    30702321360579269
}

/// The chain of squarings and multiplications that gives `v7`.
proof fn lemma_chain_7()
    ensures
        pw(v6(), 186, m55()) == v7(),
{
    lemma_pw_zero(v6(), m55());
    lemma_step16(v6(), m55(), 0x0, 1, 11, 3656098945310022);
    lemma_step16(v6(), m55(), 0xb, 3656098945310022, 10, v7());
}

/// `v6` to the power 107, modulo the prime.
#[verifier::inline]
spec fn v8() -> nat {
    4850610264287996
}

/// The chain of squarings and multiplications that gives `v8`.
proof fn lemma_chain_8()
    ensures
        pw(v6(), 107, m55()) == v8(),
{
    lemma_pw_zero(v6(), m55());
    lemma_step16(v6(), m55(), 0x0, 1, 6, 8759172028773812);
    lemma_step16(v6(), m55(), 0x6, 8759172028773812, 11, v8());
}

/// `v8` to the power 6, modulo the prime.
#[verifier::inline]
spec fn v9() -> nat {
    24776906756080210
}

/// The chain of squarings and multiplications that gives `v9`.
proof fn lemma_chain_9()
    ensures
        pw(v8(), 6, m55()) == v9(),
{
    lemma_pw_zero(v8(), m55());
    lemma_step16(v8(), m55(), 0x0, 1, 6, v9());
}

/// `v8` to the power 31, modulo the prime.
#[verifier::inline]
spec fn v10() -> nat {
    22133410514677785
}

/// The chain of squarings and multiplications that gives `v10`.
proof fn lemma_chain_10()
    ensures
        pw(v8(), 31, m55()) == v10(),
{
    lemma_pw_zero(v8(), m55());
    lemma_step16(v8(), m55(), 0x0, 1, 1, 4850610264287996);
    lemma_step16(v8(), m55(), 0x1, 4850610264287996, 15, v10());
}

/// `v10` to the power 2, modulo the prime.
#[verifier::inline]
spec fn v11() -> nat {
    22133410514677784
}

/// The chain of squarings and multiplications that gives `v11`.
proof fn lemma_chain_11()
    ensures
        pw(v10(), 2, m55()) == v11(),
{
    lemma_pw_zero(v10(), m55());
    lemma_step16(v10(), m55(), 0x0, 1, 2, v11());
}

/// `v10` to the power 3, modulo the prime.
#[verifier::inline]
spec fn v12() -> nat {
    31757755568855352
}

/// The chain of squarings and multiplications that gives `v12`.
proof fn lemma_chain_12()
    ensures
        pw(v10(), 3, m55()) == v12(),
{
    lemma_pw_zero(v10(), m55());
    lemma_step16(v10(), m55(), 0x0, 1, 3, v12());
}

/// `v12` to the power 2, modulo the prime.
#[verifier::inline]
spec fn v13() -> nat {
    1
}

/// The chain of squarings and multiplications that gives `v13`.
proof fn lemma_chain_13()
    ensures
        pw(v12(), 2, m55()) == v13(),
{
    lemma_pw_zero(v12(), m55());
    lemma_step16(v12(), m55(), 0x0, 1, 2, v13());
}

/// The prime of 55 bits is a prime: 10 is a generator modulo it.
pub proof fn lemma_prime_m55()
    ensures
        is_prime(m55()),
        is_generator(10, m55()),
{
    lemma_prime_2();
    lemma_prime_by_trial(3);
    lemma_prime_by_trial(31);
    lemma_prime_by_trial(107);
    lemma_prime_by_trial(223);
    lemma_prime_by_trial(4153);
    lemma_prime_430751();
    lemma_pw_one(10, m55());
    lemma_chain_0();
    lemma_pw_mul(10, 1, 4, m55());
    lemma_chain_1();
    lemma_pw_mul(10, 4, 18431620338, m55());
    lemma_chain_2();
    lemma_pw_mul(10, 4, 430751, m55());
    lemma_chain_3();
    lemma_pw_mul(10, 1723004, 4438146, m55());
    lemma_chain_4();
    lemma_pw_mul(10, 1723004, 4153, m55());
    lemma_chain_5();
    lemma_pw_mul(10, 7155635612, 19902, m55());
    lemma_chain_6();
    lemma_pw_mul(10, 7155635612, 223, m55());
    lemma_chain_7();
    lemma_pw_mul(10, 1595706741476, 186, m55());
    lemma_chain_8();
    lemma_pw_mul(10, 1595706741476, 107, m55());
    lemma_chain_9();
    lemma_pw_mul(10, 170740621337932, 6, m55());
    lemma_chain_10();
    lemma_pw_mul(10, 170740621337932, 31, m55());
    lemma_chain_11();
    lemma_pw_mul(10, 5292959261475892, 2, m55());
    lemma_chain_12();
    lemma_pw_mul(10, 5292959261475892, 3, m55());
    lemma_chain_13();
    lemma_pw_mul(10, 15878877784427676, 2, m55());
    assert forall|q: nat| is_prime(q) && (m55() - 1) % (q as int) == 0 implies pw(
        10,
        ((m55() - 1) / (q as int)) as nat,
        m55(),
    ) != 1 by {
        lemma_prime_factor_split(q, 2, 15878877784427676);
        if q != 2 {
            lemma_prime_factor_split(q, 2, 7939438892213838);
            if q != 2 {
                lemma_prime_factor_split(q, 2, 3969719446106919);
                if q != 2 {
                    lemma_prime_factor_split(q, 3, 1323239815368973);
                    if q != 3 {
                        lemma_prime_factor_split(q, 31, 42685155334483);
                        if q != 31 {
                            lemma_prime_factor_split(q, 107, 398926685369);
                            if q != 107 {
                                lemma_prime_factor_split(q, 223, 1788908903);
                                if q != 223 {
                                    lemma_prime_factor_split(q, 4153, 430751);
                                    if q != 4153 {
                                        lemma_prime_factor_split(q, 430751, 1);
                                        if q != 430751 {
                                            lemma_small_mod(1, q);
                                        }
                                    }
                                }
                            }
                        }
                    }
                }
            }
        }
    }
    lemma_lucas(10, m55());
    lemma_generator_gives_prime(10, m55());
}

} // verus!
