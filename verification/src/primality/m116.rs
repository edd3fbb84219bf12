//! The certificate that a number of 116 bits is a prime, by Lucas's criterion.
//!
//! The number less one has the prime factors 2, 3, 5, 75707, `m37` and `m51`. The powers of 7
//! by that number with one prime factor divided out are raised digit by digit; each step is a
//! product of literals, which the solver computes.

use crate::lucas::{is_generator, lemma_generator_gives_prime, lemma_lucas};
use crate::modexp::{lemma_pw_one, lemma_step16};
use crate::numtheory::{
    is_prime, lemma_prime_by_trial, lemma_prime_factor_split, lemma_pw_mul, lemma_pw_zero, pw,
};
use crate::primality::m51::{lemma_prime_m51, m51};
use crate::primality::m37::{lemma_prime_m37, m37};
use crate::primality::small::{lemma_prime_2, lemma_prime_75707};
use vstd::arithmetic::div_mod::lemma_small_mod;
use vstd::prelude::*;

verus! {

/// A prime of 116 bits.
#[verifier::inline]
pub open spec fn m116() -> nat {
    75445702479781427272750846543864801nat
}

/// 7 to the power 240, modulo the prime.
#[verifier::inline]
spec fn v0() -> nat {
    47392767501781978365626043077108652nat
}

/// The chain of squarings and multiplications that gives `v0`.
proof fn lemma_chain_0()
    ensures
        pw(7, 240, m116()) == v0(),
{
    lemma_pw_zero(7, m116());
    lemma_step16(7, m116(), 0x0, 1, 15, 4747561509943);
    lemma_step16(7, m116(), 0xf, 4747561509943, 0, v0());
}

/// `v0` to the power 163768631838530790, modulo the prime.
#[verifier::inline]
spec fn v1() -> nat {
    33763476511538335360127990623883028nat
}

/// The residue after 1 digits of the chain that gives `v1`.
#[verifier::inline]
spec fn c1_0() -> nat {
    48905291722767446826362267531891648nat
}

/// The residue after 2 digits of the chain that gives `v1`.
#[verifier::inline]
spec fn c1_1() -> nat {
    34560259192123418840423983300808802nat
}

/// The residue after 3 digits of the chain that gives `v1`.
#[verifier::inline]
spec fn c1_2() -> nat {
    8563807084596136648901384611410035nat
}

/// The residue after 4 digits of the chain that gives `v1`.
#[verifier::inline]
spec fn c1_3() -> nat {
    42676279476569389101904634546011164nat
}

/// The residue after 5 digits of the chain that gives `v1`.
#[verifier::inline]
spec fn c1_4() -> nat {
    25181763413576303709395845774758035nat
}

/// The residue after 6 digits of the chain that gives `v1`.
#[verifier::inline]
spec fn c1_5() -> nat {
    50006409072837832987491756400948777nat
}

/// The residue after 7 digits of the chain that gives `v1`.
#[verifier::inline]
spec fn c1_6() -> nat {
    62833440585373499726926238776134185nat
}

/// The residue after 8 digits of the chain that gives `v1`.
#[verifier::inline]
spec fn c1_7() -> nat {
    58964503970193689336931363085051021nat
}

/// The residue after 9 digits of the chain that gives `v1`.
#[verifier::inline]
spec fn c1_8() -> nat {
    18783022045645561156416488657358009nat
}

/// The residue after 10 digits of the chain that gives `v1`.
#[verifier::inline]
spec fn c1_9() -> nat {
    12833443441963780883589246269807429nat
}

/// The residue after 11 digits of the chain that gives `v1`.
#[verifier::inline]
spec fn c1_10() -> nat {
    18721808342937804225617756705264054nat
}

/// The residue after 12 digits of the chain that gives `v1`.
#[verifier::inline]
spec fn c1_11() -> nat {
    2229806456985764786445767754935109nat
}

/// The residue after 13 digits of the chain that gives `v1`.
#[verifier::inline]
spec fn c1_12() -> nat {
    23039800288595437049973410678620218nat
}

/// The residue after 14 digits of the chain that gives `v1`.
#[verifier::inline]
spec fn c1_13() -> nat {
    65496086915815898786958821521182263nat
}

/// The chain that gives `v1`, up to its base-16 digit 6.
proof fn lemma_chain_1_0()
    ensures
        pw(v0(), 0x24_5d2b, m116()) == c1_5(),
{
    lemma_pw_zero(v0(), m116());
    lemma_step16(v0(), m116(), 0x0, 1, 2, c1_0());
    lemma_step16(v0(), m116(), 0x2, c1_0(), 4, c1_1());
    lemma_step16(v0(), m116(), 0x24, c1_1(), 5, c1_2());
    lemma_step16(v0(), m116(), 0x245, c1_2(), 13, c1_3());
    lemma_step16(v0(), m116(), 0x245d, c1_3(), 2, c1_4());
    lemma_step16(v0(), m116(), 0x2_45d2, c1_4(), 11, c1_5());
}

/// The chain that gives `v1`, up to its base-16 digit 12.
proof fn lemma_chain_1_1()
    ensures
        pw(v0(), 0x245d_2b3f_6165, m116()) == c1_11(),
{
    lemma_chain_1_0();
    lemma_step16(v0(), m116(), 0x24_5d2b, c1_5(), 3, c1_6());
    lemma_step16(v0(), m116(), 0x245_d2b3, c1_6(), 15, c1_7());
    lemma_step16(v0(), m116(), 0x245d_2b3f, c1_7(), 6, c1_8());
    lemma_step16(v0(), m116(), 0x2_45d2_b3f6, c1_8(), 1, c1_9());
    lemma_step16(v0(), m116(), 0x24_5d2b_3f61, c1_9(), 6, c1_10());
    lemma_step16(v0(), m116(), 0x245_d2b3_f616, c1_10(), 5, c1_11());
}

/// The chain of squarings and multiplications that gives `v1`.
proof fn lemma_chain_1()
    ensures
        pw(v0(), 163768631838530790, m116()) == v1(),
{
    lemma_chain_1_1();
    lemma_step16(v0(), m116(), 0x245d_2b3f_6165, c1_11(), 12, c1_12());
    lemma_step16(v0(), m116(), 0x2_45d2_b3f6_165c, c1_12(), 14, c1_13());
    lemma_step16(v0(), m116(), 0x24_5d2b_3f61_65ce, c1_13(), 6, v1());
}

/// `v0` to the power 1919519569386763, modulo the prime.
#[verifier::inline]
spec fn v2() -> nat {
    6203484281045794791426513428481282nat
}

/// The residue after 1 digits of the chain that gives `v2`.
#[verifier::inline]
spec fn c2_0() -> nat {
    29625304095628239273225990966497673nat
}

/// The residue after 2 digits of the chain that gives `v2`.
#[verifier::inline]
spec fn c2_1() -> nat {
    46870954331967388437157197730917247nat
}

/// The residue after 3 digits of the chain that gives `v2`.
#[verifier::inline]
spec fn c2_2() -> nat {
    23227996099576274037327711345115904nat
}

/// The residue after 4 digits of the chain that gives `v2`.
#[verifier::inline]
spec fn c2_3() -> nat {
    5371266958565552507075540712775164nat
}

/// The residue after 5 digits of the chain that gives `v2`.
#[verifier::inline]
spec fn c2_4() -> nat {
    66955610288816431965794471142386238nat
}

/// The residue after 6 digits of the chain that gives `v2`.
#[verifier::inline]
spec fn c2_5() -> nat {
    39719101563670562235184527548448568nat
}

/// The residue after 7 digits of the chain that gives `v2`.
#[verifier::inline]
spec fn c2_6() -> nat {
    20511393655171012171563799935771862nat
}

/// The residue after 8 digits of the chain that gives `v2`.
#[verifier::inline]
spec fn c2_7() -> nat {
    45630819228459562678043042757809674nat
}

/// The residue after 9 digits of the chain that gives `v2`.
#[verifier::inline]
spec fn c2_8() -> nat {
    27645170580657669734817963745824295nat
}

/// The residue after 10 digits of the chain that gives `v2`.
#[verifier::inline]
spec fn c2_9() -> nat {
    60245669988572182618579064348414222nat
}

/// The residue after 11 digits of the chain that gives `v2`.
#[verifier::inline]
spec fn c2_10() -> nat {
    1708004850726863083944453958430251nat
}

/// The residue after 12 digits of the chain that gives `v2`.
#[verifier::inline]
spec fn c2_11() -> nat {
    36118679836425002069834036427961049nat
}

/// The chain that gives `v2`, up to its base-16 digit 6.
proof fn lemma_chain_2_0()
    ensures
        pw(v0(), 0x6d_1caf, m116()) == c2_5(),
{
    lemma_pw_zero(v0(), m116());
    lemma_step16(v0(), m116(), 0x0, 1, 6, c2_0());
    lemma_step16(v0(), m116(), 0x6, c2_0(), 13, c2_1());
    lemma_step16(v0(), m116(), 0x6d, c2_1(), 1, c2_2());
    lemma_step16(v0(), m116(), 0x6d1, c2_2(), 12, c2_3());
    lemma_step16(v0(), m116(), 0x6d1c, c2_3(), 10, c2_4());
    lemma_step16(v0(), m116(), 0x6_d1ca, c2_4(), 15, c2_5());
}

/// The chain that gives `v2`, up to its base-16 digit 12.
proof fn lemma_chain_2_1()
    ensures
        pw(v0(), 0x6d1c_afa1_29d0, m116()) == c2_11(),
{
    lemma_chain_2_0();
    lemma_step16(v0(), m116(), 0x6d_1caf, c2_5(), 10, c2_6());
    lemma_step16(v0(), m116(), 0x6d1_cafa, c2_6(), 1, c2_7());
    lemma_step16(v0(), m116(), 0x6d1c_afa1, c2_7(), 2, c2_8());
    lemma_step16(v0(), m116(), 0x6_d1ca_fa12, c2_8(), 9, c2_9());
    lemma_step16(v0(), m116(), 0x6d_1caf_a129, c2_9(), 13, c2_10());
    lemma_step16(v0(), m116(), 0x6d1_cafa_129d, c2_10(), 0, c2_11());
}

/// The chain of squarings and multiplications that gives `v2`.
proof fn lemma_chain_2()
    ensures
        pw(v0(), 1919519569386763, m116()) == v2(),
{
    lemma_chain_2_1();
    lemma_step16(v0(), m116(), 0x6d1c_afa1_29d0, c2_11(), 11, v2());
}

/// `v2` to the power 2271210, modulo the prime.
#[verifier::inline]
spec fn v3() -> nat {
    72344277920069036431504068385047591nat
}

/// The residue after 1 digits of the chain that gives `v3`.
#[verifier::inline]
spec fn c3_0() -> nat {
    57295868487964384180533810909483751nat
}

/// The residue after 2 digits of the chain that gives `v3`.
#[verifier::inline]
spec fn c3_1() -> nat {
    62636863482056973608332598191657747nat
}

/// The residue after 3 digits of the chain that gives `v3`.
#[verifier::inline]
spec fn c3_2() -> nat {
    31123393292783945194876379250303423nat
}

/// The residue after 4 digits of the chain that gives `v3`.
#[verifier::inline]
spec fn c3_3() -> nat {
    64522357033616623519904903535087720nat
}

/// The residue after 5 digits of the chain that gives `v3`.
#[verifier::inline]
spec fn c3_4() -> nat {
    28061259940222861762258605764632579nat
}

/// The chain of squarings and multiplications that gives `v3`.
proof fn lemma_chain_3()
    ensures
        pw(v2(), 2271210, m116()) == v3(),
{
    lemma_pw_zero(v2(), m116());
    lemma_step16(v2(), m116(), 0x0, 1, 2, c3_0());
    lemma_step16(v2(), m116(), 0x2, c3_0(), 2, c3_1());
    lemma_step16(v2(), m116(), 0x22, c3_1(), 10, c3_2());
    lemma_step16(v2(), m116(), 0x22a, c3_2(), 7, c3_3());
    lemma_step16(v2(), m116(), 0x22a7, c3_3(), 14, c3_4());
    lemma_step16(v2(), m116(), 0x2_2a7e, c3_4(), 10, v3());
}

/// `v2` to the power 72106336199, modulo the prime.
#[verifier::inline]
spec fn v4() -> nat {
    12891718681355307350487009616302393nat
}

/// The residue after 1 digits of the chain that gives `v4`.
#[verifier::inline]
spec fn c4_0() -> nat {
    6203484281045794791426513428481282nat
}

/// The residue after 2 digits of the chain that gives `v4`.
#[verifier::inline]
spec fn c4_1() -> nat {
    28046635923783358347414839327085576nat
}

/// The residue after 3 digits of the chain that gives `v4`.
#[verifier::inline]
spec fn c4_2() -> nat {
    47835747564882823528098270204115109nat
}

/// The residue after 4 digits of the chain that gives `v4`.
#[verifier::inline]
spec fn c4_3() -> nat {
    58241993491393471868450990652613929nat
}

/// The residue after 5 digits of the chain that gives `v4`.
#[verifier::inline]
spec fn c4_4() -> nat {
    19880130067062107363764560814558822nat
}

/// The residue after 6 digits of the chain that gives `v4`.
#[verifier::inline]
spec fn c4_5() -> nat {
    29183646525335162395058030556730175nat
}

/// The residue after 7 digits of the chain that gives `v4`.
#[verifier::inline]
spec fn c4_6() -> nat {
    27405857015922651327158065098991103nat
}

/// The residue after 8 digits of the chain that gives `v4`.
#[verifier::inline]
spec fn c4_7() -> nat {
    63565246731807858092717374287847308nat
}

/// The residue after 9 digits of the chain that gives `v4`.
#[verifier::inline]
spec fn c4_8() -> nat {
    12067836535935782516990240682654502nat
}

/// The chain that gives `v4`, up to its base-16 digit 6.
proof fn lemma_chain_4_0()
    ensures
        pw(v2(), 0x10_c9df, m116()) == c4_5(),
{
    lemma_pw_zero(v2(), m116());
    lemma_step16(v2(), m116(), 0x0, 1, 1, c4_0());
    lemma_step16(v2(), m116(), 0x1, c4_0(), 0, c4_1());
    lemma_step16(v2(), m116(), 0x10, c4_1(), 12, c4_2());
    lemma_step16(v2(), m116(), 0x10c, c4_2(), 9, c4_3());
    lemma_step16(v2(), m116(), 0x10c9, c4_3(), 13, c4_4());
    lemma_step16(v2(), m116(), 0x1_0c9d, c4_4(), 15, c4_5());
}

/// The chain of squarings and multiplications that gives `v4`.
proof fn lemma_chain_4()
    ensures
        pw(v2(), 72106336199, m116()) == v4(),
{
    lemma_chain_4_0();
    lemma_step16(v2(), m116(), 0x10_c9df, c4_5(), 5, c4_6());
    lemma_step16(v2(), m116(), 0x10c_9df5, c4_6(), 15, c4_7());
    lemma_step16(v2(), m116(), 0x10c9_df5f, c4_7(), 12, c4_8());
    lemma_step16(v2(), m116(), 0x1_0c9d_f5fc, c4_8(), 7, v4());
}

/// `v4` to the power 30, modulo the prime.
#[verifier::inline]
spec fn v5() -> nat {
    57103426308028043857659793617446015nat
}

/// The residue after 1 digits of the chain that gives `v5`.
#[verifier::inline]
spec fn c5_0() -> nat {
    12891718681355307350487009616302393nat
}

/// The chain of squarings and multiplications that gives `v5`.
proof fn lemma_chain_5()
    ensures
        pw(v4(), 30, m116()) == v5(),
{
    lemma_pw_zero(v4(), m116());
    lemma_step16(v4(), m116(), 0x0, 1, 1, c5_0());
    lemma_step16(v4(), m116(), 0x1, c5_0(), 14, v5());
}

/// `v4` to the power 75707, modulo the prime.
#[verifier::inline]
spec fn v6() -> nat {
    63040235804813629361731944740279611nat
}

/// The residue after 1 digits of the chain that gives `v6`.
#[verifier::inline]
spec fn c6_0() -> nat {
    12891718681355307350487009616302393nat
}

/// The residue after 2 digits of the chain that gives `v6`.
#[verifier::inline]
spec fn c6_1() -> nat {
    18627658564655394985042128927145458nat
}

/// The residue after 3 digits of the chain that gives `v6`.
#[verifier::inline]
spec fn c6_2() -> nat {
    46859678337784568175339249115615231nat
}

/// The residue after 4 digits of the chain that gives `v6`.
#[verifier::inline]
spec fn c6_3() -> nat {
    17345850445035832478671388029047503nat
}

/// The chain of squarings and multiplications that gives `v6`.
proof fn lemma_chain_6()
    ensures
        pw(v4(), 75707, m116()) == v6(),
{
    lemma_pw_zero(v4(), m116());
    lemma_step16(v4(), m116(), 0x0, 1, 1, c6_0());
    lemma_step16(v4(), m116(), 0x1, c6_0(), 2, c6_1());
    lemma_step16(v4(), m116(), 0x12, c6_1(), 7, c6_2());
    lemma_step16(v4(), m116(), 0x127, c6_2(), 11, c6_3());
    lemma_step16(v4(), m116(), 0x127b, c6_3(), 11, v6());
}

/// `v6` to the power 6, modulo the prime.
#[verifier::inline]
spec fn v7() -> nat {
    52755092631156469601217826477970212nat
}

/// The chain of squarings and multiplications that gives `v7`.
proof fn lemma_chain_7()
    ensures
        pw(v6(), 6, m116()) == v7(),
{
    lemma_pw_zero(v6(), m116());
    lemma_step16(v6(), m116(), 0x0, 1, 6, v7());
}

/// `v6` to the power 5, modulo the prime.
#[verifier::inline]
spec fn v8() -> nat {
    17027744575660264744512945715121885nat
}

/// The chain of squarings and multiplications that gives `v8`.
proof fn lemma_chain_8()
    ensures
        pw(v6(), 5, m116()) == v8(),
{
    lemma_pw_zero(v6(), m116());
    lemma_step16(v6(), m116(), 0x0, 1, 5, v8());
}

/// `v8` to the power 2, modulo the prime.
#[verifier::inline]
spec fn v9() -> nat {
    17027744575660264744512945715121884nat
}

/// The chain of squarings and multiplications that gives `v9`.
proof fn lemma_chain_9()
    ensures
        pw(v8(), 2, m116()) == v9(),
{
    lemma_pw_zero(v8(), m116());
    lemma_step16(v8(), m116(), 0x0, 1, 2, v9());
}

/// `v8` to the power 3, modulo the prime.
#[verifier::inline]
spec fn v10() -> nat {
    75445702479781427272750846543864800nat
}

/// The chain of squarings and multiplications that gives `v10`.
proof fn lemma_chain_10()
    ensures
        pw(v8(), 3, m116()) == v10(),
{
    lemma_pw_zero(v8(), m116());
    lemma_step16(v8(), m116(), 0x0, 1, 3, v10());
}

/// `v10` to the power 2, modulo the prime.
#[verifier::inline]
spec fn v11() -> nat {
    1
}

/// The chain of squarings and multiplications that gives `v11`.
proof fn lemma_chain_11()
    ensures
        pw(v10(), 2, m116()) == v11(),
{
    lemma_pw_zero(v10(), m116());
    lemma_step16(v10(), m116(), 0x0, 1, 2, v11());
}

/// The prime of 116 bits is a prime: 7 is a generator modulo it.
pub proof fn lemma_prime_m116()
    ensures
        is_prime(m116()),
        is_generator(7, m116()),
{
    lemma_prime_2();
    lemma_prime_by_trial(3);
    lemma_prime_by_trial(5);
    lemma_prime_75707();
    lemma_prime_m37();
    lemma_prime_m51();
    lemma_pw_one(7, m116());
    lemma_chain_0();
    lemma_pw_mul(7, 1, 240, m116());
    lemma_chain_1();
    lemma_pw_mul(7, 240, 163768631838530790, m116());
    lemma_chain_2();
    lemma_pw_mul(7, 240, 1919519569386763, m116());
    lemma_chain_3();
    lemma_pw_mul(7, 460684696652823120, 2271210, m116());
    lemma_chain_4();
    lemma_pw_mul(7, 460684696652823120, 72106336199, m116());
    lemma_chain_5();
    lemma_pw_mul(7, 33218285618582793873200120880nat, 30, m116());
    lemma_chain_6();
    lemma_pw_mul(7, 33218285618582793873200120880nat, 75707, m116());
    lemma_chain_7();
    lemma_pw_mul(7, 2514856749326047575758361551462160nat, 6, m116());
    lemma_chain_8();
    lemma_pw_mul(7, 2514856749326047575758361551462160nat, 5, m116());
    lemma_chain_9();
    lemma_pw_mul(7, 12574283746630237878791807757310800nat, 2, m116());
    lemma_chain_10();
    lemma_pw_mul(7, 12574283746630237878791807757310800nat, 3, m116());
    lemma_chain_11();
    lemma_pw_mul(7, 37722851239890713636375423271932400nat, 2, m116());
    assert forall|q: nat| is_prime(q) && (m116() - 1) % (q as int) == 0 implies pw(
        7,
        ((m116() - 1) / (q as int)) as nat,
        m116(),
    ) != 1 by {
        lemma_prime_factor_split(q, 2, 37722851239890713636375423271932400nat);
        if q != 2 {
            lemma_prime_factor_split(q, 2, 18861425619945356818187711635966200nat);
            if q != 2 {
                lemma_prime_factor_split(q, 2, 9430712809972678409093855817983100nat);
                if q != 2 {
                    lemma_prime_factor_split(q, 2, 4715356404986339204546927908991550nat);
                    if q != 2 {
                        lemma_prime_factor_split(q, 2, 2357678202493169602273463954495775nat);
                        if q != 2 {
                            lemma_prime_factor_split(q, 3, 785892734164389867424487984831925nat);
                            if q != 3 {
                                lemma_prime_factor_split(q, 3, 261964244721463289141495994943975nat);
                                if q != 3 {
                                    lemma_prime_factor_split(q, 5, 52392848944292657828299198988795nat);
                                    if q != 5 {
                                        lemma_prime_factor_split(q, 5, 10478569788858531565659839797759nat);
                                        if q != 5 {
                                            lemma_prime_factor_split(q, 75707, 138409523410761641138333837nat);
                                            if q != 75707 {
                                                lemma_prime_factor_split(q, m37(), 1919519569386763);
                                                if q != m37() {
                                                    lemma_prime_factor_split(q, m51(), 1);
                                                    if q != m51() {
                                                        lemma_small_mod(1, q);
                                                    }
                                                }
                                            }
                                        }
                                    }
                                }
                            }
                        }
                    }
                }
            }
        }
    }
    lemma_lucas(7, m116());
    lemma_generator_gives_prime(7, m116());
}

} // verus!
