//! The certificates of the primes between 2^16 and 2^32 that the larger certificates rest on.

use crate::lucas::{lemma_generator_gives_prime, lemma_lucas};
use crate::modexp::{lemma_pw_one, lemma_step16};
use crate::numtheory::{
    is_prime, lemma_prime_by_trial, lemma_prime_factor_split, lemma_pw_mul, lemma_pw_zero, pw,
};
use vstd::arithmetic::div_mod::lemma_small_mod;
use vstd::prelude::*;

verus! {

/// Two is a prime.
pub proof fn lemma_prime_2()
    ensures
        is_prime(2),
{
}

/// 75707 is a prime: 2 is a generator modulo it.
pub proof fn lemma_prime_75707()
    ensures
        is_prime(75707),
{
    lemma_prime_2();
    lemma_prime_by_trial(37853);
    lemma_pw_one(2, 75707);
    lemma_pw_zero(2, 75707);
    lemma_step16(2, 75707, 0x0, 1, 2, 4);
    lemma_pw_mul(2, 1, 2, 75707);
    lemma_pw_zero(2, 75707);
    lemma_step16(2, 75707, 0x0, 1, 9, 512);
    lemma_step16(2, 75707, 0x9, 512, 3, 65384);
    lemma_step16(2, 75707, 0x93, 65384, 13, 53971);
    lemma_step16(2, 75707, 0x93d, 53971, 13, 75706);
    lemma_pw_mul(2, 1, 37853, 75707);
    lemma_pw_zero(75706, 75707);
    lemma_step16(75706, 75707, 0x0, 1, 2, 1);
    lemma_pw_mul(2, 37853, 2, 75707);
    assert forall|q: nat| is_prime(q) && (75707 - 1) % (q as int) == 0 implies pw(
        2,
        ((75707 - 1) / (q as int)) as nat,
        75707,
    ) != 1 by {
        lemma_prime_factor_split(q, 2, 37853);
        if q != 2 {
            lemma_prime_factor_split(q, 37853, 1);
            if q != 37853 {
                lemma_small_mod(1, q);
            }
        }
    }
    lemma_lucas(2, 75707);
    lemma_generator_gives_prime(2, 75707);
}

/// 132049 is a prime: 26 is a generator modulo it.
pub proof fn lemma_prime_132049()
    ensures
        is_prime(132049),
{
    lemma_prime_2();
    lemma_prime_by_trial(3);
    lemma_prime_by_trial(7);
    lemma_prime_by_trial(131);
    lemma_pw_one(26, 132049);
    lemma_pw_zero(26, 132049);
    lemma_step16(26, 132049, 0x0, 1, 1, 26);
    lemma_step16(26, 132049, 0x1, 26, 8, 106381);
    lemma_pw_mul(26, 1, 24, 132049);
    lemma_pw_zero(106381, 132049);
    lemma_step16(106381, 132049, 0x0, 1, 2, 53763);
    lemma_step16(106381, 132049, 0x2, 53763, 10, 94691);
    lemma_pw_mul(26, 24, 42, 132049);
    lemma_pw_zero(106381, 132049);
    lemma_step16(106381, 132049, 0x0, 1, 8, 51544);
    lemma_step16(106381, 132049, 0x8, 51544, 3, 78449);
    lemma_pw_mul(26, 24, 131, 132049);
    lemma_pw_zero(78449, 132049);
    lemma_step16(78449, 132049, 0x0, 1, 6, 31672);
    lemma_pw_mul(26, 3144, 6, 132049);
    lemma_pw_zero(78449, 132049);
    lemma_step16(78449, 132049, 0x0, 1, 7, 2744);
    lemma_pw_mul(26, 3144, 7, 132049);
    lemma_pw_zero(2744, 132049);
    lemma_step16(2744, 132049, 0x0, 1, 2, 2743);
    lemma_pw_mul(26, 22008, 2, 132049);
    lemma_pw_zero(2744, 132049);
    lemma_step16(2744, 132049, 0x0, 1, 3, 132048);
    lemma_pw_mul(26, 22008, 3, 132049);
    lemma_pw_zero(132048, 132049);
    lemma_step16(132048, 132049, 0x0, 1, 2, 1);
    lemma_pw_mul(26, 66024, 2, 132049);
    assert forall|q: nat| is_prime(q) && (132049 - 1) % (q as int) == 0 implies pw(
        26,
        ((132049 - 1) / (q as int)) as nat,
        132049,
    ) != 1 by {
        lemma_prime_factor_split(q, 2, 66024);
        if q != 2 {
            lemma_prime_factor_split(q, 2, 33012);
            if q != 2 {
                lemma_prime_factor_split(q, 2, 16506);
                if q != 2 {
                    lemma_prime_factor_split(q, 2, 8253);
                    if q != 2 {
                        lemma_prime_factor_split(q, 3, 2751);
                        if q != 3 {
                            lemma_prime_factor_split(q, 3, 917);
                            if q != 3 {
                                lemma_prime_factor_split(q, 7, 131);
                                if q != 7 {
                                    lemma_prime_factor_split(q, 131, 1);
                                    if q != 131 {
                                        lemma_small_mod(1, q);
                                    }
                                }
                            }
                        }
                    }
                }
            }
        }
    }
    lemma_lucas(26, 132049);
    lemma_generator_gives_prime(26, 132049);
}

/// 430751 is a prime: 17 is a generator modulo it.
pub proof fn lemma_prime_430751()
    ensures
        is_prime(430751),
{
    lemma_prime_2();
    lemma_prime_by_trial(5);
    lemma_prime_by_trial(1723);
    lemma_pw_one(17, 430751);
    lemma_pw_zero(17, 430751);
    lemma_step16(17, 430751, 0x0, 1, 1, 17);
    lemma_step16(17, 430751, 0x1, 17, 9, 310352);
    lemma_pw_mul(17, 1, 25, 430751);
    lemma_pw_zero(310352, 430751);
    lemma_step16(310352, 430751, 0x0, 1, 10, 109979);
    lemma_pw_mul(17, 25, 10, 430751);
    lemma_pw_zero(310352, 430751);
    lemma_step16(310352, 430751, 0x0, 1, 6, 7322);
    lemma_step16(310352, 430751, 0x6, 7322, 11, 101419);
    lemma_step16(310352, 430751, 0x6b, 101419, 11, 28491);
    lemma_pw_mul(17, 25, 1723, 430751);
    lemma_pw_zero(28491, 430751);
    lemma_step16(28491, 430751, 0x0, 1, 2, 202197);
    lemma_pw_mul(17, 43075, 2, 430751);
    lemma_pw_zero(28491, 430751);
    lemma_step16(28491, 430751, 0x0, 1, 5, 430750);
    lemma_pw_mul(17, 43075, 5, 430751);
    lemma_pw_zero(430750, 430751);
    lemma_step16(430750, 430751, 0x0, 1, 2, 1);
    lemma_pw_mul(17, 215375, 2, 430751);
    assert forall|q: nat| is_prime(q) && (430751 - 1) % (q as int) == 0 implies pw(
        17,
        ((430751 - 1) / (q as int)) as nat,
        430751,
    ) != 1 by {
        lemma_prime_factor_split(q, 2, 215375);
        if q != 2 {
            lemma_prime_factor_split(q, 5, 43075);
            if q != 5 {
                lemma_prime_factor_split(q, 5, 8615);
                if q != 5 {
                    lemma_prime_factor_split(q, 5, 1723);
                    if q != 5 {
                        lemma_prime_factor_split(q, 1723, 1);
                        if q != 1723 {
                            lemma_small_mod(1, q);
                        }
                    }
                }
            }
        }
    }
    lemma_lucas(17, 430751);
    lemma_generator_gives_prime(17, 430751);
}

/// 569003 is a prime: 2 is a generator modulo it.
pub proof fn lemma_prime_569003()
    ensures
        is_prime(569003),
{
    lemma_prime_2();
    lemma_prime_by_trial(7);
    lemma_prime_by_trial(97);
    lemma_prime_by_trial(419);
    lemma_pw_one(2, 569003);
    lemma_pw_zero(2, 569003);
    lemma_step16(2, 569003, 0x0, 1, 5, 32);
    lemma_step16(2, 569003, 0x5, 32, 4, 221340);
    lemma_step16(2, 569003, 0x54, 221340, 14, 236160);
    lemma_pw_mul(2, 1, 1358, 569003);
    lemma_pw_zero(2, 569003);
    lemma_step16(2, 569003, 0x0, 1, 1, 2);
    lemma_step16(2, 569003, 0x1, 2, 10, 535513);
    lemma_step16(2, 569003, 0x1a, 535513, 3, 339972);
    lemma_pw_mul(2, 1, 419, 569003);
    lemma_pw_zero(339972, 569003);
    lemma_step16(339972, 569003, 0x0, 1, 14, 439588);
    lemma_pw_mul(2, 419, 14, 569003);
    lemma_pw_zero(339972, 569003);
    lemma_step16(339972, 569003, 0x0, 1, 6, 25070);
    lemma_step16(339972, 569003, 0x6, 25070, 1, 221745);
    lemma_pw_mul(2, 419, 97, 569003);
    lemma_pw_zero(221745, 569003);
    lemma_step16(221745, 569003, 0x0, 1, 2, 450780);
    lemma_pw_mul(2, 40643, 2, 569003);
    lemma_pw_zero(221745, 569003);
    lemma_step16(221745, 569003, 0x0, 1, 7, 569002);
    lemma_pw_mul(2, 40643, 7, 569003);
    lemma_pw_zero(569002, 569003);
    lemma_step16(569002, 569003, 0x0, 1, 2, 1);
    lemma_pw_mul(2, 284501, 2, 569003);
    assert forall|q: nat| is_prime(q) && (569003 - 1) % (q as int) == 0 implies pw(
        2,
        ((569003 - 1) / (q as int)) as nat,
        569003,
    ) != 1 by {
        lemma_prime_factor_split(q, 2, 284501);
        if q != 2 {
            lemma_prime_factor_split(q, 7, 40643);
            if q != 7 {
                lemma_prime_factor_split(q, 97, 419);
                if q != 97 {
                    lemma_prime_factor_split(q, 419, 1);
                    if q != 419 {
                        lemma_small_mod(1, q);
                    }
                }
            }
        }
    }
    lemma_lucas(2, 569003);
    lemma_generator_gives_prime(2, 569003);
}

/// 1923133 is a prime: 2 is a generator modulo it.
pub proof fn lemma_prime_1923133()
    ensures
        is_prime(1923133),
{
    lemma_prime_2();
    lemma_prime_by_trial(3);
    lemma_prime_by_trial(43);
    lemma_prime_by_trial(3727);
    lemma_pw_one(2, 1923133);
    lemma_pw_zero(2, 1923133);
    lemma_step16(2, 1923133, 0x0, 1, 2, 4);
    lemma_pw_mul(2, 1, 2, 1923133);
    lemma_pw_zero(4, 1923133);
    lemma_step16(4, 1923133, 0x0, 1, 1, 4);
    lemma_step16(4, 1923133, 0x1, 4, 0, 611307);
    lemma_step16(4, 1923133, 0x10, 611307, 2, 740012);
    lemma_pw_mul(2, 2, 258, 1923133);
    lemma_pw_zero(4, 1923133);
    lemma_step16(4, 1923133, 0x0, 1, 14, 1119969);
    lemma_step16(4, 1923133, 0xe, 1119969, 8, 674180);
    lemma_step16(4, 1923133, 0xe8, 674180, 15, 1622376);
    lemma_pw_mul(2, 2, 3727, 1923133);
    lemma_pw_zero(1622376, 1923133);
    lemma_step16(1622376, 1923133, 0x0, 1, 6, 1760861);
    lemma_pw_mul(2, 7454, 6, 1923133);
    lemma_pw_zero(1622376, 1923133);
    lemma_step16(1622376, 1923133, 0x0, 1, 2, 212394);
    lemma_step16(1622376, 1923133, 0x2, 212394, 11, 1862226);
    lemma_pw_mul(2, 7454, 43, 1923133);
    lemma_pw_zero(1862226, 1923133);
    lemma_step16(1862226, 1923133, 0x0, 1, 2, 1862225);
    lemma_pw_mul(2, 320522, 2, 1923133);
    lemma_pw_zero(1862226, 1923133);
    lemma_step16(1862226, 1923133, 0x0, 1, 3, 1923132);
    lemma_pw_mul(2, 320522, 3, 1923133);
    lemma_pw_zero(1923132, 1923133);
    lemma_step16(1923132, 1923133, 0x0, 1, 2, 1);
    lemma_pw_mul(2, 961566, 2, 1923133);
    assert forall|q: nat| is_prime(q) && (1923133 - 1) % (q as int) == 0 implies pw(
        2,
        ((1923133 - 1) / (q as int)) as nat,
        1923133,
    ) != 1 by {
        lemma_prime_factor_split(q, 2, 961566);
        if q != 2 {
            lemma_prime_factor_split(q, 2, 480783);
            if q != 2 {
                lemma_prime_factor_split(q, 3, 160261);
                if q != 3 {
                    lemma_prime_factor_split(q, 43, 3727);
                    if q != 43 {
                        lemma_prime_factor_split(q, 3727, 1);
                        if q != 3727 {
                            lemma_small_mod(1, q);
                        }
                    }
                }
            }
        }
    }
    lemma_lucas(2, 1923133);
    lemma_generator_gives_prime(2, 1923133);
}

/// 8574133 is a prime: 2 is a generator modulo it.
pub proof fn lemma_prime_8574133()
    ensures
        is_prime(8574133),
{
    lemma_prime_2();
    lemma_prime_by_trial(3);
    lemma_prime_by_trial(7);
    lemma_prime_by_trial(103);
    lemma_prime_by_trial(991);
    lemma_pw_one(2, 8574133);
    lemma_pw_zero(2, 8574133);
    lemma_step16(2, 8574133, 0x0, 1, 2, 4);
    lemma_pw_mul(2, 1, 2, 8574133);
    lemma_pw_zero(4, 8574133);
    lemma_step16(4, 8574133, 0x0, 1, 1, 4);
    lemma_step16(4, 8574133, 0x1, 4, 0, 7900796);
    lemma_step16(4, 8574133, 0x10, 7900796, 14, 7336713);
    lemma_step16(4, 8574133, 0x10e, 7336713, 6, 3435729);
    lemma_pw_mul(2, 2, 4326, 8574133);
    lemma_pw_zero(4, 8574133);
    lemma_step16(4, 8574133, 0x0, 1, 3, 64);
    lemma_step16(4, 8574133, 0x3, 64, 13, 5073151);
    lemma_step16(4, 8574133, 0x3d, 5073151, 15, 3492195);
    lemma_pw_mul(2, 2, 991, 8574133);
    lemma_pw_zero(3492195, 8574133);
    lemma_step16(3492195, 8574133, 0x0, 1, 2, 7845475);
    lemma_step16(3492195, 8574133, 0x2, 7845475, 10, 4321357);
    lemma_pw_mul(2, 1982, 42, 8574133);
    lemma_pw_zero(3492195, 8574133);
    lemma_step16(3492195, 8574133, 0x0, 1, 6, 2267255);
    lemma_step16(3492195, 8574133, 0x6, 2267255, 7, 463624);
    lemma_pw_mul(2, 1982, 103, 8574133);
    lemma_pw_zero(463624, 8574133);
    lemma_step16(463624, 8574133, 0x0, 1, 6, 7470406);
    lemma_pw_mul(2, 204146, 6, 8574133);
    lemma_pw_zero(463624, 8574133);
    lemma_step16(463624, 8574133, 0x0, 1, 7, 7079058);
    lemma_pw_mul(2, 204146, 7, 8574133);
    lemma_pw_zero(7079058, 8574133);
    lemma_step16(7079058, 8574133, 0x0, 1, 2, 7079057);
    lemma_pw_mul(2, 1429022, 2, 8574133);
    lemma_pw_zero(7079058, 8574133);
    lemma_step16(7079058, 8574133, 0x0, 1, 3, 8574132);
    lemma_pw_mul(2, 1429022, 3, 8574133);
    lemma_pw_zero(8574132, 8574133);
    lemma_step16(8574132, 8574133, 0x0, 1, 2, 1);
    lemma_pw_mul(2, 4287066, 2, 8574133);
    assert forall|q: nat| is_prime(q) && (8574133 - 1) % (q as int) == 0 implies pw(
        2,
        ((8574133 - 1) / (q as int)) as nat,
        8574133,
    ) != 1 by {
        lemma_prime_factor_split(q, 2, 4287066);
        if q != 2 {
            lemma_prime_factor_split(q, 2, 2143533);
            if q != 2 {
                lemma_prime_factor_split(q, 3, 714511);
                if q != 3 {
                    lemma_prime_factor_split(q, 7, 102073);
                    if q != 7 {
                        lemma_prime_factor_split(q, 103, 991);
                        if q != 103 {
                            lemma_prime_factor_split(q, 991, 1);
                            if q != 991 {
                                lemma_small_mod(1, q);
                            }
                        }
                    }
                }
            }
        }
    }
    lemma_lucas(2, 8574133);
    lemma_generator_gives_prime(2, 8574133);
}

/// 2773320623 is a prime: 5 is a generator modulo it.
pub proof fn lemma_prime_2773320623()
    ensures
        is_prime(2773320623),
{
    lemma_prime_2();
    lemma_prime_by_trial(2437);
    lemma_prime_569003();
    lemma_pw_one(5, 2773320623);
    lemma_pw_zero(5, 2773320623);
    lemma_step16(5, 2773320623, 0x0, 1, 1, 5);
    lemma_step16(5, 2773320623, 0x1, 5, 3, 1360403754);
    lemma_step16(5, 2773320623, 0x13, 1360403754, 0, 2440516376);
    lemma_step16(5, 2773320623, 0x130, 2440516376, 10, 2420059583);
    lemma_pw_mul(5, 1, 4874, 2773320623);
    lemma_pw_zero(5, 2773320623);
    lemma_step16(5, 2773320623, 0x0, 1, 8, 390625);
    lemma_step16(5, 2773320623, 0x8, 390625, 10, 99706618);
    lemma_step16(5, 2773320623, 0x8a, 99706618, 14, 849031915);
    lemma_step16(5, 2773320623, 0x8ae, 849031915, 10, 2748676759);
    lemma_step16(5, 2773320623, 0x8aea, 2748676759, 11, 2589898645);
    lemma_pw_mul(5, 1, 569003, 2773320623);
    lemma_pw_zero(2589898645, 2773320623);
    lemma_step16(2589898645, 2773320623, 0x0, 1, 2, 844634197);
    lemma_pw_mul(5, 569003, 2, 2773320623);
    lemma_pw_zero(2589898645, 2773320623);
    lemma_step16(2589898645, 2773320623, 0x0, 1, 9, 1006716628);
    lemma_step16(2589898645, 2773320623, 0x9, 1006716628, 8, 1625140109);
    lemma_step16(2589898645, 2773320623, 0x98, 1625140109, 5, 2773320622);
    lemma_pw_mul(5, 569003, 2437, 2773320623);
    lemma_pw_zero(2773320622, 2773320623);
    lemma_step16(2773320622, 2773320623, 0x0, 1, 2, 1);
    lemma_pw_mul(5, 1386660311, 2, 2773320623);
    assert forall|q: nat| is_prime(q) && (2773320623 - 1) % (q as int) == 0 implies pw(
        5,
        ((2773320623 - 1) / (q as int)) as nat,
        2773320623,
    ) != 1 by {
        lemma_prime_factor_split(q, 2, 1386660311);
        if q != 2 {
            lemma_prime_factor_split(q, 2437, 569003);
            if q != 2437 {
                lemma_prime_factor_split(q, 569003, 1);
                if q != 569003 {
                    lemma_small_mod(1, q);
                }
            }
        }
    }
    lemma_lucas(5, 2773320623);
    lemma_generator_gives_prime(5, 2773320623);
}

} // verus!
