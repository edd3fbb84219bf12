//! The certificate that a number of 255 bits is a prime, by Lucas's criterion.
//!
//! The number less one has the prime factors 2, 3, 65147 and `m236`. The powers of 2 by that
//! number with one prime factor divided out are raised digit by digit; each step is a product
//! of literals, which the solver computes.

use crate::lucas::{is_generator, lemma_generator_gives_prime, lemma_lucas};
use crate::modexp::{lemma_pw_one, lemma_step16};
use crate::numtheory::{
    is_prime, lemma_prime_by_trial, lemma_prime_factor_split, lemma_pw_mul, lemma_pw_zero, pw,
};
use crate::primality::m236::{lemma_prime_m236, m236};
use crate::primality::small::lemma_prime_2;
use vstd::arithmetic::div_mod::lemma_small_mod;
use vstd::prelude::*;

verus! {

/// A prime of 255 bits.
#[verifier::inline]
pub open spec fn m255() -> nat {
    57896044618658097711785492504343953926634992332820282019728792003956564819949nat
}

/// 2 to the power 2, modulo the prime.
#[verifier::inline]
spec fn v0() -> nat {
    4
}

/// The chain of squarings and multiplications that gives `v0`.
proof fn lemma_chain_0()
    ensures
        pw(2, 2, m255()) == v0(),
{
    lemma_pw_zero(2, m255());
    lemma_step16(2, m255(), 0x0, 1, 2, v0());
}

/// `v0` to the power 390882, modulo the prime.
#[verifier::inline]
spec fn v1() -> nat {
    427094198651976259540344842774561673889945192655078505504941250475370961481nat
}

/// The residue after 2 digits of the chain that gives `v1`.
#[verifier::inline]
spec fn c1_1() -> nat {
    1569275433846670190958947355801916604025588861116008628224nat
}

/// The residue after 3 digits of the chain that gives `v1`.
#[verifier::inline]
spec fn c1_2() -> nat {
    9724726244540227350026469444089023511114471368403406745501320540560340649703nat
}

/// The residue after 4 digits of the chain that gives `v1`.
#[verifier::inline]
spec fn c1_3() -> nat {
    13343768986571359007854455104042816243275199009921288930213888121862028233560nat
}

/// The chain of squarings and multiplications that gives `v1`.
proof fn lemma_chain_1()
    ensures
        pw(v0(), 390882, m255()) == v1(),
{
    lemma_pw_zero(v0(), m255());
    lemma_step16(v0(), m255(), 0x0, 1, 5, 1024);
    lemma_step16(v0(), m255(), 0x5, 1024, 15, c1_1());
    lemma_step16(v0(), m255(), 0x5f, c1_1(), 6, c1_2());
    lemma_step16(v0(), m255(), 0x5f6, c1_2(), 14, c1_3());
    lemma_step16(v0(), m255(), 0x5f6e, c1_3(), 2, v1());
}

/// `v0` to the power of a number of 236 bits, modulo the prime.
#[verifier::inline]
spec fn v2() -> nat {
    23527602130447114332879113691333126476595759697647792590686509861295570648361nat
}

/// The residue after 2 digits of the chain that gives `v2`.
#[verifier::inline]
spec fn c2_1() -> nat {
    2940107593302778152885420032nat
}

/// The residue after 3 digits of the chain that gives `v2`.
#[verifier::inline]
spec fn c2_2() -> nat {
    124432843608038830337268348095763163235364112114239167215938220064768nat
}

/// The residue after 4 digits of the chain that gives `v2`.
#[verifier::inline]
spec fn c2_3() -> nat {
    36188761195982621019037889192661791757006207764697704380494859588355824196937nat
}

/// The residue after 5 digits of the chain that gives `v2`.
#[verifier::inline]
spec fn c2_4() -> nat {
    22063355212152726253311734109282533505168167098467499605263933270093981302765nat
}

/// The residue after 6 digits of the chain that gives `v2`.
#[verifier::inline]
spec fn c2_5() -> nat {
    27693607637223405571322331735354647626455279272013998349387254559151694883992nat
}

/// The residue after 7 digits of the chain that gives `v2`.
#[verifier::inline]
spec fn c2_6() -> nat {
    31365137710694093417031985734653276035309025656619706267338095987672273193412nat
}

/// The residue after 8 digits of the chain that gives `v2`.
#[verifier::inline]
spec fn c2_7() -> nat {
    12856787435432587045390139918950484814003900499004236717482822186994236817273nat
}

/// The residue after 9 digits of the chain that gives `v2`.
#[verifier::inline]
spec fn c2_8() -> nat {
    11565438573064904053523456085907777669879743012038148350271638837412661191667nat
}

/// The residue after 10 digits of the chain that gives `v2`.
#[verifier::inline]
spec fn c2_9() -> nat {
    19195806847230509402759243009761626859415505124367073040130293567626634252638nat
}

/// The residue after 11 digits of the chain that gives `v2`.
#[verifier::inline]
spec fn c2_10() -> nat {
    27869714481467138090469555800515211880191220415964514936565195405343794623165nat
}

/// The residue after 12 digits of the chain that gives `v2`.
#[verifier::inline]
spec fn c2_11() -> nat {
    47056160237935111281539473521495723335755295029951433580960770452649926007250nat
}

/// The residue after 13 digits of the chain that gives `v2`.
#[verifier::inline]
spec fn c2_12() -> nat {
    27898325425970888313619495383688421704748887520598573991159411109794129476672nat
}

/// The residue after 14 digits of the chain that gives `v2`.
#[verifier::inline]
spec fn c2_13() -> nat {
    50839013112316912783571869283015903364596384549039434974092276931845730013799nat
}

/// The residue after 15 digits of the chain that gives `v2`.
#[verifier::inline]
spec fn c2_14() -> nat {
    11642270808791240011936012166137690342591640761305110867723272541993243126286nat
}

/// The residue after 16 digits of the chain that gives `v2`.
#[verifier::inline]
spec fn c2_15() -> nat {
    4602952759232831739199893528278187486812420116592298532448122126156191775852nat
}

/// The residue after 17 digits of the chain that gives `v2`.
#[verifier::inline]
spec fn c2_16() -> nat {
    1315065263229790338296456641034457523190373060762650953993322165726012099955nat
}

/// The residue after 18 digits of the chain that gives `v2`.
#[verifier::inline]
spec fn c2_17() -> nat {
    24752349824574523709161834801493216741813058818157036951765583454431874723508nat
}

/// The residue after 19 digits of the chain that gives `v2`.
#[verifier::inline]
spec fn c2_18() -> nat {
    6128201709293231550151231484234898527503693798758180147371765184499098315256nat
}

/// The residue after 20 digits of the chain that gives `v2`.
#[verifier::inline]
spec fn c2_19() -> nat {
    45292753322576408262270679064188582376907206409864282593209220769512934354436nat
}

/// The residue after 21 digits of the chain that gives `v2`.
#[verifier::inline]
spec fn c2_20() -> nat {
    45122002822368987740888026841264126961417726773874223889625624420317454775304nat
}

/// The residue after 22 digits of the chain that gives `v2`.
#[verifier::inline]
spec fn c2_21() -> nat {
    39687610481011071187307420589169618857535703356228874207945575794469631244890nat
}

/// The residue after 23 digits of the chain that gives `v2`.
#[verifier::inline]
spec fn c2_22() -> nat {
    34675147406291034795063530330715157887769035420445554668467977227831212582890nat
}

/// The residue after 24 digits of the chain that gives `v2`.
#[verifier::inline]
spec fn c2_23() -> nat {
    90249495776643197590582617037088981021788919137242996772400106877147869752nat
}

/// The residue after 25 digits of the chain that gives `v2`.
#[verifier::inline]
spec fn c2_24() -> nat {
    41301042568445630189566248189071488845524104471247360167047956297995519099433nat
}

/// The residue after 26 digits of the chain that gives `v2`.
#[verifier::inline]
spec fn c2_25() -> nat {
    53868507090843796363468460353681435583553926871705312786870437908681774013357nat
}

/// The residue after 27 digits of the chain that gives `v2`.
#[verifier::inline]
spec fn c2_26() -> nat {
    43839339499565814169272523281540600832149926640381846615835500503270126284798nat
}

/// The residue after 28 digits of the chain that gives `v2`.
#[verifier::inline]
spec fn c2_27() -> nat {
    54100707192560408147289767620058264865409660460464638999630420639616545574029nat
}

/// The residue after 29 digits of the chain that gives `v2`.
#[verifier::inline]
spec fn c2_28() -> nat {
    54277138682354312025686887362128820166468432418075680824489578887863083259741nat
}

/// The residue after 30 digits of the chain that gives `v2`.
#[verifier::inline]
spec fn c2_29() -> nat {
    4737386826968776411977158740101802949175591078269863887095301851672563301193nat
}

/// The residue after 31 digits of the chain that gives `v2`.
#[verifier::inline]
spec fn c2_30() -> nat {
    2727209855987358865797931842308264195444579005100335712114981247912695233697nat
}

/// The residue after 32 digits of the chain that gives `v2`.
#[verifier::inline]
spec fn c2_31() -> nat {
    22420546005206876656291716145321286841380962364018580841224362516376449489050nat
}

/// The residue after 33 digits of the chain that gives `v2`.
#[verifier::inline]
spec fn c2_32() -> nat {
    38043476758909018819243819122368760908722902748791190730116000673961040705566nat
}

/// The residue after 34 digits of the chain that gives `v2`.
#[verifier::inline]
spec fn c2_33() -> nat {
    28452321046126579372075030868910481947762114662893891365567941613697275898086nat
}

/// The residue after 35 digits of the chain that gives `v2`.
#[verifier::inline]
spec fn c2_34() -> nat {
    39263261255317121992522782224312836658351748836991392505175034888849491111090nat
}

/// The residue after 36 digits of the chain that gives `v2`.
#[verifier::inline]
spec fn c2_35() -> nat {
    33977804157855231057538369693376099599748254541403176351351504000633929514812nat
}

/// The residue after 37 digits of the chain that gives `v2`.
#[verifier::inline]
spec fn c2_36() -> nat {
    42747953839951189772660893179430861522864279492828811878681821711012864437782nat
}

/// The residue after 38 digits of the chain that gives `v2`.
#[verifier::inline]
spec fn c2_37() -> nat {
    26323019405548078559865106513308389067076746263219058924828147280923412858364nat
}

/// The residue after 39 digits of the chain that gives `v2`.
#[verifier::inline]
spec fn c2_38() -> nat {
    54069600083478358769556305104038772607536515522394370444803976335542007157558nat
}

/// The residue after 40 digits of the chain that gives `v2`.
#[verifier::inline]
spec fn c2_39() -> nat {
    38026174675039496870113495598375667498316935957463615714843868417736783866410nat
}

/// The residue after 41 digits of the chain that gives `v2`.
#[verifier::inline]
spec fn c2_40() -> nat {
    32298527581131027807300955052001654909859439887987688200477657190743001248902nat
}

/// The residue after 42 digits of the chain that gives `v2`.
#[verifier::inline]
spec fn c2_41() -> nat {
    14235994625925737887915631657585513516386706707487630617404203234767617139720nat
}

/// The residue after 43 digits of the chain that gives `v2`.
#[verifier::inline]
spec fn c2_42() -> nat {
    29366883110484215008746431767970608941277662430587202529690898603322451133215nat
}

/// The residue after 44 digits of the chain that gives `v2`.
#[verifier::inline]
spec fn c2_43() -> nat {
    31251981637788289191940414148525888758781487000851532371302986306198101628952nat
}

/// The residue after 45 digits of the chain that gives `v2`.
#[verifier::inline]
spec fn c2_44() -> nat {
    19313503098940846272312630682319080719604755284908271369143820499414958666460nat
}

/// The residue after 46 digits of the chain that gives `v2`.
#[verifier::inline]
spec fn c2_45() -> nat {
    13402270172856354193123651013774515754056806762991928227812620871985653448092nat
}

/// The residue after 47 digits of the chain that gives `v2`.
#[verifier::inline]
spec fn c2_46() -> nat {
    23484442399321860452582464408707064413283066677696898867150687477264747057493nat
}

/// The residue after 48 digits of the chain that gives `v2`.
#[verifier::inline]
spec fn c2_47() -> nat {
    4547492421399221835961330856220002236617930608592959728002517070922403093130nat
}

/// The residue after 49 digits of the chain that gives `v2`.
#[verifier::inline]
spec fn c2_48() -> nat {
    9335162552416629636457854037358047293698944662931138293805054960741439624676nat
}

/// The residue after 50 digits of the chain that gives `v2`.
#[verifier::inline]
spec fn c2_49() -> nat {
    45969815872828057403973870560473360168198857012201325075516144765942258676185nat
}

/// The residue after 51 digits of the chain that gives `v2`.
#[verifier::inline]
spec fn c2_50() -> nat {
    20100088544161375053466375014695279975060767888822706449192690422981553894488nat
}

/// The residue after 52 digits of the chain that gives `v2`.
#[verifier::inline]
spec fn c2_51() -> nat {
    25791001763903561357557196447907788881381094609181774463712939603844396419902nat
}

/// The residue after 53 digits of the chain that gives `v2`.
#[verifier::inline]
spec fn c2_52() -> nat {
    56665114842585803720397288849091743833459555473314908053283773538131940248412nat
}

/// The residue after 54 digits of the chain that gives `v2`.
#[verifier::inline]
spec fn c2_53() -> nat {
    24975851076853812207661660779737073257182791372798249919692095820552541049045nat
}

/// The residue after 55 digits of the chain that gives `v2`.
#[verifier::inline]
spec fn c2_54() -> nat {
    53927459643328059872164837336381242088449593100913545279443012758190519298178nat
}

/// The residue after 56 digits of the chain that gives `v2`.
#[verifier::inline]
spec fn c2_55() -> nat {
    19757778988494541487649596151342757701701040503462123609811807713423010860735nat
}

/// The residue after 57 digits of the chain that gives `v2`.
#[verifier::inline]
spec fn c2_56() -> nat {
    52168311136612488495194411416321210314880029975136600577933976427470601889303nat
}

/// The residue after 58 digits of the chain that gives `v2`.
#[verifier::inline]
spec fn c2_57() -> nat {
    54294895074875052013641464307140542515646430648473760223977557277087629280150nat
}

/// The chain that gives `v2`, up to its base-16 digit 6.
proof fn lemma_chain_2_0()
    ensures
        pw(v0(), 0xab_af8c, m255()) == c2_5(),
{
    lemma_pw_zero(v0(), m255());
    lemma_step16(v0(), m255(), 0x0, 1, 10, 1048576);
    lemma_step16(v0(), m255(), 0xa, 1048576, 11, c2_1());
    lemma_step16(v0(), m255(), 0xab, c2_1(), 10, c2_2());
    lemma_step16(v0(), m255(), 0xaba, c2_2(), 15, c2_3());
    lemma_step16(v0(), m255(), 0xabaf, c2_3(), 8, c2_4());
    lemma_step16(v0(), m255(), 0xa_baf8, c2_4(), 12, c2_5());
}

/// The chain that gives `v2`, up to its base-16 digit 12.
proof fn lemma_chain_2_1()
    ensures
        pw(v0(), 0xabaf_8c6b_094f, m255()) == c2_11(),
{
    lemma_chain_2_0();
    lemma_step16(v0(), m255(), 0xab_af8c, c2_5(), 6, c2_6());
    lemma_step16(v0(), m255(), 0xaba_f8c6, c2_6(), 11, c2_7());
    lemma_step16(v0(), m255(), 0xabaf_8c6b, c2_7(), 0, c2_8());
    lemma_step16(v0(), m255(), 0xa_baf8_c6b0, c2_8(), 9, c2_9());
    lemma_step16(v0(), m255(), 0xab_af8c_6b09, c2_9(), 4, c2_10());
    lemma_step16(v0(), m255(), 0xaba_f8c6_b094, c2_10(), 15, c2_11());
}

/// The chain that gives `v2`, up to its base-16 digit 18.
proof fn lemma_chain_2_2()
    ensures
        pw(v0(), 0xab_af8c_6b09_4fd0_f32cnat, m255()) == c2_17(),
{
    lemma_chain_2_1();
    lemma_step16(v0(), m255(), 0xabaf_8c6b_094f, c2_11(), 13, c2_12());
    lemma_step16(v0(), m255(), 0xa_baf8_c6b0_94fd, c2_12(), 0, c2_13());
    lemma_step16(v0(), m255(), 0xab_af8c_6b09_4fd0, c2_13(), 15, c2_14());
    lemma_step16(v0(), m255(), 0xaba_f8c6_b094_fd0f, c2_14(), 3, c2_15());
    lemma_step16(v0(), m255(), 0xabaf_8c6b_094f_d0f3nat, c2_15(), 2, c2_16());
    lemma_step16(v0(), m255(), 0xa_baf8_c6b0_94fd_0f32nat, c2_16(), 12, c2_17());
}

/// The chain that gives `v2`, up to its base-16 digit 24.
proof fn lemma_chain_2_3()
    ensures
        pw(v0(), 0xabaf_8c6b_094f_d0f3_2c2c_cabanat, m255()) == c2_23(),
{
    lemma_chain_2_2();
    lemma_step16(v0(), m255(), 0xab_af8c_6b09_4fd0_f32cnat, c2_17(), 2, c2_18());
    lemma_step16(v0(), m255(), 0xaba_f8c6_b094_fd0f_32c2nat, c2_18(), 12, c2_19());
    lemma_step16(v0(), m255(), 0xabaf_8c6b_094f_d0f3_2c2cnat, c2_19(), 12, c2_20());
    lemma_step16(v0(), m255(), 0xa_baf8_c6b0_94fd_0f32_c2ccnat, c2_20(), 10, c2_21());
    lemma_step16(v0(), m255(), 0xab_af8c_6b09_4fd0_f32c_2ccanat, c2_21(), 11, c2_22());
    lemma_step16(v0(), m255(), 0xaba_f8c6_b094_fd0f_32c2_ccabnat, c2_22(), 10, c2_23());
}

/// The chain that gives `v2`, up to its base-16 digit 30.
proof fn lemma_chain_2_4()
    ensures
        pw(v0(), 0xab_af8c_6b09_4fd0_f32c_2cca_bab8_64dbnat, m255()) == c2_29(),
{
    lemma_chain_2_3();
    lemma_step16(v0(), m255(), 0xabaf_8c6b_094f_d0f3_2c2c_cabanat, c2_23(), 11, c2_24());
    lemma_step16(v0(), m255(), 0xa_baf8_c6b0_94fd_0f32_c2cc_ababnat, c2_24(), 8, c2_25());
    lemma_step16(v0(), m255(), 0xab_af8c_6b09_4fd0_f32c_2cca_bab8nat, c2_25(), 6, c2_26());
    lemma_step16(v0(), m255(), 0xaba_f8c6_b094_fd0f_32c2_ccab_ab86nat, c2_26(), 4, c2_27());
    lemma_step16(v0(), m255(), 0xabaf_8c6b_094f_d0f3_2c2c_caba_b864nat, c2_27(), 13, c2_28());
    lemma_step16(v0(), m255(), 0xa_baf8_c6b0_94fd_0f32_c2cc_abab_864dnat, c2_28(), 11, c2_29());
}

/// The chain that gives `v2`, up to its base-16 digit 36.
proof fn lemma_chain_2_5()
    ensures
        pw(v0(), 0xabaf_8c6b_094f_d0f3_2c2c_caba_b864_dbec_d991nat, m255()) == c2_35(),
{
    lemma_chain_2_4();
    lemma_step16(v0(), m255(), 0xab_af8c_6b09_4fd0_f32c_2cca_bab8_64dbnat, c2_29(), 14, c2_30());
    lemma_step16(v0(), m255(), 0xaba_f8c6_b094_fd0f_32c2_ccab_ab86_4dbenat, c2_30(), 12, c2_31());
    lemma_step16(v0(), m255(), 0xabaf_8c6b_094f_d0f3_2c2c_caba_b864_dbecnat, c2_31(), 13, c2_32());
    lemma_step16(v0(), m255(), 0xa_baf8_c6b0_94fd_0f32_c2cc_abab_864d_becdnat, c2_32(), 9, c2_33());
    lemma_step16(
        v0(),
        m255(),
        0xab_af8c_6b09_4fd0_f32c_2cca_bab8_64db_ecd9nat,
        c2_33(),
        9,
        c2_34(),
    );
    lemma_step16(
        v0(),
        m255(),
        0xaba_f8c6_b094_fd0f_32c2_ccab_ab86_4dbe_cd99nat,
        c2_34(),
        1,
        c2_35(),
    );
}

/// The chain that gives `v2`, up to its base-16 digit 42.
proof fn lemma_chain_2_6()
    ensures
        pw(v0(), 0xab_af8c_6b09_4fd0_f32c_2cca_bab8_64db_ecd9_9144_679cnat, m255()) == c2_41(),
{
    lemma_chain_2_5();
    lemma_step16(
        v0(),
        m255(),
        0xabaf_8c6b_094f_d0f3_2c2c_caba_b864_dbec_d991nat,
        c2_35(),
        4,
        c2_36(),
    );
    lemma_step16(
        v0(),
        m255(),
        0xa_baf8_c6b0_94fd_0f32_c2cc_abab_864d_becd_9914nat,
        c2_36(),
        4,
        c2_37(),
    );
    lemma_step16(
        v0(),
        m255(),
        0xab_af8c_6b09_4fd0_f32c_2cca_bab8_64db_ecd9_9144nat,
        c2_37(),
        6,
        c2_38(),
    );
    lemma_step16(
        v0(),
        m255(),
        0xaba_f8c6_b094_fd0f_32c2_ccab_ab86_4dbe_cd99_1446nat,
        c2_38(),
        7,
        c2_39(),
    );
    lemma_step16(
        v0(),
        m255(),
        0xabaf_8c6b_094f_d0f3_2c2c_caba_b864_dbec_d991_4467nat,
        c2_39(),
        9,
        c2_40(),
    );
    lemma_step16(
        v0(),
        m255(),
        0xa_baf8_c6b0_94fd_0f32_c2cc_abab_864d_becd_9914_4679nat,
        c2_40(),
        12,
        c2_41(),
    );
}

/// The chain that gives `v2`, up to its base-16 digit 48.
proof fn lemma_chain_2_7()
    ensures
        pw(v0(), 0xabaf_8c6b_094f_d0f3_2c2c_caba_b864_dbec_d991_4467_9c1a_df80nat, m255()) == c2_47(),
{
    lemma_chain_2_6();
    lemma_step16(
        v0(),
        m255(),
        0xab_af8c_6b09_4fd0_f32c_2cca_bab8_64db_ecd9_9144_679cnat,
        c2_41(),
        1,
        c2_42(),
    );
    lemma_step16(
        v0(),
        m255(),
        0xaba_f8c6_b094_fd0f_32c2_ccab_ab86_4dbe_cd99_1446_79c1nat,
        c2_42(),
        10,
        c2_43(),
    );
    lemma_step16(
        v0(),
        m255(),
        0xabaf_8c6b_094f_d0f3_2c2c_caba_b864_dbec_d991_4467_9c1anat,
        c2_43(),
        13,
        c2_44(),
    );
    lemma_step16(
        v0(),
        m255(),
        0xa_baf8_c6b0_94fd_0f32_c2cc_abab_864d_becd_9914_4679_c1adnat,
        c2_44(),
        15,
        c2_45(),
    );
    lemma_step16(
        v0(),
        m255(),
        0xab_af8c_6b09_4fd0_f32c_2cca_bab8_64db_ecd9_9144_679c_1adfnat,
        c2_45(),
        8,
        c2_46(),
    );
    lemma_step16(
        v0(),
        m255(),
        0xaba_f8c6_b094_fd0f_32c2_ccab_ab86_4dbe_cd99_1446_79c1_adf8nat,
        c2_46(),
        0,
        c2_47(),
    );
}

/// The chain that gives `v2`, up to its base-16 digit 54.
proof fn lemma_chain_2_8()
    ensures
        pw(v0(), 0xab_af8c_6b09_4fd0_f32c_2cca_bab8_64db_ecd9_9144_679c_1adf_8048_98fbnat, m255()) == c2_53(),
{
    lemma_chain_2_7();
    lemma_step16(
        v0(),
        m255(),
        0xabaf_8c6b_094f_d0f3_2c2c_caba_b864_dbec_d991_4467_9c1a_df80nat,
        c2_47(),
        4,
        c2_48(),
    );
    lemma_step16(
        v0(),
        m255(),
        0xa_baf8_c6b0_94fd_0f32_c2cc_abab_864d_becd_9914_4679_c1ad_f804nat,
        c2_48(),
        8,
        c2_49(),
    );
    lemma_step16(
        v0(),
        m255(),
        0xab_af8c_6b09_4fd0_f32c_2cca_bab8_64db_ecd9_9144_679c_1adf_8048nat,
        c2_49(),
        9,
        c2_50(),
    );
    lemma_step16(
        v0(),
        m255(),
        0xaba_f8c6_b094_fd0f_32c2_ccab_ab86_4dbe_cd99_1446_79c1_adf8_0489nat,
        c2_50(),
        8,
        c2_51(),
    );
    lemma_step16(
        v0(),
        m255(),
        0xabaf_8c6b_094f_d0f3_2c2c_caba_b864_dbec_d991_4467_9c1a_df80_4898nat,
        c2_51(),
        15,
        c2_52(),
    );
    lemma_step16(
        v0(),
        m255(),
        0xa_baf8_c6b0_94fd_0f32_c2cc_abab_864d_becd_9914_4679_c1ad_f804_898fnat,
        c2_52(),
        11,
        c2_53(),
    );
}

/// The chain of squarings and multiplications that gives `v2`.
proof fn lemma_chain_2()
    ensures
        pw(v0(), 74058212732561358302231226437062788676166966415465897661863160754340907nat, m255()) == v2(),
{
    lemma_chain_2_8();
    lemma_step16(
        v0(),
        m255(),
        0xab_af8c_6b09_4fd0_f32c_2cca_bab8_64db_ecd9_9144_679c_1adf_8048_98fbnat,
        c2_53(),
        2,
        c2_54(),
    );
    lemma_step16(
        v0(),
        m255(),
        0xaba_f8c6_b094_fd0f_32c2_ccab_ab86_4dbe_cd99_1446_79c1_adf8_0489_8fb2nat,
        c2_54(),
        0,
        c2_55(),
    );
    lemma_step16(
        v0(),
        m255(),
        0xabaf_8c6b_094f_d0f3_2c2c_caba_b864_dbec_d991_4467_9c1a_df80_4898_fb20nat,
        c2_55(),
        4,
        c2_56(),
    );
    lemma_step16(
        v0(),
        m255(),
        0xa_baf8_c6b0_94fd_0f32_c2cc_abab_864d_becd_9914_4679_c1ad_f804_898f_b204nat,
        c2_56(),
        2,
        c2_57(),
    );
    lemma_step16(
        v0(),
        m255(),
        0xab_af8c_6b09_4fd0_f32c_2cca_bab8_64db_ecd9_9144_679c_1adf_8048_98fb_2042nat,
        c2_57(),
        11,
        v2(),
    );
}

/// `v2` to the power 6, modulo the prime.
#[verifier::inline]
spec fn v3() -> nat {
    22602559476203468486837656474023958799180643873278202064348025470901666305470nat
}

/// The chain of squarings and multiplications that gives `v3`.
proof fn lemma_chain_3()
    ensures
        pw(v2(), 6, m255()) == v3(),
{
    lemma_pw_zero(v2(), m255());
    lemma_step16(v2(), m255(), 0x0, 1, 6, v3());
}

/// `v2` to the power 65147, modulo the prime.
#[verifier::inline]
spec fn v4() -> nat {
    25380276437079137597092236364571181010632177832931468165172742469126098314553nat
}

/// The residue after 1 digits of the chain that gives `v4`.
#[verifier::inline]
spec fn c4_0() -> nat {
    46196858972089881108710430067416214820496929420415350947968126189030148625989nat
}

/// The residue after 2 digits of the chain that gives `v4`.
#[verifier::inline]
spec fn c4_1() -> nat {
    7301319593546521057218971225568309958423863266172565468691929291478154321304nat
}

/// The residue after 3 digits of the chain that gives `v4`.
#[verifier::inline]
spec fn c4_2() -> nat {
    56422314489768108141759411720618083613516095671495273471494769041409834927943nat
}

/// The chain of squarings and multiplications that gives `v4`.
proof fn lemma_chain_4()
    ensures
        pw(v2(), 65147, m255()) == v4(),
{
    lemma_pw_zero(v2(), m255());
    lemma_step16(v2(), m255(), 0x0, 1, 15, c4_0());
    lemma_step16(v2(), m255(), 0xf, c4_0(), 14, c4_1());
    lemma_step16(v2(), m255(), 0xfe, c4_1(), 7, c4_2());
    lemma_step16(v2(), m255(), 0xfe7, c4_2(), 11, v4());
}

/// `v4` to the power 2, modulo the prime.
#[verifier::inline]
spec fn v5() -> nat {
    25380276437079137597092236364571181010632177832931468165172742469126098314552nat
}

/// The chain of squarings and multiplications that gives `v5`.
proof fn lemma_chain_5()
    ensures
        pw(v4(), 2, m255()) == v5(),
{
    lemma_pw_zero(v4(), m255());
    lemma_step16(v4(), m255(), 0x0, 1, 2, v5());
}

/// `v4` to the power 3, modulo the prime.
#[verifier::inline]
spec fn v6() -> nat {
    57896044618658097711785492504343953926634992332820282019728792003956564819948nat
}

/// The chain of squarings and multiplications that gives `v6`.
proof fn lemma_chain_6()
    ensures
        pw(v4(), 3, m255()) == v6(),
{
    lemma_pw_zero(v4(), m255());
    lemma_step16(v4(), m255(), 0x0, 1, 3, v6());
}

/// `v6` to the power 2, modulo the prime.
#[verifier::inline]
spec fn v7() -> nat {
    1
}

/// The chain of squarings and multiplications that gives `v7`.
proof fn lemma_chain_7()
    ensures
        pw(v6(), 2, m255()) == v7(),
{
    lemma_pw_zero(v6(), m255());
    lemma_step16(v6(), m255(), 0x0, 1, 2, v7());
}

/// The prime of 255 bits is a prime: 2 is a generator modulo it.
pub proof fn lemma_prime_m255()
    ensures
        is_prime(m255()),
        is_generator(2, m255()),
{
    lemma_prime_2();
    lemma_prime_by_trial(3);
    lemma_prime_by_trial(65147);
    lemma_prime_m236();
    lemma_pw_one(2, m255());
    lemma_chain_0();
    lemma_pw_mul(2, 1, 2, m255());
    lemma_chain_1();
    lemma_pw_mul(2, 2, 390882, m255());
    lemma_chain_2();
    lemma_pw_mul(
        2,
        2,
        74058212732561358302231226437062788676166966415465897661863160754340907nat,
        m255(),
    );
    lemma_chain_3();
    lemma_pw_mul(
        2,
        148116425465122716604462452874125577352333932830931795323726321508681814nat,
        6,
        m255(),
    );
    lemma_chain_4();
    lemma_pw_mul(
        2,
        148116425465122716604462452874125577352333932830931795323726321508681814nat,
        65147,
        m255(),
    );
    lemma_chain_5();
    lemma_pw_mul(
        2,
        9649340769776349618630915417390658987772498722136713669954798667326094136658nat,
        2,
        m255(),
    );
    lemma_chain_6();
    lemma_pw_mul(
        2,
        9649340769776349618630915417390658987772498722136713669954798667326094136658nat,
        3,
        m255(),
    );
    lemma_chain_7();
    lemma_pw_mul(
        2,
        28948022309329048855892746252171976963317496166410141009864396001978282409974nat,
        2,
        m255(),
    );
    assert forall|q: nat| is_prime(q) && (m255() - 1) % (q as int) == 0 implies pw(
        2,
        ((m255() - 1) / (q as int)) as nat,
        m255(),
    ) != 1 by {
        lemma_prime_factor_split(q, 2, 28948022309329048855892746252171976963317496166410141009864396001978282409974nat);
        if q != 2 {
            lemma_prime_factor_split(q, 2, 14474011154664524427946373126085988481658748083205070504932198000989141204987nat);
            if q != 2 {
                lemma_prime_factor_split(q, 3, 4824670384888174809315457708695329493886249361068356834977399333663047068329nat);
                if q != 3 {
                    lemma_prime_factor_split(q, 65147, 74058212732561358302231226437062788676166966415465897661863160754340907nat);
                    if q != 65147 {
                        lemma_prime_factor_split(q, m236(), 1);
                        if q != m236() {
                            lemma_small_mod(1, q);
                        }
                    }
                }
            }
        }
    }
    lemma_lucas(2, m255());
    lemma_generator_gives_prime(2, m255());
}

} // verus!
