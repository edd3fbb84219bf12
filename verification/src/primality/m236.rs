//! The certificate that a number of 236 bits is a prime, by Lucas's criterion.
//!
//! The number less one has the prime factors 2, 3, 353, 57467, 132049, 1923133, `m55` and
//! `m116`. The powers of 2 by that number with one prime factor divided out are raised digit by
//! digit; each step is a product of literals, which the solver computes.

use crate::lucas::{is_generator, lemma_generator_gives_prime, lemma_lucas};
use crate::modexp::{lemma_pw_one, lemma_step16};
use crate::numtheory::{
    is_prime, lemma_prime_by_trial, lemma_prime_factor_split, lemma_pw_mul, lemma_pw_zero, pw,
};
use crate::primality::m116::{lemma_prime_m116, m116};
use crate::primality::m55::{lemma_prime_m55, m55};
use crate::primality::small::{lemma_prime_2, lemma_prime_132049, lemma_prime_1923133};
use vstd::arithmetic::div_mod::lemma_small_mod;
use vstd::prelude::*;

verus! {

/// A prime of 236 bits.
#[verifier::inline]
pub open spec fn m236() -> nat {
    74058212732561358302231226437062788676166966415465897661863160754340907nat
}

/// 2 to the power of a number of 120 bits, modulo the prime.
#[verifier::inline]
spec fn v0() -> nat {
    69490809710348678725736597923071784769591275419387514694139338586948360nat
}

/// The residue after 2 digits of the chain that gives `v0`.
#[verifier::inline]
spec fn c0_1() -> nat {
    784637716923335095479473677900958302012794430558004314112nat
}

/// The residue after 3 digits of the chain that gives `v0`.
#[verifier::inline]
spec fn c0_2() -> nat {
    67350303327341567303664872675307345658867663549221305857041082473184575nat
}

/// The residue after 4 digits of the chain that gives `v0`.
#[verifier::inline]
spec fn c0_3() -> nat {
    10820701348675090188781782904093358004259012783131519068556942373226031nat
}

/// The residue after 5 digits of the chain that gives `v0`.
#[verifier::inline]
spec fn c0_4() -> nat {
    36291934579476949170961539441498659148733234289554665606497081457366218nat
}

/// The residue after 6 digits of the chain that gives `v0`.
#[verifier::inline]
spec fn c0_5() -> nat {
    26468137062010504766510494899990372716311976644238514025378256550645878nat
}

/// The residue after 7 digits of the chain that gives `v0`.
#[verifier::inline]
spec fn c0_6() -> nat {
    29758508075917093950376460550151922150999953377758899990487414539215855nat
}

/// The residue after 8 digits of the chain that gives `v0`.
#[verifier::inline]
spec fn c0_7() -> nat {
    23106016685637634157287559334335934391370487219714175683276611963389156nat
}

/// The residue after 9 digits of the chain that gives `v0`.
#[verifier::inline]
spec fn c0_8() -> nat {
    27761516180245189731908187747824767962457452781687581946686976166293915nat
}

/// The residue after 10 digits of the chain that gives `v0`.
#[verifier::inline]
spec fn c0_9() -> nat {
    71590560715488230603160546455438943176626670054473393316687045232831522nat
}

/// The residue after 11 digits of the chain that gives `v0`.
#[verifier::inline]
spec fn c0_10() -> nat {
    20186061522064547348942138738928635052949347431942743397747040877464336nat
}

/// The residue after 12 digits of the chain that gives `v0`.
#[verifier::inline]
spec fn c0_11() -> nat {
    56850440753119798199641765124701563093724562108599945471550834900632544nat
}

/// The residue after 13 digits of the chain that gives `v0`.
#[verifier::inline]
spec fn c0_12() -> nat {
    7644206704861915064519872494262899263124054706753901718355019928171111nat
}

/// The residue after 14 digits of the chain that gives `v0`.
#[verifier::inline]
spec fn c0_13() -> nat {
    44229501098471092128779605976169943203831069068326638942217283173370810nat
}

/// The residue after 15 digits of the chain that gives `v0`.
#[verifier::inline]
spec fn c0_14() -> nat {
    73006098937535659217249858779868473560363143744827874117540793935541339nat
}

/// The residue after 16 digits of the chain that gives `v0`.
#[verifier::inline]
spec fn c0_15() -> nat {
    70469177349291559466123681724612771667726699584267318722499984723657333nat
}

/// The residue after 17 digits of the chain that gives `v0`.
#[verifier::inline]
spec fn c0_16() -> nat {
    55268776644369205451234458373855931073298096374039012089695711263703948nat
}

/// The residue after 18 digits of the chain that gives `v0`.
#[verifier::inline]
spec fn c0_17() -> nat {
    54980755414433188203062458250353229448483829906751478486261111467667851nat
}

/// The residue after 19 digits of the chain that gives `v0`.
#[verifier::inline]
spec fn c0_18() -> nat {
    63451802044238897392199271441770955419508672762410507456557591853977470nat
}

/// The residue after 20 digits of the chain that gives `v0`.
#[verifier::inline]
spec fn c0_19() -> nat {
    17624207582733641917495387846056778294471677926149874945567454640532283nat
}

/// The residue after 21 digits of the chain that gives `v0`.
#[verifier::inline]
spec fn c0_20() -> nat {
    10828997928446210701989189866324491273221686470919068671602815019785289nat
}

/// The residue after 22 digits of the chain that gives `v0`.
#[verifier::inline]
spec fn c0_21() -> nat {
    68648931893065637410210464875532471739450541519771408167643509998449990nat
}

/// The residue after 23 digits of the chain that gives `v0`.
#[verifier::inline]
spec fn c0_22() -> nat {
    69739347985785909195117120511593078001038509240396491072119825759284226nat
}

/// The residue after 24 digits of the chain that gives `v0`.
#[verifier::inline]
spec fn c0_23() -> nat {
    25367839317771031639952215701897139861415218974366781842116251919875393nat
}

/// The residue after 25 digits of the chain that gives `v0`.
#[verifier::inline]
spec fn c0_24() -> nat {
    21856358015838061538321139640202557757811906244077066571949230072250514nat
}

/// The residue after 26 digits of the chain that gives `v0`.
#[verifier::inline]
spec fn c0_25() -> nat {
    65626805947523963538669627678002060436780939641818486051885986015610197nat
}

/// The residue after 27 digits of the chain that gives `v0`.
#[verifier::inline]
spec fn c0_26() -> nat {
    593108134046836163611118372097765501214679492636961049514195218046251nat
}

/// The residue after 28 digits of the chain that gives `v0`.
#[verifier::inline]
spec fn c0_27() -> nat {
    64430789838214670370977400022716497713195584758074789776176847535238085nat
}

/// The residue after 29 digits of the chain that gives `v0`.
#[verifier::inline]
spec fn c0_28() -> nat {
    31696639904365753107769442767829799140366231137872339266966295574876487nat
}

/// The chain that gives `v0`, up to its base-16 digit 6.
proof fn lemma_chain_0_0()
    ensures
        pw(2, 0xbd_0d14, m236()) == c0_5(),
{
    lemma_pw_zero(2, m236());
    lemma_step16(2, m236(), 0x0, 1, 11, 2048);
    lemma_step16(2, m236(), 0xb, 2048, 13, c0_1());
    lemma_step16(2, m236(), 0xbd, c0_1(), 0, c0_2());
    lemma_step16(2, m236(), 0xbd0, c0_2(), 13, c0_3());
    lemma_step16(2, m236(), 0xbd0d, c0_3(), 1, c0_4());
    lemma_step16(2, m236(), 0xb_d0d1, c0_4(), 4, c0_5());
}

/// The chain that gives `v0`, up to its base-16 digit 12.
proof fn lemma_chain_0_1()
    ensures
        pw(2, 0xbd0d_14cf_78e7, m236()) == c0_11(),
{
    lemma_chain_0_0();
    lemma_step16(2, m236(), 0xbd_0d14, c0_5(), 12, c0_6());
    lemma_step16(2, m236(), 0xbd0_d14c, c0_6(), 15, c0_7());
    lemma_step16(2, m236(), 0xbd0d_14cf, c0_7(), 7, c0_8());
    lemma_step16(2, m236(), 0xb_d0d1_4cf7, c0_8(), 8, c0_9());
    lemma_step16(2, m236(), 0xbd_0d14_cf78, c0_9(), 14, c0_10());
    lemma_step16(2, m236(), 0xbd0_d14c_f78e, c0_10(), 7, c0_11());
}

/// The chain that gives `v0`, up to its base-16 digit 18.
proof fn lemma_chain_0_2()
    ensures
        pw(2, 0xbd_0d14_cf78_e752_1a32nat, m236()) == c0_17(),
{
    lemma_chain_0_1();
    lemma_step16(2, m236(), 0xbd0d_14cf_78e7, c0_11(), 5, c0_12());
    lemma_step16(2, m236(), 0xb_d0d1_4cf7_8e75, c0_12(), 2, c0_13());
    lemma_step16(2, m236(), 0xbd_0d14_cf78_e752, c0_13(), 1, c0_14());
    lemma_step16(2, m236(), 0xbd0_d14c_f78e_7521, c0_14(), 10, c0_15());
    lemma_step16(2, m236(), 0xbd0d_14cf_78e7_521anat, c0_15(), 3, c0_16());
    lemma_step16(2, m236(), 0xb_d0d1_4cf7_8e75_21a3nat, c0_16(), 2, c0_17());
}

/// The chain that gives `v0`, up to its base-16 digit 24.
proof fn lemma_chain_0_3()
    ensures
        pw(2, 0xbd0d_14cf_78e7_521a_3291_88e9nat, m236()) == c0_23(),
{
    lemma_chain_0_2();
    lemma_step16(2, m236(), 0xbd_0d14_cf78_e752_1a32nat, c0_17(), 9, c0_18());
    lemma_step16(2, m236(), 0xbd0_d14c_f78e_7521_a329nat, c0_18(), 1, c0_19());
    lemma_step16(2, m236(), 0xbd0d_14cf_78e7_521a_3291nat, c0_19(), 8, c0_20());
    lemma_step16(2, m236(), 0xb_d0d1_4cf7_8e75_21a3_2918nat, c0_20(), 8, c0_21());
    lemma_step16(2, m236(), 0xbd_0d14_cf78_e752_1a32_9188nat, c0_21(), 14, c0_22());
    lemma_step16(2, m236(), 0xbd0_d14c_f78e_7521_a329_188enat, c0_22(), 9, c0_23());
}

/// The chain of squarings and multiplications that gives `v0`.
proof fn lemma_chain_0()
    ensures
        pw(2, 981609426360740691344999861639072106nat, m236()) == v0(),
{
    lemma_chain_0_3();
    lemma_step16(2, m236(), 0xbd0d_14cf_78e7_521a_3291_88e9nat, c0_23(), 15, c0_24());
    lemma_step16(2, m236(), 0xb_d0d1_4cf7_8e75_21a3_2918_8e9fnat, c0_24(), 10, c0_25());
    lemma_step16(2, m236(), 0xbd_0d14_cf78_e752_1a32_9188_e9fanat, c0_25(), 4, c0_26());
    lemma_step16(2, m236(), 0xbd0_d14c_f78e_7521_a329_188e_9fa4nat, c0_26(), 9, c0_27());
    lemma_step16(2, m236(), 0xbd0d_14cf_78e7_521a_3291_88e9_fa49nat, c0_27(), 6, c0_28());
    lemma_step16(2, m236(), 0xb_d0d1_4cf7_8e75_21a3_2918_8e9f_a496nat, c0_28(), 10, v0());
}

/// 2 to the power of a number of 116 bits, modulo the prime.
#[verifier::inline]
spec fn v1() -> nat {
    12028795754443061098352619726137803606639148464926313402822751561221665nat
}

/// The residue after 2 digits of the chain that gives `v1`.
#[verifier::inline]
spec fn c1_1() -> nat {
    6901746346790563787434755862277025452451108972170386555162524223799296nat
}

/// The residue after 3 digits of the chain that gives `v1`.
#[verifier::inline]
spec fn c1_2() -> nat {
    1169201309864722334562947866173026415724746034380800000000000000nat
}

/// The residue after 4 digits of the chain that gives `v1`.
#[verifier::inline]
spec fn c1_3() -> nat {
    66698715157804861363791574242756540662678396703725542899213802658352068nat
}

/// The residue after 5 digits of the chain that gives `v1`.
#[verifier::inline]
spec fn c1_4() -> nat {
    16035672355455745177164414221462867729639214059821159384157000556685623nat
}

/// The residue after 6 digits of the chain that gives `v1`.
#[verifier::inline]
spec fn c1_5() -> nat {
    35771153622137954607595547715342848812326178912179916252834645087950738nat
}

/// The residue after 7 digits of the chain that gives `v1`.
#[verifier::inline]
spec fn c1_6() -> nat {
    65641247300324986914300934467711693219268799709683144229179660822014535nat
}

/// The residue after 8 digits of the chain that gives `v1`.
#[verifier::inline]
spec fn c1_7() -> nat {
    4050249754766887530613232038458218092283334795320951087434556201298077nat
}

/// The residue after 9 digits of the chain that gives `v1`.
#[verifier::inline]
spec fn c1_8() -> nat {
    66045690510733036049727727322263458573509906584909678343695419320352417nat
}

/// The residue after 10 digits of the chain that gives `v1`.
#[verifier::inline]
spec fn c1_9() -> nat {
    6914608192435617364088185195106456997279271893861669889841022105575523nat
}

/// The residue after 11 digits of the chain that gives `v1`.
#[verifier::inline]
spec fn c1_10() -> nat {
    37554741173668752859331871015089120323286935399964555976610851528369774nat
}

/// The residue after 12 digits of the chain that gives `v1`.
#[verifier::inline]
spec fn c1_11() -> nat {
    42839013587086285881851369535629238944226440904123096000233692362302336nat
}

/// The residue after 13 digits of the chain that gives `v1`.
#[verifier::inline]
spec fn c1_12() -> nat {
    23238448186901621734309346377340101611976935527331942014303164053208165nat
}

/// The residue after 14 digits of the chain that gives `v1`.
#[verifier::inline]
spec fn c1_13() -> nat {
    52480443903933624014596264655580259394859359211784384266613733438314868nat
}

/// The residue after 15 digits of the chain that gives `v1`.
#[verifier::inline]
spec fn c1_14() -> nat {
    47783157423915297112934521407372974552431480311629582700848318745040675nat
}

/// The residue after 16 digits of the chain that gives `v1`.
#[verifier::inline]
spec fn c1_15() -> nat {
    20222928277866835199430463930549876592303780880237693886396043917239659nat
}

/// The residue after 17 digits of the chain that gives `v1`.
#[verifier::inline]
spec fn c1_16() -> nat {
    67409994804512964448429792229970949876429226598297707567775831786605477nat
}

/// The residue after 18 digits of the chain that gives `v1`.
#[verifier::inline]
spec fn c1_17() -> nat {
    72701079234503594901005969979700190787790205986496422752345348387065131nat
}

/// The residue after 19 digits of the chain that gives `v1`.
#[verifier::inline]
spec fn c1_18() -> nat {
    54706244107882233684241793481240644305779364970287608669565974184280483nat
}

/// The residue after 20 digits of the chain that gives `v1`.
#[verifier::inline]
spec fn c1_19() -> nat {
    32694393764220323739511918628779785213595561347766562138750033561323044nat
}

/// The residue after 21 digits of the chain that gives `v1`.
#[verifier::inline]
spec fn c1_20() -> nat {
    26157524542067876722566748272916407157765240019157149312035538008806853nat
}

/// The residue after 22 digits of the chain that gives `v1`.
#[verifier::inline]
spec fn c1_21() -> nat {
    12517706350909992135024348933679590272322036797549819153586095999391985nat
}

/// The residue after 23 digits of the chain that gives `v1`.
#[verifier::inline]
spec fn c1_22() -> nat {
    36409875244090282520232046497092182061331909076726779980657370368067846nat
}

/// The residue after 24 digits of the chain that gives `v1`.
#[verifier::inline]
spec fn c1_23() -> nat {
    5581292020889313548399165459418473635744567302401268075291708497897790nat
}

/// The residue after 25 digits of the chain that gives `v1`.
#[verifier::inline]
spec fn c1_24() -> nat {
    23958646603381421053623578172301786356276624052364859249868664603779581nat
}

/// The residue after 26 digits of the chain that gives `v1`.
#[verifier::inline]
spec fn c1_25() -> nat {
    41736840565349111565624308956685042520449655181619934554041682586987691nat
}

/// The residue after 27 digits of the chain that gives `v1`.
#[verifier::inline]
spec fn c1_26() -> nat {
    48621673967670287471733998348951505581085209915651698765695184305629116nat
}

/// The residue after 28 digits of the chain that gives `v1`.
#[verifier::inline]
spec fn c1_27() -> nat {
    68666863546769902188282300536031768149378672709234944884303704502376417nat
}

/// The chain that gives `v1`, up to its base-16 digit 6.
proof fn lemma_chain_1_0()
    ensures
        pw(2, 0xe8_7c2a, m236()) == c1_5(),
{
    lemma_pw_zero(2, m236());
    lemma_step16(2, m236(), 0x0, 1, 14, 16384);
    lemma_step16(2, m236(), 0xe, 16384, 8, c1_1());
    lemma_step16(2, m236(), 0xe8, c1_1(), 7, c1_2());
    lemma_step16(2, m236(), 0xe87, c1_2(), 12, c1_3());
    lemma_step16(2, m236(), 0xe87c, c1_3(), 2, c1_4());
    lemma_step16(2, m236(), 0xe_87c2, c1_4(), 10, c1_5());
}

/// The chain that gives `v1`, up to its base-16 digit 12.
proof fn lemma_chain_1_1()
    ensures
        pw(2, 0xe87c_2a47_7b81, m236()) == c1_11(),
{
    lemma_chain_1_0();
    lemma_step16(2, m236(), 0xe8_7c2a, c1_5(), 4, c1_6());
    lemma_step16(2, m236(), 0xe87_c2a4, c1_6(), 7, c1_7());
    lemma_step16(2, m236(), 0xe87c_2a47, c1_7(), 7, c1_8());
    lemma_step16(2, m236(), 0xe_87c2_a477, c1_8(), 11, c1_9());
    lemma_step16(2, m236(), 0xe8_7c2a_477b, c1_9(), 8, c1_10());
    lemma_step16(2, m236(), 0xe87_c2a4_77b8, c1_10(), 1, c1_11());
}

/// The chain that gives `v1`, up to its base-16 digit 18.
proof fn lemma_chain_1_2()
    ensures
        pw(2, 0xe8_7c2a_477b_815a_1793nat, m236()) == c1_17(),
{
    lemma_chain_1_1();
    lemma_step16(2, m236(), 0xe87c_2a47_7b81, c1_11(), 5, c1_12());
    lemma_step16(2, m236(), 0xe_87c2_a477_b815, c1_12(), 10, c1_13());
    lemma_step16(2, m236(), 0xe8_7c2a_477b_815a, c1_13(), 1, c1_14());
    lemma_step16(2, m236(), 0xe87_c2a4_77b8_15a1, c1_14(), 7, c1_15());
    lemma_step16(2, m236(), 0xe87c_2a47_7b81_5a17nat, c1_15(), 9, c1_16());
    lemma_step16(2, m236(), 0xe_87c2_a477_b815_a179nat, c1_16(), 3, c1_17());
}

/// The chain that gives `v1`, up to its base-16 digit 24.
proof fn lemma_chain_1_3()
    ensures
        pw(2, 0xe87c_2a47_7b81_5a17_9378_7395nat, m236()) == c1_23(),
{
    lemma_chain_1_2();
    lemma_step16(2, m236(), 0xe8_7c2a_477b_815a_1793nat, c1_17(), 7, c1_18());
    lemma_step16(2, m236(), 0xe87_c2a4_77b8_15a1_7937nat, c1_18(), 8, c1_19());
    lemma_step16(2, m236(), 0xe87c_2a47_7b81_5a17_9378nat, c1_19(), 7, c1_20());
    lemma_step16(2, m236(), 0xe_87c2_a477_b815_a179_3787nat, c1_20(), 3, c1_21());
    lemma_step16(2, m236(), 0xe8_7c2a_477b_815a_1793_7873nat, c1_21(), 9, c1_22());
    lemma_step16(2, m236(), 0xe87_c2a4_77b8_15a1_7937_8739nat, c1_22(), 5, c1_23());
}

/// The chain of squarings and multiplications that gives `v1`.
proof fn lemma_chain_1()
    ensures
        pw(2, 75445702479781427272750846543864801nat, m236()) == v1(),
{
    lemma_chain_1_3();
    lemma_step16(2, m236(), 0xe87c_2a47_7b81_5a17_9378_7395nat, c1_23(), 11, c1_24());
    lemma_step16(2, m236(), 0xe_87c2_a477_b815_a179_3787_395bnat, c1_24(), 2, c1_25());
    lemma_step16(2, m236(), 0xe8_7c2a_477b_815a_1793_7873_95b2nat, c1_25(), 3, c1_26());
    lemma_step16(2, m236(), 0xe87_c2a4_77b8_15a1_7937_8739_5b23nat, c1_26(), 14, c1_27());
    lemma_step16(2, m236(), 0xe87c_2a47_7b81_5a17_9378_7395_b23enat, c1_27(), 1, v1());
}

/// `v1` to the power of a number of 65 bits, modulo the prime.
#[verifier::inline]
spec fn v2() -> nat {
    50366660687963342066214195241331738400016478712605795091965648721912165nat
}

/// The residue after 1 digits of the chain that gives `v2`.
#[verifier::inline]
spec fn c2_0() -> nat {
    12028795754443061098352619726137803606639148464926313402822751561221665nat
}

/// The residue after 2 digits of the chain that gives `v2`.
#[verifier::inline]
spec fn c2_1() -> nat {
    32190098748041979239959018556853968314248995481624642199723533143687158nat
}

/// The residue after 3 digits of the chain that gives `v2`.
#[verifier::inline]
spec fn c2_2() -> nat {
    33422848698014327649238734947796911785360518304671779663616129216639598nat
}

/// The residue after 4 digits of the chain that gives `v2`.
#[verifier::inline]
spec fn c2_3() -> nat {
    62554899177097794814747963620722791518745886587062611097002305458409433nat
}

/// The residue after 5 digits of the chain that gives `v2`.
#[verifier::inline]
spec fn c2_4() -> nat {
    20955780968939137526743328375845548148804091825158782217491260839642146nat
}

/// The residue after 6 digits of the chain that gives `v2`.
#[verifier::inline]
spec fn c2_5() -> nat {
    53369743447201087325543260260233624351505450026008084784227322153674154nat
}

/// The residue after 7 digits of the chain that gives `v2`.
#[verifier::inline]
spec fn c2_6() -> nat {
    4244813437931173079356481343893633486236238546728214117305776430630010nat
}

/// The residue after 8 digits of the chain that gives `v2`.
#[verifier::inline]
spec fn c2_7() -> nat {
    18060129879859249873748065745132489598720652038645881618450439315296040nat
}

/// The residue after 9 digits of the chain that gives `v2`.
#[verifier::inline]
spec fn c2_8() -> nat {
    8788516120178422900396899510969008042160897853950372921578908571628703nat
}

/// The residue after 10 digits of the chain that gives `v2`.
#[verifier::inline]
spec fn c2_9() -> nat {
    35697166636908382264166658896345674936278139153677025229342226294481724nat
}

/// The residue after 11 digits of the chain that gives `v2`.
#[verifier::inline]
spec fn c2_10() -> nat {
    55980492302721883746841025705125772950461654601902450763121533586206877nat
}

/// The residue after 12 digits of the chain that gives `v2`.
#[verifier::inline]
spec fn c2_11() -> nat {
    31028282957771624423427755456705727423454997916004957741482800963038982nat
}

/// The residue after 13 digits of the chain that gives `v2`.
#[verifier::inline]
spec fn c2_12() -> nat {
    16763831367334662944739939640024564280406033435056171403099849152012755nat
}

/// The residue after 14 digits of the chain that gives `v2`.
#[verifier::inline]
spec fn c2_13() -> nat {
    42089445333830788040032459158823367299018994363963694018935122839491506nat
}

/// The residue after 15 digits of the chain that gives `v2`.
#[verifier::inline]
spec fn c2_14() -> nat {
    28032596616340573568295984232647753250136927448974804944084818347426501nat
}

/// The residue after 16 digits of the chain that gives `v2`.
#[verifier::inline]
spec fn c2_15() -> nat {
    44566392845552681438419610833095624848192168948701577614067216160145879nat
}

/// The chain that gives `v2`, up to its base-16 digit 6.
proof fn lemma_chain_2_0()
    ensures
        pw(v1(), 0x1a_cf3d, m236()) == c2_5(),
{
    lemma_pw_zero(v1(), m236());
    lemma_step16(v1(), m236(), 0x0, 1, 1, c2_0());
    lemma_step16(v1(), m236(), 0x1, c2_0(), 10, c2_1());
    lemma_step16(v1(), m236(), 0x1a, c2_1(), 12, c2_2());
    lemma_step16(v1(), m236(), 0x1ac, c2_2(), 15, c2_3());
    lemma_step16(v1(), m236(), 0x1acf, c2_3(), 3, c2_4());
    lemma_step16(v1(), m236(), 0x1_acf3, c2_4(), 13, c2_5());
}

/// The chain that gives `v2`, up to its base-16 digit 12.
proof fn lemma_chain_2_1()
    ensures
        pw(v1(), 0x1acf_3d45_2c4c, m236()) == c2_11(),
{
    lemma_chain_2_0();
    lemma_step16(v1(), m236(), 0x1a_cf3d, c2_5(), 4, c2_6());
    lemma_step16(v1(), m236(), 0x1ac_f3d4, c2_6(), 5, c2_7());
    lemma_step16(v1(), m236(), 0x1acf_3d45, c2_7(), 2, c2_8());
    lemma_step16(v1(), m236(), 0x1_acf3_d452, c2_8(), 12, c2_9());
    lemma_step16(v1(), m236(), 0x1a_cf3d_452c, c2_9(), 4, c2_10());
    lemma_step16(v1(), m236(), 0x1ac_f3d4_52c4, c2_10(), 12, c2_11());
}

/// The chain of squarings and multiplications that gives `v2`.
proof fn lemma_chain_2()
    ensures
        pw(v1(), 30909282119527343802nat, m236()) == v2(),
{
    lemma_chain_2_1();
    lemma_step16(v1(), m236(), 0x1acf_3d45_2c4c, c2_11(), 2, c2_12());
    lemma_step16(v1(), m236(), 0x1_acf3_d452_c4c2, c2_12(), 10, c2_13());
    lemma_step16(v1(), m236(), 0x1a_cf3d_452c_4c2a, c2_13(), 6, c2_14());
    lemma_step16(v1(), m236(), 0x1ac_f3d4_52c4_c2a6, c2_14(), 11, c2_15());
    lemma_step16(v1(), m236(), 0x1acf_3d45_2c4c_2a6b, c2_15(), 10, v2());
}

/// `v1` to the power 31757755568855353, modulo the prime.
#[verifier::inline]
spec fn v3() -> nat {
    67816889464412144451307943517471138534925109049902135029754245048730493nat
}

/// The residue after 1 digits of the chain that gives `v3`.
#[verifier::inline]
spec fn c3_0() -> nat {
    61778607919787546471383161063826745265238092446734507786336448087218053nat
}

/// The residue after 2 digits of the chain that gives `v3`.
#[verifier::inline]
spec fn c3_1() -> nat {
    24583202625986331604281808344328853842436292874277446732231658369433634nat
}

/// The residue after 3 digits of the chain that gives `v3`.
#[verifier::inline]
spec fn c3_2() -> nat {
    14013168918733796885768142976409348997436132077333334658599382925727007nat
}

/// The residue after 4 digits of the chain that gives `v3`.
#[verifier::inline]
spec fn c3_3() -> nat {
    4217782913376515104756900107636558075272387669663895544093871617242027nat
}

/// The residue after 5 digits of the chain that gives `v3`.
#[verifier::inline]
spec fn c3_4() -> nat {
    67772289422947290549292226027721351340660191876298908526603679357240066nat
}

/// The residue after 6 digits of the chain that gives `v3`.
#[verifier::inline]
spec fn c3_5() -> nat {
    69629339552537904538241968382292932231859435784920083876327410404759446nat
}

/// The residue after 7 digits of the chain that gives `v3`.
#[verifier::inline]
spec fn c3_6() -> nat {
    36741327340765066457191981900742820768357291216662351986037856300470131nat
}

/// The residue after 8 digits of the chain that gives `v3`.
#[verifier::inline]
spec fn c3_7() -> nat {
    38935963279279114501126869416578814536946914824933324711284050772254440nat
}

/// The residue after 9 digits of the chain that gives `v3`.
#[verifier::inline]
spec fn c3_8() -> nat {
    7005052855617928256336205889283193448891041877179529639285641103776516nat
}

/// The residue after 10 digits of the chain that gives `v3`.
#[verifier::inline]
spec fn c3_9() -> nat {
    73749602702061338307774750383941221246090490704913095328079407923731287nat
}

/// The residue after 11 digits of the chain that gives `v3`.
#[verifier::inline]
spec fn c3_10() -> nat {
    25624818207950910597647108785829472237631197206768220847198493353668203nat
}

/// The residue after 12 digits of the chain that gives `v3`.
#[verifier::inline]
spec fn c3_11() -> nat {
    45013128891335782967741102275926011233451730880978797480018842491959331nat
}

/// The residue after 13 digits of the chain that gives `v3`.
#[verifier::inline]
spec fn c3_12() -> nat {
    1559334342200221833771075565563341529426289216001161077754593975054014nat
}

/// The chain that gives `v3`, up to its base-16 digit 6.
proof fn lemma_chain_3_0()
    ensures
        pw(v1(), 0x70_d382, m236()) == c3_5(),
{
    lemma_pw_zero(v1(), m236());
    lemma_step16(v1(), m236(), 0x0, 1, 7, c3_0());
    lemma_step16(v1(), m236(), 0x7, c3_0(), 0, c3_1());
    lemma_step16(v1(), m236(), 0x70, c3_1(), 13, c3_2());
    lemma_step16(v1(), m236(), 0x70d, c3_2(), 3, c3_3());
    lemma_step16(v1(), m236(), 0x70d3, c3_3(), 8, c3_4());
    lemma_step16(v1(), m236(), 0x7_0d38, c3_4(), 2, c3_5());
}

/// The chain that gives `v3`, up to its base-16 digit 12.
proof fn lemma_chain_3_1()
    ensures
        pw(v1(), 0x70d3_82ab_8b99, m236()) == c3_11(),
{
    lemma_chain_3_0();
    lemma_step16(v1(), m236(), 0x70_d382, c3_5(), 10, c3_6());
    lemma_step16(v1(), m236(), 0x70d_382a, c3_6(), 11, c3_7());
    lemma_step16(v1(), m236(), 0x70d3_82ab, c3_7(), 8, c3_8());
    lemma_step16(v1(), m236(), 0x7_0d38_2ab8, c3_8(), 11, c3_9());
    lemma_step16(v1(), m236(), 0x70_d382_ab8b, c3_9(), 9, c3_10());
    lemma_step16(v1(), m236(), 0x70d_382a_b8b9, c3_10(), 9, c3_11());
}

/// The chain of squarings and multiplications that gives `v3`.
proof fn lemma_chain_3()
    ensures
        pw(v1(), 31757755568855353, m236()) == v3(),
{
    lemma_chain_3_1();
    lemma_step16(v1(), m236(), 0x70d3_82ab_8b99, c3_11(), 3, c3_12());
    lemma_step16(v1(), m236(), 0x7_0d38_2ab8_b993, c3_12(), 9, v3());
}

/// `v3` to the power 16072358032194, modulo the prime.
#[verifier::inline]
spec fn v4() -> nat {
    52266576830164329332527201090776533817489900267135412990654516667243924nat
}

/// The residue after 1 digits of the chain that gives `v4`.
#[verifier::inline]
spec fn c4_0() -> nat {
    65803780633956855185708547091908581025859013056098021485507795102727816nat
}

/// The residue after 2 digits of the chain that gives `v4`.
#[verifier::inline]
spec fn c4_1() -> nat {
    38287768181270735341442351854609799918123052531587359146423022065447845nat
}

/// The residue after 3 digits of the chain that gives `v4`.
#[verifier::inline]
spec fn c4_2() -> nat {
    6447248424344704411166265789578846310981286044864194009573827359741753nat
}

/// The residue after 4 digits of the chain that gives `v4`.
#[verifier::inline]
spec fn c4_3() -> nat {
    12807541940147169574056284033305804529020347479999456428368363860784268nat
}

/// The residue after 5 digits of the chain that gives `v4`.
#[verifier::inline]
spec fn c4_4() -> nat {
    4407983696972306957639762777556136335792826776461608726391891484328705nat
}

/// The residue after 6 digits of the chain that gives `v4`.
#[verifier::inline]
spec fn c4_5() -> nat {
    32860247143116146864798993943111182149996859463471147302801035359474502nat
}

/// The residue after 7 digits of the chain that gives `v4`.
#[verifier::inline]
spec fn c4_6() -> nat {
    16830038962430085016813822383393358218147741585769099698895128361571288nat
}

/// The residue after 8 digits of the chain that gives `v4`.
#[verifier::inline]
spec fn c4_7() -> nat {
    19571802932083402117254224456376346887445950778637422626568543235304473nat
}

/// The residue after 9 digits of the chain that gives `v4`.
#[verifier::inline]
spec fn c4_8() -> nat {
    49287995412789632860651103602826527085688649559892207032680784299915290nat
}

/// The residue after 10 digits of the chain that gives `v4`.
#[verifier::inline]
spec fn c4_9() -> nat {
    14426181127933362825316156452630739883635676387029149327249938251985762nat
}

/// The chain that gives `v4`, up to its base-16 digit 6.
proof fn lemma_chain_4_0()
    ensures
        pw(v3(), 0xe9_e233, m236()) == c4_5(),
{
    lemma_pw_zero(v3(), m236());
    lemma_step16(v3(), m236(), 0x0, 1, 14, c4_0());
    lemma_step16(v3(), m236(), 0xe, c4_0(), 9, c4_1());
    lemma_step16(v3(), m236(), 0xe9, c4_1(), 14, c4_2());
    lemma_step16(v3(), m236(), 0xe9e, c4_2(), 2, c4_3());
    lemma_step16(v3(), m236(), 0xe9e2, c4_3(), 3, c4_4());
    lemma_step16(v3(), m236(), 0xe_9e23, c4_4(), 3, c4_5());
}

/// The chain of squarings and multiplications that gives `v4`.
proof fn lemma_chain_4()
    ensures
        pw(v3(), 16072358032194, m236()) == v4(),
{
    lemma_chain_4_0();
    lemma_step16(v3(), m236(), 0xe9_e233, c4_5(), 0, c4_6());
    lemma_step16(v3(), m236(), 0xe9e_2330, c4_6(), 15, c4_7());
    lemma_step16(v3(), m236(), 0xe9e2_330f, c4_7(), 3, c4_8());
    lemma_step16(v3(), m236(), 0xe_9e23_30f3, c4_8(), 4, c4_9());
    lemma_step16(v3(), m236(), 0xe9_e233_0f34, c4_9(), 2, v4());
}

/// `v3` to the power 1923133, modulo the prime.
#[verifier::inline]
spec fn v5() -> nat {
    68543533501683238383183881091753457764172591497109065308001025629056390nat
}

/// The residue after 1 digits of the chain that gives `v5`.
#[verifier::inline]
spec fn c5_0() -> nat {
    67816889464412144451307943517471138534925109049902135029754245048730493nat
}

/// The residue after 2 digits of the chain that gives `v5`.
#[verifier::inline]
spec fn c5_1() -> nat {
    15250403162492755854956120006164684372051001732445274521995790748440384nat
}

/// The residue after 3 digits of the chain that gives `v5`.
#[verifier::inline]
spec fn c5_2() -> nat {
    59175709630053125535542010556040288380968651436674308629172183937793141nat
}

/// The residue after 4 digits of the chain that gives `v5`.
#[verifier::inline]
spec fn c5_3() -> nat {
    1693169055220001364176095192715284228889586565494991002354754633278169nat
}

/// The residue after 5 digits of the chain that gives `v5`.
#[verifier::inline]
spec fn c5_4() -> nat {
    28761781004069304788059081782574059066046722901847292303818969519771372nat
}

/// The chain of squarings and multiplications that gives `v5`.
proof fn lemma_chain_5()
    ensures
        pw(v3(), 1923133, m236()) == v5(),
{
    lemma_pw_zero(v3(), m236());
    lemma_step16(v3(), m236(), 0x0, 1, 1, c5_0());
    lemma_step16(v3(), m236(), 0x1, c5_0(), 13, c5_1());
    lemma_step16(v3(), m236(), 0x1d, c5_1(), 5, c5_2());
    lemma_step16(v3(), m236(), 0x1d5, c5_2(), 8, c5_3());
    lemma_step16(v3(), m236(), 0x1d58, c5_3(), 3, c5_4());
    lemma_step16(v3(), m236(), 0x1_d583, c5_4(), 13, v5());
}

/// `v5` to the power 121715106, modulo the prime.
#[verifier::inline]
spec fn v6() -> nat {
    54871647690314810166557542068595163151590274869528630571075996285882505nat
}

/// The residue after 1 digits of the chain that gives `v6`.
#[verifier::inline]
spec fn c6_0() -> nat {
    17334755823786439015677162830467999458289656074620745589996233325384881nat
}

/// The residue after 2 digits of the chain that gives `v6`.
#[verifier::inline]
spec fn c6_1() -> nat {
    16218329567744019289990902384307608660239991868966177486403054374850007nat
}

/// The residue after 3 digits of the chain that gives `v6`.
#[verifier::inline]
spec fn c6_2() -> nat {
    74720390306975010364719262439702927941061404188140235427842079975829nat
}

/// The residue after 4 digits of the chain that gives `v6`.
#[verifier::inline]
spec fn c6_3() -> nat {
    44404026465698639053376209980891439146358783020128629815140543999013286nat
}

/// The residue after 5 digits of the chain that gives `v6`.
#[verifier::inline]
spec fn c6_4() -> nat {
    72760747400140984744596257157568343973258283882012654603849294313841538nat
}

/// The residue after 6 digits of the chain that gives `v6`.
#[verifier::inline]
spec fn c6_5() -> nat {
    18560279332220379510666494446589995024906566675380920735276968426561195nat
}

/// The chain that gives `v6`, up to its base-16 digit 6.
proof fn lemma_chain_6_0()
    ensures
        pw(v5(), 0x74_139a, m236()) == c6_5(),
{
    lemma_pw_zero(v5(), m236());
    lemma_step16(v5(), m236(), 0x0, 1, 7, c6_0());
    lemma_step16(v5(), m236(), 0x7, c6_0(), 4, c6_1());
    lemma_step16(v5(), m236(), 0x74, c6_1(), 1, c6_2());
    lemma_step16(v5(), m236(), 0x741, c6_2(), 3, c6_3());
    lemma_step16(v5(), m236(), 0x7413, c6_3(), 9, c6_4());
    lemma_step16(v5(), m236(), 0x7_4139, c6_4(), 10, c6_5());
}

/// The chain of squarings and multiplications that gives `v6`.
proof fn lemma_chain_6()
    ensures
        pw(v5(), 121715106, m236()) == v6(),
{
    lemma_chain_6_0();
    lemma_step16(v5(), m236(), 0x74_139a, c6_5(), 2, v6());
}

/// `v5` to the power 132049, modulo the prime.
#[verifier::inline]
spec fn v7() -> nat {
    64389100362968974462705508069331822568327007520842409104026311771481081nat
}

/// The residue after 1 digits of the chain that gives `v7`.
#[verifier::inline]
spec fn c7_0() -> nat {
    59518212427334799835582537100872584206391749148077855906999586906039137nat
}

/// The residue after 2 digits of the chain that gives `v7`.
#[verifier::inline]
spec fn c7_1() -> nat {
    9769498254195508833643763454347220105665510851630220714972216101859528nat
}

/// The residue after 3 digits of the chain that gives `v7`.
#[verifier::inline]
spec fn c7_2() -> nat {
    17808253732508745094004087103653628868601529500035226409524500132730795nat
}

/// The residue after 4 digits of the chain that gives `v7`.
#[verifier::inline]
spec fn c7_3() -> nat {
    32964961891720847317432542402605979818989789777279082656438993577713112nat
}

/// The chain of squarings and multiplications that gives `v7`.
proof fn lemma_chain_7()
    ensures
        pw(v5(), 132049, m236()) == v7(),
{
    lemma_pw_zero(v5(), m236());
    lemma_step16(v5(), m236(), 0x0, 1, 2, c7_0());
    lemma_step16(v5(), m236(), 0x2, c7_0(), 0, c7_1());
    lemma_step16(v5(), m236(), 0x20, c7_1(), 3, c7_2());
    lemma_step16(v5(), m236(), 0x203, c7_2(), 13, c7_3());
    lemma_step16(v5(), m236(), 0x203d, c7_3(), 1, v7());
}

/// `v7` to the power 2118, modulo the prime.
#[verifier::inline]
spec fn v8() -> nat {
    34423717228876157273670922671787235583289084632054732964365754153055025nat
}

/// The residue after 1 digits of the chain that gives `v8`.
#[verifier::inline]
spec fn c8_0() -> nat {
    44695427155641514532515904668865125464866971244813332470293268045489012nat
}

/// The residue after 2 digits of the chain that gives `v8`.
#[verifier::inline]
spec fn c8_1() -> nat {
    70087613059333244016468015303656072516926204686808330428121331684881014nat
}

/// The chain of squarings and multiplications that gives `v8`.
proof fn lemma_chain_8()
    ensures
        pw(v7(), 2118, m236()) == v8(),
{
    lemma_pw_zero(v7(), m236());
    lemma_step16(v7(), m236(), 0x0, 1, 8, c8_0());
    lemma_step16(v7(), m236(), 0x8, c8_0(), 4, c8_1());
    lemma_step16(v7(), m236(), 0x84, c8_1(), 6, v8());
}

/// `v7` to the power 57467, modulo the prime.
#[verifier::inline]
spec fn v9() -> nat {
    62105236810044423022322937420332547745930190099233177757385128511430953nat
}

/// The residue after 1 digits of the chain that gives `v9`.
#[verifier::inline]
spec fn c9_0() -> nat {
    54645083389439348073715543317042840023836746247909759134609750334606704nat
}

/// The residue after 2 digits of the chain that gives `v9`.
#[verifier::inline]
spec fn c9_1() -> nat {
    55753142581760268814197632422781827960201891003376082430479354661599098nat
}

/// The residue after 3 digits of the chain that gives `v9`.
#[verifier::inline]
spec fn c9_2() -> nat {
    56620182571645494674640146058369130952593086007708918202013846570416024nat
}

/// The chain of squarings and multiplications that gives `v9`.
proof fn lemma_chain_9()
    ensures
        pw(v7(), 57467, m236()) == v9(),
{
    lemma_pw_zero(v7(), m236());
    lemma_step16(v7(), m236(), 0x0, 1, 14, c9_0());
    lemma_step16(v7(), m236(), 0xe, c9_0(), 0, c9_1());
    lemma_step16(v7(), m236(), 0xe0, c9_1(), 7, c9_2());
    lemma_step16(v7(), m236(), 0xe07, c9_2(), 11, v9());
}

/// `v9` to the power 6, modulo the prime.
#[verifier::inline]
spec fn v10() -> nat {
    8562916886866218785688304546164188478888058893729309188831496247839076nat
}

/// The chain of squarings and multiplications that gives `v10`.
proof fn lemma_chain_10()
    ensures
        pw(v9(), 6, m236()) == v10(),
{
    lemma_pw_zero(v9(), m236());
    lemma_step16(v9(), m236(), 0x0, 1, 6, v10());
}

/// `v9` to the power 353, modulo the prime.
#[verifier::inline]
spec fn v11() -> nat {
    30397109428614726089754189191956088611235801571633239974164411255784156nat
}

/// The residue after 1 digits of the chain that gives `v11`.
#[verifier::inline]
spec fn c11_0() -> nat {
    62105236810044423022322937420332547745930190099233177757385128511430953nat
}

/// The residue after 2 digits of the chain that gives `v11`.
#[verifier::inline]
spec fn c11_1() -> nat {
    12883978995576343934830674434911136463726196250526431701820828099222485nat
}

/// The chain of squarings and multiplications that gives `v11`.
proof fn lemma_chain_11()
    ensures
        pw(v9(), 353, m236()) == v11(),
{
    lemma_pw_zero(v9(), m236());
    lemma_step16(v9(), m236(), 0x0, 1, 1, c11_0());
    lemma_step16(v9(), m236(), 0x1, c11_0(), 6, c11_1());
    lemma_step16(v9(), m236(), 0x16, c11_1(), 1, v11());
}

/// `v11` to the power 2, modulo the prime.
#[verifier::inline]
spec fn v12() -> nat {
    30397109428614726089754189191956088611235801571633239974164411255784155nat
}

/// The chain of squarings and multiplications that gives `v12`.
proof fn lemma_chain_12()
    ensures
        pw(v11(), 2, m236()) == v12(),
{
    lemma_pw_zero(v11(), m236());
    lemma_step16(v11(), m236(), 0x0, 1, 2, v12());
}

/// `v11` to the power 3, modulo the prime.
#[verifier::inline]
spec fn v13() -> nat {
    74058212732561358302231226437062788676166966415465897661863160754340906nat
}

/// The chain of squarings and multiplications that gives `v13`.
proof fn lemma_chain_13()
    ensures
        pw(v11(), 3, m236()) == v13(),
{
    lemma_pw_zero(v11(), m236());
    lemma_step16(v11(), m236(), 0x0, 1, 3, v13());
}

/// `v13` to the power 2, modulo the prime.
#[verifier::inline]
spec fn v14() -> nat {
    1
}

/// The chain of squarings and multiplications that gives `v14`.
proof fn lemma_chain_14()
    ensures
        pw(v13(), 2, m236()) == v14(),
{
    lemma_pw_zero(v13(), m236());
    lemma_step16(v13(), m236(), 0x0, 1, 2, v14());
}

/// The prime of 236 bits is a prime: 2 is a generator modulo it.
pub proof fn lemma_prime_m236()
    ensures
        is_prime(m236()),
        is_generator(2, m236()),
{
    lemma_prime_2();
    lemma_prime_by_trial(3);
    lemma_prime_by_trial(353);
    lemma_prime_by_trial(57467);
    lemma_prime_132049();
    lemma_prime_1923133();
    lemma_prime_m55();
    lemma_prime_m116();
    lemma_pw_one(2, m236());
    lemma_chain_0();
    lemma_pw_mul(2, 1, 981609426360740691344999861639072106nat, m236());
    lemma_chain_1();
    lemma_pw_mul(2, 1, 75445702479781427272750846543864801nat, m236());
    lemma_chain_2();
    lemma_pw_mul(2, 75445702479781427272750846543864801nat, 30909282119527343802nat, m236());
    lemma_chain_3();
    lemma_pw_mul(2, 75445702479781427272750846543864801nat, 31757755568855353, m236());
    lemma_chain_4();
    lemma_pw_mul(
        2,
        2395986178073482737347378734667165195040796357129753nat,
        16072358032194,
        m236(),
    );
    lemma_chain_5();
    lemma_pw_mul(2, 2395986178073482737347378734667165195040796357129753nat, 1923133, m236());
    lemma_chain_6();
    lemma_pw_mul(
        2,
        4607800086596991077123076508136669403034391820676013276149nat,
        121715106,
        m236(),
    );
    lemma_chain_7();
    lemma_pw_mul(2, 4607800086596991077123076508136669403034391820676013276149nat, 132049, m236());
    lemma_chain_8();
    lemma_pw_mul(
        2,
        608455393635046074743025129822939058001288405528446877102199301nat,
        2118,
        m236(),
    );
    lemma_chain_9();
    lemma_pw_mul(
        2,
        608455393635046074743025129822939058001288405528446877102199301nat,
        57467,
        m236(),
    );
    lemma_chain_10();
    lemma_pw_mul(
        2,
        34966106106025192777257425135534838846160040800503256686432087230567nat,
        6,
        m236(),
    );
    lemma_chain_11();
    lemma_pw_mul(
        2,
        34966106106025192777257425135534838846160040800503256686432087230567nat,
        353,
        m236(),
    );
    lemma_chain_12();
    lemma_pw_mul(
        2,
        12343035455426893050371871072843798112694494402577649610310526792390151nat,
        2,
        m236(),
    );
    lemma_chain_13();
    lemma_pw_mul(
        2,
        12343035455426893050371871072843798112694494402577649610310526792390151nat,
        3,
        m236(),
    );
    lemma_chain_14();
    lemma_pw_mul(
        2,
        37029106366280679151115613218531394338083483207732948830931580377170453nat,
        2,
        m236(),
    );
    assert forall|q: nat| is_prime(q) && (m236() - 1) % (q as int) == 0 implies pw(
        2,
        ((m236() - 1) / (q as int)) as nat,
        m236(),
    ) != 1 by {
        lemma_prime_factor_split(q, 2, 37029106366280679151115613218531394338083483207732948830931580377170453nat);
        if q != 2 {
            lemma_prime_factor_split(q, 3, 12343035455426893050371871072843798112694494402577649610310526792390151nat);
            if q != 3 {
                lemma_prime_factor_split(q, 353, 34966106106025192777257425135534838846160040800503256686432087230567nat);
                if q != 353 {
                    lemma_prime_factor_split(q, 57467, 608455393635046074743025129822939058001288405528446877102199301nat);
                    if q != 57467 {
                        lemma_prime_factor_split(q, 132049, 4607800086596991077123076508136669403034391820676013276149nat);
                        if q != 132049 {
                            lemma_prime_factor_split(q, 1923133, 2395986178073482737347378734667165195040796357129753nat);
                            if q != 1923133 {
                                lemma_prime_factor_split(q, m55(), 75445702479781427272750846543864801nat);
                                if q != m55() {
                                    lemma_prime_factor_split(q, m116(), 1);
                                    if q != m116() {
                                        lemma_small_mod(1, q);
                                    }
                                }
                            }
                        }
                    }
                }
            }
        }
    }
    lemma_lucas(2, m236());
    lemma_generator_gives_prime(2, m236());
}

} // verus!
