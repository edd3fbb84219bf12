//! Power residues digit by digit: one step raises a residue to the sixteenth power and
//! multiplies by the base as often as the next base-16 digit of the exponent says. The step is
//! written as a product, so that on literals the solver computes it.

use crate::numtheory::{lemma_pw_add, lemma_pw_mul, pw};
use vstd::arithmetic::div_mod::{lemma_mul_mod_noop, lemma_small_mod};
use vstd::arithmetic::mul::lemma_mul_is_associative;
use vstd::arithmetic::power::{lemma_pow0, lemma_pow1, lemma_pow_adds, pow};
use vstd::prelude::*;

verus! {

/// The sixteenth power, written as a product.
pub open spec fn pow16(x: nat) -> nat {
    x * x * x * x * x * x * x * x * x * x * x * x * x * x * x * x
}

/// `acc` times `t` to the power of the base-16 digit `d`, written as a product.
pub open spec fn mul_pow(acc: nat, t: nat, d: nat) -> nat {
    if d == 0 {
        acc
    } else if d == 1 {
        acc * t
    } else if d == 2 {
        acc * t * t
    } else if d == 3 {
        acc * t * t * t
    } else if d == 4 {
        acc * t * t * t * t
    } else if d == 5 {
        acc * t * t * t * t * t
    } else if d == 6 {
        acc * t * t * t * t * t * t
    } else if d == 7 {
        acc * t * t * t * t * t * t * t
    } else if d == 8 {
        acc * t * t * t * t * t * t * t * t
    } else if d == 9 {
        acc * t * t * t * t * t * t * t * t * t
    } else if d == 10 {
        acc * t * t * t * t * t * t * t * t * t * t
    } else if d == 11 {
        acc * t * t * t * t * t * t * t * t * t * t * t
    } else if d == 12 {
        acc * t * t * t * t * t * t * t * t * t * t * t * t
    } else if d == 13 {
        acc * t * t * t * t * t * t * t * t * t * t * t * t * t
    } else if d == 14 {
        acc * t * t * t * t * t * t * t * t * t * t * t * t * t * t
    } else {
        acc * t * t * t * t * t * t * t * t * t * t * t * t * t * t * t
    }
}

/// One more factor raises the power by one.
proof fn lemma_one_more(acc: int, x: int, k: nat)
    ensures
        (acc * pow(x, k)) * x == acc * pow(x, k + 1),
{
    lemma_pow_adds(x, k, 1);
    lemma_pow1(x);
    lemma_mul_is_associative(acc, pow(x, k), x);
}

/// The product form of the sixteenth power is the sixteenth power.
proof fn lemma_pow16(x: nat)
    ensures
        pow16(x) == pow(x as int, 16),
{
    let y = x as int;
    lemma_pow0(y);
    lemma_products(1, y);
    assert(1 * pow(y, 16) == pow(y, 16));
    assert(1 * y == y);
}

/// The products of `acc` with one to sixteen factors `x` are its products with the powers
/// of `x`.
proof fn lemma_products(acc: int, x: int)
    ensures
        acc == acc * pow(x, 0),
        acc * x == acc * pow(x, 1),
        acc * x * x == acc * pow(x, 2),
        acc * x * x * x == acc * pow(x, 3),
        acc * x * x * x * x == acc * pow(x, 4),
        acc * x * x * x * x * x == acc * pow(x, 5),
        acc * x * x * x * x * x * x == acc * pow(x, 6),
        acc * x * x * x * x * x * x * x == acc * pow(x, 7),
        acc * x * x * x * x * x * x * x * x == acc * pow(x, 8),
        acc * x * x * x * x * x * x * x * x * x == acc * pow(x, 9),
        acc * x * x * x * x * x * x * x * x * x * x == acc * pow(x, 10),
        acc * x * x * x * x * x * x * x * x * x * x * x == acc * pow(x, 11),
        acc * x * x * x * x * x * x * x * x * x * x * x * x == acc * pow(x, 12),
        acc * x * x * x * x * x * x * x * x * x * x * x * x * x == acc * pow(x, 13),
        acc * x * x * x * x * x * x * x * x * x * x * x * x * x * x == acc * pow(x, 14),
        acc * x * x * x * x * x * x * x * x * x * x * x * x * x * x * x == acc * pow(x, 15),
        acc * x * x * x * x * x * x * x * x * x * x * x * x * x * x * x * x == acc * pow(x, 16),
{
    lemma_pow0(x);
    assert(acc * pow(x, 0) == acc) by (nonlinear_arith)
        requires
            pow(x, 0) == 1,
    ;
    lemma_one_more(acc, x, 0);
    lemma_one_more(acc, x, 1);
    lemma_one_more(acc, x, 2);
    lemma_one_more(acc, x, 3);
    lemma_one_more(acc, x, 4);
    lemma_one_more(acc, x, 5);
    lemma_one_more(acc, x, 6);
    lemma_one_more(acc, x, 7);
    lemma_one_more(acc, x, 8);
    lemma_one_more(acc, x, 9);
    lemma_one_more(acc, x, 10);
    lemma_one_more(acc, x, 11);
    lemma_one_more(acc, x, 12);
    lemma_one_more(acc, x, 13);
    lemma_one_more(acc, x, 14);
    lemma_one_more(acc, x, 15);
}

/// The product form of `mul_pow` is the product with a power.
proof fn lemma_mul_pow(acc: nat, t: nat, d: nat)
    requires
        d < 16,
    ensures
        mul_pow(acc, t, d) == acc * pow(t as int, d),
{
    lemma_products(acc as int, t as int);
}

/// The first power of a residue below the modulus is the residue.
pub proof fn lemma_pw_one(g: nat, n: nat)
    requires
        g < n,
    ensures
        pw(g, 1, n) == g,
{
    lemma_pow1(g as int);
    lemma_small_mod(g, n);
}

/// Raising a known power residue to the sixteenth power.
proof fn lemma_sixteenth_power(g: nat, n: nat, e: nat, t: nat)
    requires
        n >= 2,
        pw(g, e, n) == t,
    ensures
        pw(g, 16 * e, n) == pow16(t) % n,
{
    lemma_pw_mul(g, e, 16, n);
    lemma_pow16(t);
    assert(e * 16 == 16 * e);
}

/// One step of raising to a power from the most significant base-16 digit down: from the
/// power residue by `e` to that by `16 * e + d`.
pub proof fn lemma_step16(b: nat, n: nat, e: nat, acc: nat, d: nat, r: nat)
    requires
        n >= 2,
        d < 16,
        pw(b, e, n) == acc,
        r == mul_pow(pow16(acc), b, d) % n,
    ensures
        pw(b, 16 * e + d, n) == r,
{
    lemma_sixteenth_power(b, n, e, acc);
    lemma_pw_add(b, 16 * e, d, n);
    lemma_mul_pow(pow16(acc), b, d);
    lemma_mul_mod_noop(pow16(acc) as int, pow(b as int, d), n as int);
}

} // verus!
