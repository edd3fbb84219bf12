//! Primes, power residues and divisibility: what Lucas's criterion rests on, and primality
//! by trial division for numbers below 2^16.

use vstd::arithmetic::div_mod::{
    lemma_fundamental_div_mod, lemma_fundamental_div_mod_converse, lemma_mod_multiples_vanish,
    lemma_mul_mod_noop, lemma_mul_mod_noop_general, lemma_small_mod,
};
use vstd::arithmetic::mul::lemma_mul_is_commutative;
use vstd::arithmetic::power::{
    lemma1_pow, lemma_pow0, lemma_pow_adds, lemma_pow_mod_noop, lemma_pow_multiplies, pow,
};
use vstd::prelude::*;

verus! {

/// A prime: at least two, and divisible by nothing between one and itself.
pub open spec fn is_prime(n: nat) -> bool {
    n >= 2 && forall|d: nat| 1 < d < n ==> #[trigger] (n % d) != 0
}

/// The residue modulo `n` of `g` raised to the power `e`.
pub open spec fn pw(g: nat, e: nat, n: nat) -> nat {
    (pow(g as int, e) % (n as int)) as nat
}

/// A power residue lies below the modulus.
pub proof fn lemma_pw_bound(g: nat, e: nat, n: nat)
    requires
        n >= 1,
    ensures
        pw(g, e, n) < n,
{
}

/// The power zero gives one.
pub proof fn lemma_pw_zero(g: nat, n: nat)
    requires
        n >= 2,
    ensures
        pw(g, 0, n) == 1,
{
    lemma_pow0(g as int);
    lemma_small_mod(1, n);
}

/// The power residue of a sum of exponents is the product of the power residues.
pub proof fn lemma_pw_add(g: nat, a: nat, b: nat, n: nat)
    requires
        n >= 1,
    ensures
        pw(g, a + b, n) == (pw(g, a, n) * pw(g, b, n)) % n,
{
    lemma_pow_adds(g as int, a, b);
    lemma_mul_mod_noop(pow(g as int, a), pow(g as int, b), n as int);
}

/// The power residue of a product of exponents is a power residue of a power residue.
pub proof fn lemma_pw_mul(g: nat, a: nat, b: nat, n: nat)
    requires
        n >= 1,
    ensures
        pw(g, a * b, n) == pw(pw(g, a, n), b, n),
{
    lemma_pow_multiplies(g as int, a, b);
    lemma_pow_mod_noop(pow(g as int, a), b, n as int);
}

/// Where a power gives one, so does every multiple of its exponent.
pub proof fn lemma_pw_multiple(g: nat, d: nat, k: nat, n: nat)
    requires
        n >= 2,
        pw(g, d, n) == 1,
    ensures
        pw(g, d * k, n) == 1,
{
    lemma_pw_mul(g, d, k, n);
    lemma1_pow(k);
    lemma_small_mod(1, n);
}

/// Where two powers give one, so does the power by the remainder of their exponents.
pub proof fn lemma_pw_remainder(g: nat, x: nat, y: nat, n: nat)
    requires
        n >= 2,
        y > 0,
        pw(g, x, n) == 1,
        pw(g, y, n) == 1,
    ensures
        pw(g, x % y, n) == 1,
{
    let q = x / y;
    let r = x % y;
    lemma_fundamental_div_mod(x as int, y as int);
    lemma_pw_multiple(g, y, q, n);
    lemma_pw_add(g, y * q, r, n);
    lemma_pw_bound(g, r, n);
    assert(1 * pw(g, r, n) == pw(g, r, n)) by (nonlinear_arith);
    lemma_small_mod(pw(g, r, n), n);
}

/// The least positive exponent, up to `e`, at which the power of `g` gives one.
pub proof fn lemma_least_exponent(g: nat, e: nat, n: nat) -> (d: nat)
    requires
        e > 0,
        pw(g, e, n) == 1,
    ensures
        0 < d <= e,
        pw(g, d, n) == 1,
        forall|x: nat| 0 < x < d ==> pw(g, x, n) != 1,
    decreases e,
{
    if exists|x: nat| 0 < x < e && pw(g, x, n) == 1 {
        let x = choose|x: nat| 0 < x < e && pw(g, x, n) == 1;
        lemma_least_exponent(g, x, n)
    } else {
        e
    }
}

/// Every number from two on has a prime divisor.
pub proof fn lemma_prime_divisor(m: nat) -> (q: nat)
    requires
        m >= 2,
    ensures
        is_prime(q),
        m % q == 0,
    decreases m,
{
    if is_prime(m) {
        assert(m % m == 0) by (nonlinear_arith)
            requires
                m > 0,
        ;
        m
    } else {
        let d = choose|d: nat| 1 < d < m && #[trigger] (m % d) == 0;
        let q = lemma_prime_divisor(d);
        lemma_divides_transitive(q, d, m);
        q
    }
}

/// Divisibility is transitive.
pub proof fn lemma_divides_transitive(a: nat, b: nat, c: nat)
    requires
        a > 0,
        b > 0,
        b % a == 0,
        c % b == 0,
    ensures
        c % a == 0,
{
    lemma_fundamental_div_mod(b as int, a as int);
    lemma_fundamental_div_mod(c as int, b as int);
    let k = b / a;
    let l = c / b;
    assert(c == a * (k * l)) by (nonlinear_arith)
        requires
            b == a * k,
            c == b * l,
    ;
    lemma_mod_multiples_vanish((k * l) as int, 0, a as int);
    lemma_small_mod(0, a);
}

/// A prime that divides neither `a` nor a positive `r` below itself does not divide their
/// product: from such an `r` the remainder of the prime by `r` would be a smaller one.
proof fn lemma_no_small_cofactor(q: nat, a: nat, r: nat)
    requires
        is_prime(q),
        a % q != 0,
        0 < r < q,
    ensures
        (a * r) % q != 0,
    decreases r,
{
    if (a * r) % q == 0 {
        let k = q / r;
        let s = q % r;
        lemma_fundamental_div_mod(q as int, r as int);
        if s == 0 {
            if r > 1 {
                assert(q % r != 0);
            }
            assert(a * 1 == a) by (nonlinear_arith);
        } else {
            // a * s = a * q - k * (a * r), both of which the prime divides
            let t = (a * r) / q;
            lemma_fundamental_div_mod((a * r) as int, q as int);
            assert(a * s == q * (a - k * t)) by (nonlinear_arith)
                requires
                    q == r * k + s,
                    a * r == q * t,
            ;
            lemma_mod_multiples_vanish(a - k * t, 0, q as int);
            lemma_small_mod(0, q);
            lemma_no_small_cofactor(q, a, s);
        }
    }
}

/// Euclid's lemma: a prime that divides a product divides one of its factors.
pub proof fn lemma_euclid(q: nat, a: nat, b: nat)
    requires
        is_prime(q),
        (a * b) % q == 0,
    ensures
        a % q == 0 || b % q == 0,
{
    if a % q != 0 {
        let r = b % q;
        lemma_mul_mod_noop_general(a as int, b as int, q as int);
        if r != 0 {
            lemma_no_small_cofactor(q, a, r);
        }
    }
}

/// A prime that divides the product of a prime `a` and a number `b` is `a` or divides `b`.
pub proof fn lemma_prime_factor_split(q: nat, a: nat, b: nat)
    requires
        is_prime(q),
        is_prime(a),
        (a * b) % q == 0,
    ensures
        q == a || b % q == 0,
{
    lemma_euclid(q, a, b);
    if a % q == 0 && q != a {
        if q > a {
            lemma_small_mod(a, q);
        } else {
            assert(a % q != 0);
        }
    }
}

/// Whether `q` is one of the 54 primes below 256.
pub open spec fn listed_prime(q: nat) -> bool {
    q == 2 || q == 3 || q == 5 || q == 7 || q == 11 || q == 13 || q == 17 || q == 19 || q == 23
        || q == 29 || q == 31 || q == 37 || q == 41 || q == 43 || q == 47 || q == 53 || q == 59
        || q == 61 || q == 67 || q == 71 || q == 73 || q == 79 || q == 83 || q == 89 || q == 97
        || q == 101 || q == 103 || q == 107 || q == 109 || q == 113 || q == 127 || q == 131
        || q == 137 || q == 139 || q == 149 || q == 151 || q == 157 || q == 163 || q == 167
        || q == 173 || q == 179 || q == 181 || q == 191 || q == 193 || q == 197 || q == 199
        || q == 211 || q == 223 || q == 227 || q == 229 || q == 233 || q == 239 || q == 241
        || q == 251
}

/// Whether none of the primes below 256 divides `n`, unless it is `n` itself.
pub open spec fn no_listed_factor(n: nat) -> bool {
    (n % 2 != 0 || n == 2) && (n % 3 != 0 || n == 3) && (n % 5 != 0 || n == 5)
        && (n % 7 != 0 || n == 7) && (n % 11 != 0 || n == 11) && (n % 13 != 0 || n == 13)
        && (n % 17 != 0 || n == 17) && (n % 19 != 0 || n == 19) && (n % 23 != 0 || n == 23)
        && (n % 29 != 0 || n == 29) && (n % 31 != 0 || n == 31) && (n % 37 != 0 || n == 37)
        && (n % 41 != 0 || n == 41) && (n % 43 != 0 || n == 43) && (n % 47 != 0 || n == 47)
        && (n % 53 != 0 || n == 53) && (n % 59 != 0 || n == 59) && (n % 61 != 0 || n == 61)
        && (n % 67 != 0 || n == 67) && (n % 71 != 0 || n == 71) && (n % 73 != 0 || n == 73)
        && (n % 79 != 0 || n == 79) && (n % 83 != 0 || n == 83) && (n % 89 != 0 || n == 89)
        && (n % 97 != 0 || n == 97) && (n % 101 != 0 || n == 101) && (n % 103 != 0 || n == 103)
        && (n % 107 != 0 || n == 107) && (n % 109 != 0 || n == 109)
        && (n % 113 != 0 || n == 113) && (n % 127 != 0 || n == 127)
        && (n % 131 != 0 || n == 131) && (n % 137 != 0 || n == 137)
        && (n % 139 != 0 || n == 139) && (n % 149 != 0 || n == 149)
        && (n % 151 != 0 || n == 151) && (n % 157 != 0 || n == 157)
        && (n % 163 != 0 || n == 163) && (n % 167 != 0 || n == 167)
        && (n % 173 != 0 || n == 173) && (n % 179 != 0 || n == 179)
        && (n % 181 != 0 || n == 181) && (n % 191 != 0 || n == 191)
        && (n % 193 != 0 || n == 193) && (n % 197 != 0 || n == 197)
        && (n % 199 != 0 || n == 199) && (n % 211 != 0 || n == 211)
        && (n % 223 != 0 || n == 223) && (n % 227 != 0 || n == 227)
        && (n % 229 != 0 || n == 229) && (n % 233 != 0 || n == 233)
        && (n % 239 != 0 || n == 239) && (n % 241 != 0 || n == 241)
        && (n % 251 != 0 || n == 251)
}

/// A byte from two on that none of 2, 3, 5, 7, 11 and 13 divides is one of the primes from
/// 17 to 251.
proof fn lemma_sieved_byte(q: u8)
    by (bit_vector)
    requires
        q >= 2,
        q % 2 != 0,
        q % 3 != 0,
        q % 5 != 0,
        q % 7 != 0,
        q % 11 != 0,
        q % 13 != 0,
    ensures
        q == 17 || q == 19 || q == 23 || q == 29 || q == 31 || q == 37 || q == 41 || q == 43
            || q == 47 || q == 53 || q == 59 || q == 61 || q == 67 || q == 71 || q == 73
            || q == 79 || q == 83 || q == 89 || q == 97 || q == 101 || q == 103 || q == 107
            || q == 109 || q == 113 || q == 127 || q == 131 || q == 137 || q == 139 || q == 149
            || q == 151 || q == 157 || q == 163 || q == 167 || q == 173 || q == 179 || q == 181
            || q == 191 || q == 193 || q == 197 || q == 199 || q == 211 || q == 223 || q == 227
            || q == 229 || q == 233 || q == 239 || q == 241 || q == 251,
{
}

/// A prime below 256 is one of the listed ones: any other number from two to 255 is
/// divisible by one of 2, 3, 5, 7, 11 and 13 and larger than it.
proof fn lemma_listed_primes(q: nat)
    requires
        is_prime(q),
        q < 256,
    ensures
        listed_prime(q),
{
    if !listed_prime(q) {
        if q % 2 == 0 {
            assert(q % 2 != 0);
        } else if q % 3 == 0 {
            assert(q % 3 != 0);
        } else if q % 5 == 0 {
            assert(q % 5 != 0);
        } else if q % 7 == 0 {
            assert(q % 7 != 0);
        } else if q % 11 == 0 {
            assert(q % 11 != 0);
        } else if q % 13 == 0 {
            assert(q % 13 != 0);
        } else {
            lemma_sieved_byte(q as u8);
        }
    }
}

/// A number from two to 65535 that none of the primes below 256 divides, unless it is the
/// number itself, is a prime: of two factors of it, one lies below 256 and has a prime
/// divisor there.
pub proof fn lemma_prime_by_trial(n: nat)
    requires
        2 <= n < 0x1_0000,
        no_listed_factor(n),
    ensures
        is_prime(n),
{
    assert forall|d: nat| 1 < d < n implies #[trigger] (n % d) != 0 by {
        if n % d == 0 {
            let c = n / d;
            lemma_fundamental_div_mod(n as int, d as int);
            assert(c > 1 && (d < 256 || c < 256)) by (nonlinear_arith)
                requires
                    n == d * c,
                    1 < d < n,
                    n < 0x1_0000,
            ;
            assert(n % c == 0) by {
                lemma_mul_is_commutative(d as int, c as int);
                lemma_fundamental_div_mod_converse(n as int, c as int, d as int, 0);
            }
            let s = if d < 256 {
                d
            } else {
                c
            };
            let q = lemma_prime_divisor(s);
            lemma_divides_transitive(q, s, n);
            assert(q <= s < n) by {
                if q > s {
                    lemma_small_mod(s, q);
                }
                assert(d * c == n && d > 1 && c > 1 ==> d < n && c < n) by (nonlinear_arith);
            }
            lemma_listed_primes(q);
        }
    }
}

} // verus!
