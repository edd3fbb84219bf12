//! Lucas's criterion: a number `n` for which some `g` has the order `n - 1` is a prime, and
//! every residue from one to `n - 1` is then a power of `g`, so that Fermat's little theorem
//! holds modulo `n`.

use crate::numtheory::{
    is_prime, lemma_least_exponent, lemma_prime_divisor, lemma_pw_add, lemma_pw_bound,
    lemma_pw_mul, lemma_pw_multiple, lemma_pw_remainder, pw,
};
use vstd::arithmetic::div_mod::{
    lemma_fundamental_div_mod, lemma_fundamental_div_mod_converse, lemma_small_mod,
};
use vstd::prelude::*;
use vstd::relations::injective_on;
use vstd::set_lib::{lemma_int_range, lemma_map_size, lemma_subset_equality, set_int_range};

verus! {

/// A generator modulo `n`: its power by `n - 1` gives one, and no smaller positive power does.
pub open spec fn is_generator(g: nat, n: nat) -> bool {
    &&& n >= 2
    &&& pw(g, (n - 1) as nat, n) == 1
    &&& forall|e: nat| 0 < e < n - 1 ==> pw(g, e, n) != 1
}

/// Lucas's criterion: where the power of `g` by `n - 1` gives one, and its power by
/// `(n - 1) / q` does not for any prime `q` that divides `n - 1`, `g` is a generator.
pub proof fn lemma_lucas(g: nat, n: nat)
    requires
        n >= 2,
        pw(g, (n - 1) as nat, n) == 1,
        forall|q: nat|
            is_prime(q) && (n - 1) % (q as int) == 0 ==> pw(g, ((n - 1) / (q as int)) as nat, n)
                != 1,
    ensures
        is_generator(g, n),
{
    let big = (n - 1) as nat;
    assert forall|e: nat| 0 < e < big implies pw(g, e, n) != 1 by {
        if pw(g, e, n) == 1 {
            let d = lemma_least_exponent(g, e, n);
            lemma_pw_remainder(g, big, d, n);
            assert(big % d == 0);
            let m = big / d;
            lemma_fundamental_div_mod(big as int, d as int);
            assert(m >= 2) by (nonlinear_arith)
                requires
                    big == d * m,
                    0 < d < big,
            ;
            let q = lemma_prime_divisor(m);
            let c = m / q;
            lemma_fundamental_div_mod(m as int, q as int);
            assert(big == (d * c) * q) by (nonlinear_arith)
                requires
                    big == d * m,
                    m == q * c,
            ;
            lemma_fundamental_div_mod_converse(big as int, q as int, (d * c) as int, 0);
            lemma_pw_multiple(g, d, c, n);
        }
    }
}

/// The powers of a generator by distinct exponents below `n - 1` are distinct.
proof fn lemma_generator_powers_distinct(g: nat, n: nat, i: nat, j: nat)
    requires
        is_generator(g, n),
        i < j < n - 1,
    ensures
        pw(g, i, n) != pw(g, j, n),
{
    let big = (n - 1) as nat;
    let rest = (big - j) as nat;
    lemma_pw_add(g, j, rest, n);
    lemma_pw_add(g, i, rest, n);
}

/// No power of a generator is zero.
proof fn lemma_generator_power_nonzero(g: nat, n: nat, k: nat)
    requires
        is_generator(g, n),
        k <= n - 1,
    ensures
        pw(g, k, n) != 0,
{
    let big = (n - 1) as nat;
    if pw(g, k, n) == 0 {
        lemma_pw_add(g, k, (big - k) as nat, n);
        assert(0 * pw(g, (big - k) as nat, n) == 0) by (nonlinear_arith);
        lemma_small_mod(0, n);
    }
}

/// Every residue from one to `n - 1` is a power of a generator modulo `n`.
pub proof fn lemma_generator_reaches(g: nat, n: nat, a: nat) -> (k: nat)
    requires
        is_generator(g, n),
        0 < a < n,
    ensures
        k < n - 1,
        pw(g, k, n) == a,
{
    let big = (n - 1) as int;
    let f = |k: int| pw(g, k as nat, n) as int;
    let x = set_int_range(0, big);
    let t = set_int_range(1, big + 1);
    let y = x.map(f);
    lemma_int_range(0, big);
    lemma_int_range(1, big + 1);
    assert(injective_on(f, x)) by {
        assert forall|x1: int, x2: int|
            x.contains(x1) && x.contains(x2) && #[trigger] f(x1) == #[trigger] f(x2) implies x1
            == x2 by {
            if x1 < x2 {
                lemma_generator_powers_distinct(g, n, x1 as nat, x2 as nat);
            } else if x2 < x1 {
                lemma_generator_powers_distinct(g, n, x2 as nat, x1 as nat);
            }
        }
    }
    lemma_map_size(x, y, f);
    assert(y.subset_of(t)) by {
        assert forall|b: int| y.contains(b) implies t.contains(b) by {
            let k = choose|k: int| x.contains(k) && b == f(k);
            lemma_pw_bound(g, k as nat, n);
            lemma_generator_power_nonzero(g, n, k as nat);
        }
    }
    lemma_subset_equality(y, t);
    assert(t.contains(a as int));
    assert(y.contains(a as int));
    let k = choose|k: int| x.contains(k) && a as int == f(k);
    k as nat
}

/// Fermat's little theorem for a modulus with a generator: every residue from one to `n - 1`
/// raised to the power `n - 1` gives one.
pub proof fn lemma_generator_gives_fermat(g: nat, n: nat, a: nat)
    requires
        is_generator(g, n),
        0 < a < n,
    ensures
        pw(a, (n - 1) as nat, n) == 1,
{
    let big = (n - 1) as nat;
    let k = lemma_generator_reaches(g, n, a);
    lemma_pw_mul(g, k, big, n);
    lemma_pw_multiple(g, big, k, n);
    assert(k * big == big * k) by (nonlinear_arith);
}

/// A modulus with a generator is a prime.
pub proof fn lemma_generator_gives_prime(g: nat, n: nat)
    requires
        is_generator(g, n),
    ensures
        is_prime(n),
{
    let big = (n - 1) as nat;
    assert forall|d: nat| 1 < d < n implies #[trigger] (n % d) != 0 by {
        if n % d == 0 {
            let k = lemma_generator_reaches(g, n, d);
            let x = pw(g, (big - k) as nat, n);
            lemma_pw_add(g, k, (big - k) as nat, n);
            // d * x = n * t + 1 and n = d * c, so d divides one
            let t = (d * x) / n;
            let c = n / d;
            lemma_fundamental_div_mod((d * x) as int, n as int);
            lemma_fundamental_div_mod(n as int, d as int);
            assert(1 == d * (x - c * t)) by (nonlinear_arith)
                requires
                    d * x == n * t + 1,
                    n == d * c,
            ;
            assert(false) by (nonlinear_arith)
                requires
                    1 == d * (x - c * t),
                    d > 1,
            ;
        }
    }
}

} // verus!
