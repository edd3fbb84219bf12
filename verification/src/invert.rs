//! Field inversion by a fixed addition chain for the exponent `p - 2`.

use crate::arith::{fe_mul, fe_square, Fe25519};
use crate::fermat::{lemma_fermat_inverse, lemma_fermat_inverse_of_zero};
use crate::field::{fe_inv, fe_mul_spec, fe_pow, lemma_fe_pow_mul, lemma_fe_pow_one, p};
use vstd::arithmetic::power2::{lemma2_to64, lemma2_to64_rest, lemma_pow2_adds, lemma_pow2_unfold, pow2};
use vstd::prelude::*;

verus! {

/// Squares `t` in place `n` times, which multiplies the exponent of its base by 2^n.
fn square_times(t: &mut Fe25519, n: u32, Ghost(base): Ghost<nat>, Ghost(e): Ghost<nat>)
    requires
        old(t).canonical(),
        old(t)@ == fe_pow(base, e),
    ensures
        final(t).canonical(),
        final(t)@ == fe_pow(base, e * pow2(n as nat)),
{
    let ghost mut cur: nat = e;
    let mut i: u32 = 0;
    proof {
        lemma2_to64();
    }
    while i < n
        invariant
            i <= n,
            t.canonical(),
            t@ == fe_pow(base, cur),
            cur == e * pow2(i as nat),
        decreases n - i,
    {
        let x = *t;
        fe_square(t, &x);
        proof {
            lemma_fe_pow_mul(base, cur, cur);
            lemma_pow2_unfold((i + 1) as nat);
            assert(e * (2 * pow2(i as nat)) == 2 * (e * pow2(i as nat))) by (nonlinear_arith);
            cur = cur + cur;
        }
        i += 1;
    }
}

/// The powers of two by which the inversion chain shifts its exponents.
proof fn lemma_chain_shifts()
    ensures
        pow2(1) == 0x2,
        pow2(2) == 0x4,
        pow2(5) == 0x20,
        pow2(10) == 0x400,
        pow2(20) == 0x10_0000,
        pow2(50) == 0x4_0000_0000_0000,
        pow2(100) == 0x10_0000_0000_0000_0000_0000_0000,
{
    lemma2_to64();
    lemma2_to64_rest();
    lemma_pow2_adds(50, 50);
}

/// Field inversion by Fermat's little theorem: `result` becomes `z` raised to the power
/// `p - 2`, by a fixed chain of 254 squarings and 11 multiplications.
pub fn fe_invert(result: &mut Fe25519, z: &Fe25519)
    requires
        z.canonical(),
    ensures
        final(result)@ == fe_inv(z@),
        final(result).canonical(),
        z@ != 0 ==> fe_mul_spec(z@, final(result)@) == 1,
        z@ == 0 ==> final(result)@ == 0,
{
    let ghost a = z@;
    proof {
        lemma_chain_shifts();
        lemma_fe_pow_one(a);
        if a != 0 {
            lemma_fermat_inverse(a);
        } else {
            lemma_fermat_inverse_of_zero();
        }
    }
    // t0 = z^2
    let mut t0 = Fe25519::default();
    fe_square(&mut t0, z);
    proof {
        lemma_fe_pow_mul(a, 1, 1);
    }

    // t1 = t0^(2^2) = z^8
    let mut t1 = t0;
    square_times(&mut t1, 2, Ghost(a), Ghost(2));

    // t1 = z * t1 = z^9
    let x = t1;
    fe_mul(&mut t1, z, &x);
    proof {
        lemma_fe_pow_mul(a, 1, 8);
    }

    // t0 = t0 * t1 = z^11, kept for the last step
    let x = t0;
    fe_mul(&mut t0, &x, &t1);
    proof {
        lemma_fe_pow_mul(a, 2, 9);
    }

    // t2 = t0^2 = z^22
    let mut t2 = Fe25519::default();
    fe_square(&mut t2, &t0);
    proof {
        lemma_fe_pow_mul(a, 11, 11);
    }

    // t1 = t1 * t2 = z^(2^5 - 1)
    let x = t1;
    fe_mul(&mut t1, &x, &t2);
    proof {
        lemma_fe_pow_mul(a, 9, 22);
    }

    // t2 = t1^(2^5), then t1 = t2 * t1 = z^(2^10 - 1)
    t2 = t1;
    square_times(&mut t2, 5, Ghost(a), Ghost(0x1f));
    let x = t1;
    fe_mul(&mut t1, &t2, &x);
    proof {
        lemma_fe_pow_mul(a, 0x1f * 0x20, 0x1f);
    }

    // t2 = t1^(2^10), then t2 = t2 * t1 = z^(2^20 - 1)
    t2 = t1;
    square_times(&mut t2, 10, Ghost(a), Ghost(0x3ff));
    let x = t2;
    fe_mul(&mut t2, &x, &t1);
    proof {
        lemma_fe_pow_mul(a, 0x3ff * 0x400, 0x3ff);
    }

    // t3 = t2^(2^20), then t2 = t3 * t2 = z^(2^40 - 1)
    let mut t3 = t2;
    square_times(&mut t3, 20, Ghost(a), Ghost(0xf_ffff));
    let x = t2;
    fe_mul(&mut t2, &t3, &x);
    proof {
        lemma_fe_pow_mul(a, 0xf_ffff * 0x10_0000, 0xf_ffff);
    }

    // t2 = t2^(2^10), then t1 = t2 * t1 = z^(2^50 - 1)
    square_times(&mut t2, 10, Ghost(a), Ghost(0xff_ffff_ffff));
    let x = t1;
    fe_mul(&mut t1, &t2, &x);
    proof {
        lemma_fe_pow_mul(a, 0xff_ffff_ffff * 0x400, 0x3ff);
    }

    // t2 = t1^(2^50), then t2 = t2 * t1 = z^(2^100 - 1)
    t2 = t1;
    square_times(&mut t2, 50, Ghost(a), Ghost(0x3_ffff_ffff_ffff));
    let x = t2;
    fe_mul(&mut t2, &x, &t1);
    proof {
        lemma_fe_pow_mul(a, 0x3_ffff_ffff_ffff * 0x4_0000_0000_0000, 0x3_ffff_ffff_ffff);
    }

    // t3 = t2^(2^100), then t2 = t3 * t2 = z^(2^200 - 1)
    t3 = t2;
    square_times(&mut t3, 100, Ghost(a), Ghost(0xf_ffff_ffff_ffff_ffff_ffff_ffff));
    let x = t2;
    fe_mul(&mut t2, &t3, &x);
    proof {
        lemma_fe_pow_mul(
            a,
            0xf_ffff_ffff_ffff_ffff_ffff_ffff * 0x10_0000_0000_0000_0000_0000_0000,
            0xf_ffff_ffff_ffff_ffff_ffff_ffff,
        );
    }

    // t2 = t2^(2^50), then t1 = t2 * t1 = z^(2^250 - 1)
    square_times(
        &mut t2,
        50,
        Ghost(a),
        Ghost(0xff_ffff_ffff_ffff_ffff_ffff_ffff_ffff_ffff_ffff_ffff_ffff_ffffnat),
    );
    let x = t1;
    fe_mul(&mut t1, &t2, &x);
    proof {
        lemma_fe_pow_mul(
            a,
            0xff_ffff_ffff_ffff_ffff_ffff_ffff_ffff_ffff_ffff_ffff_ffff_ffffnat
                * 0x4_0000_0000_0000,
            0x3_ffff_ffff_ffff,
        );
    }

    // t1 = t1^(2^5), then the result is t1 * t0 = z^(2^255 - 21)
    square_times(
        &mut t1,
        5,
        Ghost(a),
        Ghost(0x3ff_ffff_ffff_ffff_ffff_ffff_ffff_ffff_ffff_ffff_ffff_ffff_ffff_ffff_ffff_ffffnat),
    );
    let mut out = Fe25519::default();
    fe_mul(&mut out, &t1, &t0);
    proof {
        lemma_fe_pow_mul(
            a,
            0x3ff_ffff_ffff_ffff_ffff_ffff_ffff_ffff_ffff_ffff_ffff_ffff_ffff_ffff_ffff_ffffnat
                * 0x20,
            11,
        );
    }
    *result = out;
}

} // verus!
