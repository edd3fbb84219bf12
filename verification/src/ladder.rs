//! The Montgomery ladder on Curve25519: its definition over residues, bit by bit of the
//! scalar, and the constant-time procedure that computes it with a deferred conditional swap.

use crate::arith::{
    fe_add, fe_cswap, fe_mul, fe_mul_121665, fe_square, fe_sub, k_t, mask_of, Fe25519,
};
use crate::field::{fe_add_spec, fe_inv, fe_mul_spec, fe_sub_spec, scalar_bit};
use crate::invert::fe_invert;
use vstd::prelude::*;

verus! {

/// The two projective points that the Montgomery ladder carries: `x2 / z2` is the
/// x-coordinate of the multiple reached so far, `x3 / z3` that of the next one.
pub struct LadderState {
    pub x2: nat,
    pub z2: nat,
    pub x3: nat,
    pub z3: nat,
}

/// The state before any scalar bit is taken: the neutral point and the base point `u`.
pub open spec fn ladder_start(u: nat) -> LadderState {
    LadderState { x2: 1, z2: 0, x3: u, z3: 1 }
}

/// The two points change places where `bit` is set.
pub open spec fn cond_swap(s: LadderState, bit: bool) -> LadderState {
    if bit {
        LadderState { x2: s.x3, z2: s.z3, x3: s.x2, z3: s.z2 }
    } else {
        s
    }
}

/// One differential addition and doubling: the first point is doubled, and the second becomes
/// the sum of the two, whose difference is the base point with x-coordinate `x1`.
pub open spec fn ladder_step(x1: nat, s: LadderState) -> LadderState {
    let a = fe_add_spec(s.x2, s.z2);
    let aa = fe_mul_spec(a, a);
    let b = fe_sub_spec(s.x2, s.z2);
    let bb = fe_mul_spec(b, b);
    let e = fe_sub_spec(aa, bb);
    let c = fe_add_spec(s.x3, s.z3);
    let d = fe_sub_spec(s.x3, s.z3);
    let da = fe_mul_spec(d, a);
    let cb = fe_mul_spec(c, b);
    let sum = fe_add_spec(da, cb);
    let diff = fe_sub_spec(da, cb);
    LadderState {
        x2: fe_mul_spec(aa, bb),
        z2: fe_mul_spec(e, fe_add_spec(aa, fe_mul_spec(121665, e))),
        x3: fe_mul_spec(sum, sum),
        z3: fe_mul_spec(x1, fe_mul_spec(diff, diff)),
    }
}

/// The ladder state after the `n` most significant of the 255 scalar bits of `k`, bit 254
/// first: for each bit the points change places where it is set, one step is taken, and they
/// change back.
pub open spec fn ladder(k: nat, u: nat, n: nat) -> LadderState
    decreases n,
{
    if n == 0 {
        ladder_start(u)
    } else {
        let bit = scalar_bit(k, (255 - n) as nat);
        cond_swap(ladder_step(u, cond_swap(ladder(k, u, (n - 1) as nat), bit)), bit)
    }
}

/// The x-coordinate that the ladder yields for the scalar `k` and the base point `u`: the
/// first point after all 255 bits, brought to affine form by the Fermat inverse.
pub open spec fn x25519_ladder(k: nat, u: nat) -> nat {
    let s = ladder(k, u, 255);
    fe_mul_spec(s.x2, fe_inv(s.z2))
}

/// The ladder state that four field elements stand for.
pub open spec fn state_of(x_2: Fe25519, z_2: Fe25519, x_3: Fe25519, z_3: Fe25519) -> LadderState {
    LadderState { x2: x_2@, z2: z_2@, x3: x_3@, z3: z_3@ }
}

/// The exclusive-or of two limbs that are each all zeros or all ones.
proof fn lemma_xor_mask_limbs(a: u64, b: u64)
    by (bit_vector)
    requires
        a == 0 || a == 0xffff_ffff_ffff_ffff,
        b == 0 || b == 0xffff_ffff_ffff_ffff,
    ensures
        a == b ==> (a ^ b) == 0,
        a != b ==> (a ^ b) == 0xffff_ffff_ffff_ffff,
{
}

/// The Montgomery ladder: `result` becomes what [`x25519_ladder`] defines for the scalar `k`,
/// of which the low 255 bits count, and the u-coordinate `u`.
///
/// The scalar is read bit by bit through masks, and the swap that a bit asks for is put off
/// until the next bit is known; no branch depends on the scalar.
pub fn mul(result: &mut Fe25519, k: &Fe25519, u: Fe25519)
    requires
        u.canonical(),
    ensures
        final(result)@ == x25519_ladder(k@, u@),
        final(result).canonical(),
{
    let x_1 = u;
    let mut x_2 = Fe25519 { x3: 0, x2: 0, x1: 0, x0: 1 };
    let mut z_2 = Fe25519 { x3: 0, x2: 0, x1: 0, x0: 0 };
    let mut x_3 = u;
    let mut z_3 = Fe25519 { x3: 0, x2: 0, x1: 0, x0: 1 };
    let mut swap = Fe25519 { x3: 0, x2: 0, x1: 0, x0: 0 };
    let mut a = Fe25519::default();
    let mut aa = Fe25519::default();
    let mut b = Fe25519::default();
    let mut bb = Fe25519::default();
    let mut c = Fe25519::default();
    let mut cb = Fe25519::default();
    let mut d = Fe25519::default();
    let mut da = Fe25519::default();
    let mut e = Fe25519::default();
    let mut t1 = Fe25519::default();
    let mut t2 = Fe25519::default();
    let mut t3 = Fe25519::default();
    let mut t4 = Fe25519::default();
    let mut t5 = Fe25519::default();
    let ghost mut bit: bool = false;

    let mut t: i16 = 255;
    while t > 0
        invariant
            0 <= t <= 255,
            u.canonical(),
            x_1 == u,
            x_2.canonical(),
            z_2.canonical(),
            x_3.canonical(),
            z_3.canonical(),
            swap == mask_of(bit),
            state_of(x_2, z_2, x_3, z_3) == cond_swap(ladder(k@, u@, (255 - t) as nat), bit),
        decreases t,
    {
        t = t - 1;
        let kt = k_t(k, t);
        let ghost next_bit = scalar_bit(k@, t as nat);
        proof {
            lemma_xor_mask_limbs(swap.x0, kt.x0);
        }
        swap.x3 = swap.x3 ^ kt.x3;
        swap.x2 = swap.x2 ^ kt.x2;
        swap.x1 = swap.x1 ^ kt.x1;
        swap.x0 = swap.x0 ^ kt.x0;
        assert(swap == mask_of(bit != next_bit));
        fe_cswap(&swap, &mut x_2, &mut x_3);
        fe_cswap(&swap, &mut z_2, &mut z_3);
        swap = kt;
        assert(state_of(x_2, z_2, x_3, z_3) == cond_swap(
            ladder(k@, u@, (254 - t) as nat),
            next_bit,
        ));

        fe_add(&mut a, &x_2, &z_2);
        fe_square(&mut aa, &a);
        fe_sub(&mut b, &x_2, &z_2);
        fe_square(&mut bb, &b);
        fe_sub(&mut e, &aa, &bb);
        fe_add(&mut c, &x_3, &z_3);
        fe_sub(&mut d, &x_3, &z_3);
        fe_mul(&mut da, &d, &a);
        fe_mul(&mut cb, &c, &b);
        fe_add(&mut t1, &da, &cb);
        fe_square(&mut x_3, &t1);
        fe_sub(&mut t2, &da, &cb);
        fe_square(&mut t3, &t2);
        fe_mul(&mut z_3, &x_1, &t3);
        fe_mul(&mut x_2, &aa, &bb);
        fe_mul_121665(&mut t4, &e);
        fe_add(&mut t5, &aa, &t4);
        fe_mul(&mut z_2, &e, &t5);
        proof {
            bit = next_bit;
        }
    }
    fe_cswap(&swap, &mut x_2, &mut x_3);
    fe_cswap(&swap, &mut z_2, &mut z_3);

    let mut inv = Fe25519::default();
    fe_invert(&mut inv, &z_2);

    let mut out = Fe25519::default();
    fe_mul(&mut out, &x_2, &inv);
    *result = out;
}

} // verus!
