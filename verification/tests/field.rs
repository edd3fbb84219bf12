use curve25519::arith::{
    fe_add, fe_cswap, fe_mul, fe_mul_121665, fe_square, fe_sub, k_t, Fe25519,
};
use curve25519::invert::fe_invert;
use curve25519::support::check_size;

const MAX: u64 = 0xffff_ffff_ffff_ffff;
const TOP: u64 = 0x7fff_ffff_ffff_ffff;

fn small(n: u64) -> Fe25519 {
    Fe25519 { x3: 0, x2: 0, x1: 0, x0: n }
}

/// The prime less `n`, for `n` from 1 to 0xffed.
fn p_minus(n: u64) -> Fe25519 {
    Fe25519 { x3: TOP, x2: MAX, x1: MAX, x0: 0xffff_ffff_ffff_ffed - n }
}

fn add(a: &Fe25519, b: &Fe25519) -> Fe25519 {
    let mut r = Fe25519::default();
    fe_add(&mut r, a, b);
    r
}

fn sub(a: &Fe25519, b: &Fe25519) -> Fe25519 {
    let mut r = Fe25519::default();
    fe_sub(&mut r, a, b);
    r
}

fn times(a: &Fe25519, b: &Fe25519) -> Fe25519 {
    let mut r = Fe25519::default();
    fe_mul(&mut r, a, b);
    r
}

fn square(a: &Fe25519) -> Fe25519 {
    let mut r = Fe25519::default();
    fe_square(&mut r, a);
    r
}

fn invert(a: &Fe25519) -> Fe25519 {
    let mut r = Fe25519::default();
    fe_invert(&mut r, a);
    r
}

fn samples() -> Vec<Fe25519> {
    vec![
        small(0),
        small(1),
        small(2),
        small(3),
        p_minus(1),
        p_minus(2),
        p_minus(3),
        p_minus(4),
        p_minus(19),
        small(19),
        small(121665),
        Fe25519 { x3: 0, x2: 0, x1: 1, x0: 1 },
        Fe25519 { x3: 0x4000_0000_0000_0000, x2: 0, x1: 0, x0: 0 },
        Fe25519 { x3: 0x1234_5678_9abc_def0, x2: 0x0fed_cba9_8765_4321, x1: MAX, x0: 5 },
        Fe25519 { x3: TOP, x2: 0, x1: MAX, x0: MAX },
    ]
}

#[test]
fn default_is_zero() {
    assert_eq!(Fe25519::default(), small(0));
}

#[test]
fn add_exact_values() {
    assert_eq!(add(&small(2), &small(3)), small(5));
    assert_eq!(add(&p_minus(1), &small(1)), small(0));
    assert_eq!(add(&p_minus(1), &small(2)), small(1));
    assert_eq!(add(&p_minus(1), &p_minus(1)), p_minus(2));
    assert_eq!(
        add(&Fe25519 { x3: 0, x2: 0, x1: 0, x0: MAX }, &small(1)),
        Fe25519 { x3: 0, x2: 0, x1: 1, x0: 0 }
    );
}

#[test]
fn sub_exact_values() {
    assert_eq!(sub(&small(5), &small(3)), small(2));
    assert_eq!(sub(&small(0), &small(1)), p_minus(1));
    assert_eq!(sub(&small(3), &p_minus(1)), small(4));
    assert_eq!(sub(&small(0), &p_minus(1)), small(1));
}

#[test]
fn sub_borrow_into_low_limb() {
    // 5 - (2^64 + 1): the difference wraps with a low limb below nineteen.
    let b = Fe25519 { x3: 0, x2: 0, x1: 1, x0: 1 };
    let expected = Fe25519 { x3: TOP, x2: MAX, x1: 0xffff_ffff_ffff_fffe, x0: 0xffff_ffff_ffff_fff1 };
    assert_eq!(sub(&small(5), &b), expected);
    assert_eq!(add(&expected, &b), small(5));
}

#[test]
fn mul_exact_values() {
    assert_eq!(times(&small(6), &small(7)), small(42));
    assert_eq!(times(&p_minus(1), &p_minus(1)), small(1));
    assert_eq!(times(&p_minus(1), &small(2)), p_minus(2));
    // 2^254 * 2 = 2^255 = 19 (mod p)
    let half = Fe25519 { x3: 0x4000_0000_0000_0000, x2: 0, x1: 0, x0: 0 };
    assert_eq!(times(&half, &small(2)), small(19));
}

#[test]
fn mul_fold_reaches_bit_255() {
    // (p - 1) * (p - 19) = 19 and (p - 2) * (p - 19) = 38 (mod p): the first fold of the
    // product lands just below a multiple of 2^255.
    assert_eq!(times(&p_minus(1), &p_minus(19)), small(19));
    assert_eq!(times(&p_minus(2), &p_minus(19)), small(38));
    assert_eq!(times(&p_minus(19), &p_minus(1)), small(19));
}

#[test]
fn square_exact_values() {
    assert_eq!(square(&small(0)), small(0));
    assert_eq!(square(&small(9)), small(81));
    assert_eq!(square(&p_minus(1)), small(1));
    assert_eq!(square(&p_minus(2)), small(4));
    assert_eq!(square(&p_minus(3)), small(9));
    let half = Fe25519 { x3: 0, x2: 0x1, x1: 0, x0: 0 };
    // (2^128)^2 = 2^256 = 38 (mod p)
    assert_eq!(square(&half), small(38));
}

#[test]
fn square_agrees_with_mul() {
    for a in samples() {
        assert_eq!(square(&a), times(&a, &a));
    }
}

#[test]
fn mul_121665_exact_values() {
    let mut r = Fe25519::default();
    fe_mul_121665(&mut r, &small(1));
    assert_eq!(r, small(121665));
    fe_mul_121665(&mut r, &small(0));
    assert_eq!(r, small(0));
    fe_mul_121665(&mut r, &p_minus(1));
    assert_eq!(r, p_minus(121665));
    for a in samples() {
        fe_mul_121665(&mut r, &a);
        assert_eq!(r, times(&a, &small(121665)));
        assert!(check_size(&r));
    }
}

#[test]
fn mul_121665_result_is_canonical() {
    // 121665 * a = 1 (mod p): the folded product lands on the prime plus one.
    let a = Fe25519 {
        x3: 0x3f6f_812d_eb2a_31bc,
        x2: 0xd4e9_deeb_3246_3099,
        x1: 0xf4a2_2967_bd86_abd1,
        x0: 0xda1f_0d89_3236_07a9,
    };
    let mut r = Fe25519::default();
    fe_mul_121665(&mut r, &a);
    assert_eq!(r, small(1));
}

#[test]
fn add_commutes_and_associates() {
    let s = samples();
    for a in &s {
        for b in &s {
            assert_eq!(add(a, b), add(b, a));
            for c in &s {
                assert_eq!(add(&add(a, b), c), add(a, &add(b, c)));
            }
        }
    }
}

#[test]
fn add_identity() {
    for a in samples() {
        assert_eq!(add(&a, &small(0)), a);
        assert_eq!(add(&small(0), &a), a);
    }
}

#[test]
fn sub_inverse() {
    let s = samples();
    for a in &s {
        assert_eq!(sub(a, a), small(0));
        for b in &s {
            assert_eq!(add(&sub(a, b), b), *a);
        }
    }
}

#[test]
fn mul_commutes_associates_distributes() {
    let s = samples();
    for a in &s {
        for b in &s {
            assert_eq!(times(a, b), times(b, a));
            for c in &s {
                assert_eq!(times(&times(a, b), c), times(a, &times(b, c)));
                assert_eq!(times(a, &add(b, c)), add(&times(a, b), &times(a, c)));
            }
        }
    }
}

#[test]
fn mul_identity() {
    for a in samples() {
        assert_eq!(times(&a, &small(1)), a);
        assert_eq!(times(&a, &small(0)), small(0));
    }
}

#[test]
fn outputs_are_canonical() {
    let s = samples();
    for a in &s {
        assert!(check_size(&square(a)));
        assert!(check_size(&invert(a)));
        for b in &s {
            assert!(check_size(&add(a, b)));
            assert!(check_size(&sub(a, b)));
            assert!(check_size(&times(a, b)));
        }
    }
}

#[test]
fn inversion_gives_one() {
    for a in samples() {
        if a == small(0) {
            continue;
        }
        assert_eq!(times(&a, &invert(&a)), small(1));
    }
}

#[test]
fn inversion_exact_values() {
    assert_eq!(invert(&small(1)), small(1));
    assert_eq!(invert(&p_minus(1)), p_minus(1));
    assert_eq!(invert(&small(0)), small(0));
    // 2 * (p + 1) / 2 = 1 (mod p)
    let half = Fe25519 { x3: 0x3fff_ffff_ffff_ffff, x2: MAX, x1: MAX, x0: 0xffff_ffff_ffff_fff7 };
    assert_eq!(invert(&small(2)), half);
}

#[test]
fn square_times_inverse_gives_back() {
    for a in samples() {
        if a == small(0) {
            continue;
        }
        assert_eq!(times(&times(&a, &a), &invert(&a)), a);
    }
}

#[test]
fn check_size_at_the_prime() {
    assert!(check_size(&small(0)));
    assert!(check_size(&p_minus(1)));
    assert!(!check_size(&p_minus(0)));
    assert!(!check_size(&Fe25519 { x3: TOP, x2: MAX, x1: MAX, x0: MAX }));
    assert!(!check_size(&Fe25519 { x3: 0x8000_0000_0000_0000, x2: 0, x1: 0, x0: 0 }));
    assert!(check_size(&Fe25519 { x3: TOP, x2: MAX, x1: 0, x0: MAX }));
    assert!(check_size(&Fe25519 { x3: TOP, x2: 0, x1: MAX, x0: MAX }));
    assert!(check_size(&Fe25519 { x3: TOP - 1, x2: MAX, x1: MAX, x0: MAX }));
}

#[test]
fn cswap_with_zero_mask_is_identity() {
    let swap = small(0);
    let a = Fe25519 { x3: 1, x2: 2, x1: 3, x0: 4 };
    let b = Fe25519 { x3: 5, x2: 6, x1: 7, x0: 8 };
    let (mut x, mut y) = (a, b);
    fe_cswap(&swap, &mut x, &mut y);
    assert_eq!((x, y), (a, b));
}

#[test]
fn cswap_with_ones_mask_exchanges() {
    let swap = Fe25519 { x3: MAX, x2: MAX, x1: MAX, x0: MAX };
    let a = Fe25519 { x3: 1, x2: 2, x1: 3, x0: 4 };
    let b = Fe25519 { x3: 5, x2: 6, x1: 7, x0: 8 };
    let (mut x, mut y) = (a, b);
    fe_cswap(&swap, &mut x, &mut y);
    assert_eq!((x, y), (b, a));
}

#[test]
fn cswap_twice_is_identity() {
    let a = Fe25519 { x3: 1, x2: 2, x1: 3, x0: 4 };
    let b = Fe25519 { x3: 5, x2: 6, x1: 7, x0: 8 };
    for swap in [
        small(0),
        Fe25519 { x3: MAX, x2: MAX, x1: MAX, x0: MAX },
        Fe25519 { x3: 0xf0f0, x2: 0, x1: MAX, x0: 0x55 },
    ] {
        let (mut x, mut y) = (a, b);
        fe_cswap(&swap, &mut x, &mut y);
        fe_cswap(&swap, &mut x, &mut y);
        assert_eq!((x, y), (a, b));
    }
}

#[test]
fn cswap_with_mixed_mask_swaps_bitwise() {
    let swap = Fe25519 { x3: 0, x2: MAX, x1: 0x0f, x0: 0 };
    let mut x = Fe25519 { x3: 1, x2: 2, x1: 0x35, x0: 4 };
    let mut y = Fe25519 { x3: 5, x2: 6, x1: 0x7a, x0: 8 };
    fe_cswap(&swap, &mut x, &mut y);
    assert_eq!(x, Fe25519 { x3: 1, x2: 6, x1: 0x3a, x0: 4 });
    assert_eq!(y, Fe25519 { x3: 5, x2: 2, x1: 0x75, x0: 8 });
}

#[test]
fn k_t_broadcasts_each_bit() {
    let ones = Fe25519 { x3: MAX, x2: MAX, x1: MAX, x0: MAX };
    let zero = small(0);
    let k = Fe25519 { x3: 0x8000_0000_0000_0001, x2: 0x10, x1: 0x4000_0000_0000_0000, x0: 0x9 };
    let set = [0i16, 3, 126, 132, 192, 255];
    for t in 0..=255i16 {
        let expected = if set.contains(&t) { ones } else { zero };
        assert_eq!(k_t(&k, t), expected, "bit {}", t);
    }
}

#[test]
fn inversion_of_random_looking_elements() {
    let a = Fe25519 {
        x3: 0x1234_5678_9abc_def0,
        x2: 0x0fed_cba9_8765_4321,
        x1: 0xdead_beef_0bad_f00d,
        x0: 0x0123_4567_89ab_cdef,
    };
    let inv = invert(&a);
    assert_eq!(times(&a, &inv), small(1));
    assert_eq!(times(&inv, &a), small(1));
    assert_eq!(invert(&inv), a);
}
