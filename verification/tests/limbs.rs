use curve25519::limbs::{add_carry, canonical_select, mul_acc, reduce, select, sub_borrow};

const MAX: u64 = 0xffff_ffff_ffff_ffff;
const TOP: u64 = 0x7fff_ffff_ffff_ffff;

#[test]
fn mul_acc_fills_128_bits() {
    assert_eq!(mul_acc(3, 5, 7, 11), (33, 0));
    // (2^64 - 1)^2 + 2 * (2^64 - 1) = 2^128 - 1
    assert_eq!(mul_acc(MAX, MAX, MAX, MAX), (MAX, MAX));
    assert_eq!(mul_acc(MAX, MAX, 0, 0), (1, MAX - 1));
    assert_eq!(mul_acc(1 << 32, 1 << 32, 5, 0), (5, 1));
}

#[test]
fn add_carry_carries() {
    assert_eq!(add_carry(1, 2, 3), (6, 0));
    assert_eq!(add_carry(MAX, 1, 0), (0, 1));
    assert_eq!(add_carry(MAX, MAX, MAX), (MAX - 2, 2));
}

#[test]
fn sub_borrow_borrows() {
    assert_eq!(sub_borrow(5, 3, 0), (2, 0));
    assert_eq!(sub_borrow(5, 3, 1), (1, 0));
    assert_eq!(sub_borrow(0, 1, 0), (MAX, 1));
    assert_eq!(sub_borrow(0, 0, 1), (MAX, 1));
    assert_eq!(sub_borrow(0, MAX, 1), (0, 1));
    assert_eq!(sub_borrow(7, 7, 0), (0, 0));
}

#[test]
fn select_by_mask() {
    assert_eq!(select(0, 0x1234, 0xabcd), 0x1234);
    assert_eq!(select(MAX, 0x1234, 0xabcd), 0xabcd);
    assert_eq!(select(0xff00, 0x1234, 0xabcd), 0xab34);
}

#[test]
fn canonical_select_takes_the_prime_off_once() {
    assert_eq!(canonical_select(5, 0, 0, 0), (5, 0, 0, 0));
    // the prime less one stays
    assert_eq!(canonical_select(MAX - 19, MAX, MAX, TOP), (MAX - 19, MAX, MAX, TOP));
    // the prime gives zero, the prime plus four gives four
    assert_eq!(canonical_select(MAX - 18, MAX, MAX, TOP), (0, 0, 0, 0));
    assert_eq!(canonical_select(MAX - 14, MAX, MAX, TOP), (4, 0, 0, 0));
    // 2^255 gives nineteen, and twice the prime less one gives the prime less one
    assert_eq!(canonical_select(0, 0, 0, 1 << 63), (19, 0, 0, 0));
    assert_eq!(canonical_select(MAX - 38, MAX, MAX, MAX), (MAX - 19, MAX, MAX, TOP));
}

#[test]
fn reduce_folds_the_top() {
    assert_eq!(reduce(7, 0, 0, 0), (7, 0, 0, 0));
    // 2^255 = 19 and 2^256 = 38 (mod p)
    assert_eq!(reduce(0, 0, 0, 1 << 63), (19, 0, 0, 0));
    assert_eq!(reduce(0, 0, 0, 1 << 64), (38, 0, 0, 0));
    // 2^255 - 1 = 18, and 2^256 - 1 = 37
    assert_eq!(reduce(MAX, MAX, MAX, TOP as u128), (18, 0, 0, 0));
    assert_eq!(reduce(MAX, MAX, MAX, MAX as u128), (37, 0, 0, 0));
    // the fold itself reaches bit 255: 3 * 2^255 - 38 = 19 (mod p)
    assert_eq!(reduce(MAX - 37, MAX, MAX, (1u128 << 64) | (TOP as u128)), (19, 0, 0, 0));
}
