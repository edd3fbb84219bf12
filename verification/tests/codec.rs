use curve25519::arith::Fe25519;
use curve25519::codec::{decode_k, decode_u, encode, get_k, get_u, load_le64, swap_bytes, x25519};
use curve25519::support::ParseError;

fn hex_bytes(s: &str) -> Vec<u8> {
    (0..s.len() / 2).map(|i| u8::from_str_radix(&s[2 * i..2 * i + 2], 16).unwrap()).collect()
}

fn nine() -> Vec<u8> {
    let mut b = vec![0u8; 32];
    b[0] = 9;
    b
}

#[test]
fn x25519_first_vector() {
    let k = hex_bytes("a546e36bf0527c9d3b16154b82465edd62144c0ac1fc5a18506a2244ba449ac4");
    let u = hex_bytes("e6db6867583030db3594c1a424b15f7c726624ec26b3353b10a903a6d0ab1c4c");
    let out = x25519(&k, &u).unwrap();
    assert_eq!(
        out.to_vec(),
        hex_bytes("c3da55379de9c6908e94ea4df28d084f32eccf03491c71f754b4075577a28552")
    );
}

#[test]
fn x25519_second_vector_masks_bit_255() {
    let k = hex_bytes("4b66e9d4d1b4673c5ad22691957d6af5c11b6421e0ea01d42ca4169e7918ba0d");
    let u = hex_bytes("e5210f12786811d3f4b7959d0538ae2c31dbe7106fc03c3efc4cd549c715a493");
    let out = x25519(&k, &u).unwrap();
    assert_eq!(
        out.to_vec(),
        hex_bytes("95cbde9476e8907d7aade45cb4b873f88b595a68799fa152e6f8f7647aac7957")
    );
}

#[test]
fn x25519_of_nine_once() {
    let out = x25519(&nine(), &nine()).unwrap();
    assert_eq!(
        out.to_vec(),
        hex_bytes("422c8e7a6227d7bca1350b3e2bb7279f7897b87bb6854b783c60e80311ae3079")
    );
}

#[test]
fn x25519_of_nine_a_thousand_times() {
    let mut k = nine();
    let mut u = nine();
    for _ in 0..1000 {
        let out = x25519(&k, &u).unwrap();
        u = k;
        k = out.to_vec();
    }
    assert_eq!(k, hex_bytes("684cf59ba83309552800ef566f2f4d3c1c3887c49360e3875f2eb94d99532c51"));
}

#[test]
fn x25519_refuses_wrong_lengths() {
    let good = nine();
    assert!(matches!(x25519(&good[..31], &good), Err(ParseError::LengthToShort)));
    assert!(matches!(x25519(&good, &good[..0]), Err(ParseError::LengthToShort)));
    let mut long = nine();
    long.push(0);
    assert!(matches!(x25519(&long, &good), Err(ParseError::LengthToLong)));
    assert!(matches!(x25519(&good, &long), Err(ParseError::LengthToLong)));
    assert!(matches!(x25519(&long, &good[..3]), Err(ParseError::LengthToLong)));
}

#[test]
fn decode_refuses_wrong_lengths() {
    assert!(matches!(decode_u(&[0u8; 31]), Err(ParseError::LengthToShort)));
    assert!(matches!(decode_u(&[0u8; 33]), Err(ParseError::LengthToLong)));
    assert!(matches!(decode_u(&[]), Err(ParseError::LengthToShort)));
    assert!(matches!(decode_k(&[0u8; 31]), Err(ParseError::LengthToShort)));
    assert!(matches!(decode_k(&[0u8; 33]), Err(ParseError::LengthToLong)));
}

#[test]
fn decode_u_places_bytes_in_limbs() {
    let b: Vec<u8> = (1..=32).collect();
    let fe = decode_u(&b).unwrap();
    assert_eq!(
        fe,
        Fe25519 {
            x3: 0x201f_1e1d_1c1b_1a19,
            x2: 0x1817_1615_1413_1211,
            x1: 0x100f_0e0d_0c0b_0a09,
            x0: 0x0807_0605_0403_0201,
        }
    );
}

#[test]
fn decode_u_clears_bit_255() {
    let mut b = vec![0u8; 32];
    b[0] = 5;
    b[31] = 0x80;
    assert_eq!(decode_u(&b).unwrap(), Fe25519 { x3: 0, x2: 0, x1: 0, x0: 5 });
}

#[test]
fn decode_u_reduces_modulo_the_prime() {
    // 2^255 - 19 + 4, and with bit 255 set as well
    let mut b = vec![0xffu8; 32];
    b[0] = 0xf1;
    b[31] = 0x7f;
    assert_eq!(decode_u(&b).unwrap(), Fe25519 { x3: 0, x2: 0, x1: 0, x0: 4 });
    b[31] = 0xff;
    assert_eq!(decode_u(&b).unwrap(), Fe25519 { x3: 0, x2: 0, x1: 0, x0: 4 });
    // the prime itself, and the largest 255-bit value
    b[0] = 0xed;
    assert_eq!(decode_u(&b).unwrap(), Fe25519::default());
    b[0] = 0xff;
    assert_eq!(decode_u(&b).unwrap(), Fe25519 { x3: 0, x2: 0, x1: 0, x0: 18 });
}

#[test]
fn decode_k_clamps() {
    let fe = decode_k(&[0xffu8; 32]).unwrap();
    assert_eq!(
        fe,
        Fe25519 {
            x3: 0x7fff_ffff_ffff_ffff,
            x2: 0xffff_ffff_ffff_ffff,
            x1: 0xffff_ffff_ffff_ffff,
            x0: 0xffff_ffff_ffff_fff8,
        }
    );
    let fe = decode_k(&[0u8; 32]).unwrap();
    assert_eq!(fe, Fe25519 { x3: 0x4000_0000_0000_0000, x2: 0, x1: 0, x0: 0 });
    let fe = decode_k(&nine()).unwrap();
    assert_eq!(fe, Fe25519 { x3: 0x4000_0000_0000_0000, x2: 0, x1: 0, x0: 8 });
}

#[test]
fn encode_writes_least_significant_byte_first() {
    let fe = Fe25519 {
        x3: 0x201f_1e1d_1c1b_1a19,
        x2: 0x1817_1615_1413_1211,
        x1: 0x100f_0e0d_0c0b_0a09,
        x0: 0x0807_0605_0403_0201,
    };
    let expected: Vec<u8> = (1..=32).collect();
    assert_eq!(encode(&fe).to_vec(), expected);
}

#[test]
fn decode_then_encode_is_identity_on_canonical_input() {
    let mut inputs: Vec<Vec<u8>> = vec![vec![0u8; 32], nine(), (1..=32).collect()];
    // the prime less one
    let mut b = vec![0xffu8; 32];
    b[0] = 0xec;
    b[31] = 0x7f;
    inputs.push(b);
    inputs.push(hex_bytes("e6db6867583030db3594c1a424b15f7c726624ec26b3353b10a903a6d0ab1c4c"));
    for b in inputs {
        let fe = decode_u(&b).unwrap();
        assert_eq!(encode(&fe).to_vec(), b);
    }
}

#[test]
fn load_le64_reads_eight_bytes() {
    let b: Vec<u8> = (1..=16).collect();
    assert_eq!(load_le64(&b, 0), 0x0807_0605_0403_0201);
    assert_eq!(load_le64(&b, 8), 0x100f_0e0d_0c0b_0a09);
    assert_eq!(load_le64(&b, 3), 0x0b0a_0908_0706_0504);
}

#[test]
fn swap_bytes_reverses() {
    assert_eq!(swap_bytes(0x0102_0304_0506_0708), 0x0807_0605_0403_0201);
    assert_eq!(swap_bytes(0x0900_0000_0000_0000), 9);
    assert_eq!(swap_bytes(0), 0);
    assert_eq!(swap_bytes(0xff00_0000_0000_0001), 0x0100_0000_0000_00ff);
}

#[test]
fn get_u_reads_bytes_in_written_order() {
    let u = get_u("0xe6db6867583030db-3594c1a424b15f7c-726624ec26b3353b-10a903a6d0ab1c4c");
    let b = hex_bytes("e6db6867583030db3594c1a424b15f7c726624ec26b3353b10a903a6d0ab1c4c");
    assert_eq!(u, decode_u(&b).unwrap());
    assert_eq!(
        u,
        Fe25519 {
            x3: 0x4c1c_abd0_a603_a910,
            x2: 0x3b35_b326_ec24_6672,
            x1: 0x7c5f_b124_a4c1_9435,
            x0: 0xdb30_3058_6768_dbe6,
        }
    );
}

#[test]
fn get_u_clears_bit_255_before_reducing() {
    // 2^255 + 5 stands for 5
    let u = get_u("0x0500000000000000-0000000000000000-0000000000000000-0000000000000080");
    assert_eq!(u, Fe25519 { x3: 0, x2: 0, x1: 0, x0: 5 });
    // 2^255 - 19 + 4 stands for 4
    let u = get_u("0xf1ffffffffffffff-ffffffffffffffff-ffffffffffffffff-ffffffffffffff7f");
    assert_eq!(u, Fe25519 { x3: 0, x2: 0, x1: 0, x0: 4 });
}

#[test]
fn get_k_clamps() {
    let k = get_k("0xa546e36bf0527c9d-3b16154b82465edd-62144c0ac1fc5a18-506a2244ba449ac4");
    let b = hex_bytes("a546e36bf0527c9d3b16154b82465edd62144c0ac1fc5a18506a2244ba449ac4");
    assert_eq!(k, decode_k(&b).unwrap());
    assert_eq!(
        k,
        Fe25519 {
            x3: 0x449a_44ba_4422_6a50,
            x2: 0x185a_fcc1_0a4c_1462,
            x1: 0xdd5e_4682_4b15_163b,
            x0: 0x9d7c_52f0_6be3_46a0,
        }
    );
    let k = get_k("0xffffffffffffffff-ffffffffffffffff-ffffffffffffffff-ffffffffffffffff");
    assert_eq!(
        k,
        Fe25519 {
            x3: 0x7fff_ffff_ffff_ffff,
            x2: 0xffff_ffff_ffff_ffff,
            x1: 0xffff_ffff_ffff_ffff,
            x0: 0xffff_ffff_ffff_fff8,
        }
    );
}

#[test]
fn x25519_with_a_clamped_scalar_above_the_prime() {
    // all bits set clamps to 2^255 - 8, which lies above the prime
    let out = x25519(&[0xffu8; 32], &nine()).unwrap();
    assert_eq!(
        out.to_vec(),
        hex_bytes("847c0d2c375234f365e660955187a3735a0f7613d1609d3a6a4d8c53aeaa5a22")
    );
}

#[test]
fn x25519_of_points_of_small_order_is_zero() {
    let zero = vec![0u8; 32];
    let mut one = vec![0u8; 32];
    one[0] = 1;
    // the prime less one
    let mut minus_one = vec![0xffu8; 32];
    minus_one[0] = 0xec;
    minus_one[31] = 0x7f;
    for u in [zero.clone(), one, minus_one] {
        assert_eq!(x25519(&nine(), &u).unwrap().to_vec(), zero);
    }
}

#[test]
fn x25519_reduces_the_u_coordinate() {
    // the prime plus three stands for three
    let mut u = vec![0xffu8; 32];
    u[0] = 0xf0;
    u[31] = 0x7f;
    let mut three = vec![0u8; 32];
    three[0] = 3;
    let expected = hex_bytes("d0c1c92006b2afa9e6a17e0f124f00185dbdbb1268eedf6800dc0034a89e4d21");
    assert_eq!(x25519(&[0xffu8; 32], &u).unwrap().to_vec(), expected);
    assert_eq!(x25519(&[0xffu8; 32], &three).unwrap().to_vec(), expected);
}
