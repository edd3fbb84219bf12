use std::str::FromStr;

use curve25519::arith::Fe25519;
use curve25519::support::ParseError;

#[test]
fn from_str_reads_four_limbs() {
    let fe =
        Fe25519::from_str("0x0123456789abcdef-fedcba9876543210-00000000000000ff-8000000000000001")
            .unwrap();
    assert_eq!(
        fe,
        Fe25519 {
            x3: 0x0123_4567_89ab_cdef,
            x2: 0xfedc_ba98_7654_3210,
            x1: 0xff,
            x0: 0x8000_0000_0000_0001,
        }
    );
}

#[test]
fn from_str_takes_both_cases_and_no_hyphens() {
    let fe =
        Fe25519::from_str("0xABCDEFabcdef0123456789000000000000000000000000000000000000000042")
            .unwrap();
    assert_eq!(
        fe,
        Fe25519 { x3: 0xabcd_efab_cdef_0123, x2: 0x4567_8900_0000_0000, x1: 0, x0: 0x42 }
    );
}

#[test]
fn from_str_passes_over_other_characters() {
    let fe = Fe25519::from_str(
        "0x 0000000000000000_0000000000000000:0000000000000000 zz 000000000000000g7\n",
    )
    .unwrap();
    assert_eq!(fe, Fe25519 { x3: 0, x2: 0, x1: 0, x0: 7 });
}

#[test]
fn from_str_through_the_trait() {
    let fe: Fe25519 =
        "0x0000000000000000-0000000000000000-0000000000000000-0000000000000009".parse().unwrap();
    assert_eq!(fe, Fe25519 { x3: 0, x2: 0, x1: 0, x0: 9 });
    let r = <Fe25519 as FromStr>::from_str("09");
    assert!(matches!(r, Err(ParseError::Missing0x)));
}

#[test]
fn from_str_missing_prefix() {
    let r = Fe25519::from_str("000123456789abcdef-fedcba9876543210-00000000000000ff-8000000000000001");
    assert!(matches!(r, Err(ParseError::Missing0x)));
    assert!(matches!(Fe25519::from_str("0X00"), Err(ParseError::Missing0x)));
    assert!(matches!(Fe25519::from_str("x0"), Err(ParseError::Missing0x)));
    assert!(matches!(Fe25519::from_str(""), Err(ParseError::Missing0x)));
    assert!(matches!(Fe25519::from_str("0"), Err(ParseError::Missing0x)));
    assert!(matches!(Fe25519::from_str("\u{e9}x00"), Err(ParseError::Missing0x)));
}

#[test]
fn from_str_too_short() {
    let r = Fe25519::from_str("0x0123456789abcdef-fedcba9876543210-00000000000000ff-800000000000000");
    assert!(matches!(r, Err(ParseError::LengthToShort)));
    assert!(matches!(Fe25519::from_str("0x"), Err(ParseError::LengthToShort)));
    assert!(matches!(Fe25519::from_str("0x----"), Err(ParseError::LengthToShort)));
}

#[test]
fn from_str_too_long() {
    let r =
        Fe25519::from_str("0x0123456789abcdef-fedcba9876543210-00000000000000ff-80000000000000012");
    assert!(matches!(r, Err(ParseError::LengthToLong)));
}

#[test]
fn to_string_writes_most_significant_limb_first() {
    let fe = Fe25519 { x3: 0x0123_4567_89ab_cdef, x2: 0xfedc_ba98_7654_3210, x1: 0xff, x0: 1 };
    assert_eq!(
        fe.to_string(),
        "0x0123456789abcdef-fedcba9876543210-00000000000000ff-0000000000000001"
    );
    assert_eq!(
        Fe25519::default().to_string(),
        "0x0000000000000000-0000000000000000-0000000000000000-0000000000000000"
    );
}

#[test]
fn to_byte_string_writes_least_significant_byte_first() {
    let fe = Fe25519 { x3: 0x0123_4567_89ab_cdef, x2: 0xfedc_ba98_7654_3210, x1: 0xff, x0: 1 };
    assert_eq!(
        fe.to_byte_string(),
        "0x0100000000000000-ff00000000000000-1032547698badcfe-efcdab8967452301"
    );
}

#[test]
fn written_form_parses_back() {
    let fe = Fe25519 { x3: 0x7123_4567_89ab_cdef, x2: 0xfedc_ba98_7654_3210, x1: 0xff, x0: 1 };
    assert_eq!(Fe25519::from_str(&fe.to_string()).unwrap(), fe);
}
