//! Field elements as hexadecimal strings: parsing, writing, and the check of the canonical
//! form.

use crate::arith::Fe25519;
use crate::codec::{swap_bytes, swap_bytes_spec};
use core::num::ParseIntError;
use regex::Regex;
use vstd::arithmetic::div_mod::{lemma_basic_div, lemma_div_denominator, lemma_fundamental_div_mod};
use vstd::arithmetic::power2::{lemma2_to64, lemma_pow2_adds, lemma_pow2_pos, pow2};
use vstd::prelude::*;
use vstd::string::*;
use vstd::utf8::is_ascii_chars;

verus! {

/// The error of the standard library's integer parsing, carried through as it comes.
#[verifier::external_type_specification]
#[verifier::external_body]
pub struct ExParseIntError(ParseIntError);

/// Why a hexadecimal string is no 256-bit integer.
#[derive(Debug)]
pub enum ParseError {
    /// Fewer than 64 hexadecimal digits follow the prefix.
    LengthToShort,
    /// More than 64 hexadecimal digits follow the prefix.
    LengthToLong,
    /// The string does not begin with `0x`.
    Missing0x,
    /// The digits of the most significant limb were refused.
    ParseErrorX3(ParseIntError),
    /// The digits of the second most significant limb were refused.
    ParseErrorX2(ParseIntError),
    /// The digits of the second least significant limb were refused.
    ParseErrorX1(ParseIntError),
    /// The digits of the least significant limb were refused.
    ParseErrorX0(ParseIntError),
}

/// Whether a character is a hexadecimal digit of either case.
pub open spec fn is_hex_digit(c: char) -> bool {
    ('0' <= c <= '9') || ('a' <= c <= 'f') || ('A' <= c <= 'F')
}

/// The number that a hexadecimal digit stands for.
pub open spec fn hex_digit_value(c: char) -> nat {
    if '0' <= c <= '9' {
        (c as nat - '0' as nat) as nat
    } else if 'a' <= c <= 'f' {
        (c as nat - 'a' as nat + 10) as nat
    } else {
        (c as nat - 'A' as nat + 10) as nat
    }
}

/// The number that a sequence of hexadecimal digits stands for, most significant digit first.
pub open spec fn hex_value(s: Seq<char>) -> nat
    decreases s.len(),
{
    if s.len() == 0 {
        0
    } else {
        16 * hex_value(s.drop_last()) + hex_digit_value(s.last())
    }
}

/// The test for a hexadecimal digit, as a function.
pub open spec fn hex_digit_test() -> spec_fn(char) -> bool {
    |c: char| is_hex_digit(c)
}

/// The hexadecimal digits of a string, in their order, with every other character left out.
pub open spec fn hex_digits(s: Seq<char>) -> Seq<char> {
    s.filter(hex_digit_test())
}

/// Whether a string begins with `0x`.
pub open spec fn has_prefix_0x(s: Seq<char>) -> bool {
    s.len() >= 2 && s[0] == '0' && s[1] == 'x'
}

/// What a string parses to: after the prefix `0x`, whose `0` counts as a digit, exactly 64
/// hexadecimal digits give the four limbs, the most significant first; characters that are
/// no hexadecimal digits, such as separating hyphens, are passed over.
pub open spec fn parse_spec(s: Seq<char>) -> Result<Fe25519, ParseError> {
    let d = hex_digits(s);
    if !has_prefix_0x(s) {
        Err(ParseError::Missing0x)
    } else if d.len() < 65 {
        Err(ParseError::LengthToShort)
    } else if d.len() > 65 {
        Err(ParseError::LengthToLong)
    } else {
        Ok(
            Fe25519 {
                x3: hex_value(d.subrange(1, 17)) as u64,
                x2: hex_value(d.subrange(17, 33)) as u64,
                x1: hex_value(d.subrange(33, 49)) as u64,
                x0: hex_value(d.subrange(49, 65)) as u64,
            },
        )
    }
}

/// Whether every character of a sequence is a hexadecimal digit.
pub open spec fn all_hex(s: Seq<char>) -> bool {
    forall|i: int| 0 <= i < s.len() ==> is_hex_digit(#[trigger] s[i])
}

/// Whether a sequence is one to sixteen hexadecimal digits, which fit a 64-bit word.
pub open spec fn hex_word(s: Seq<char>) -> bool {
    0 < s.len() <= 16 && all_hex(s)
}

/// A number of up to sixteen hexadecimal digits fits in 64 bits.
pub proof fn lemma_hex_value_bound(s: Seq<char>)
    requires
        all_hex(s),
    ensures
        s.len() <= 16 ==> hex_value(s) < 0x1_0000_0000_0000_0000,
{
    if s.len() > 0 {
        let t = s.drop_last();
        assert(all_hex(t)) by {
            assert forall|i: int| 0 <= i < t.len() implies is_hex_digit(#[trigger] t[i]) by {
                assert(t[i] == s[i]);
            }
        }
        lemma_hex_value_bound_digits(t);
        assert(is_hex_digit(s[s.len() - 1]));
    }
}

/// A number of `n` hexadecimal digits lies below 16^n, for each length up to sixteen.
proof fn lemma_hex_value_bound_digits(s: Seq<char>)
    requires
        all_hex(s),
    ensures
        s.len() == 0 ==> hex_value(s) < 0x1,
        s.len() == 1 ==> hex_value(s) < 0x10,
        s.len() == 2 ==> hex_value(s) < 0x100,
        s.len() == 3 ==> hex_value(s) < 0x1000,
        s.len() == 4 ==> hex_value(s) < 0x1_0000,
        s.len() == 5 ==> hex_value(s) < 0x10_0000,
        s.len() == 6 ==> hex_value(s) < 0x100_0000,
        s.len() == 7 ==> hex_value(s) < 0x1000_0000,
        s.len() == 8 ==> hex_value(s) < 0x1_0000_0000,
        s.len() == 9 ==> hex_value(s) < 0x10_0000_0000,
        s.len() == 10 ==> hex_value(s) < 0x100_0000_0000,
        s.len() == 11 ==> hex_value(s) < 0x1000_0000_0000,
        s.len() == 12 ==> hex_value(s) < 0x1_0000_0000_0000,
        s.len() == 13 ==> hex_value(s) < 0x10_0000_0000_0000,
        s.len() == 14 ==> hex_value(s) < 0x100_0000_0000_0000,
        s.len() == 15 ==> hex_value(s) < 0x1000_0000_0000_0000,
    decreases s.len(),
{
    if s.len() > 0 {
        let t = s.drop_last();
        assert(all_hex(t)) by {
            assert forall|i: int| 0 <= i < t.len() implies is_hex_digit(#[trigger] t[i]) by {
                assert(t[i] == s[i]);
            }
        }
        lemma_hex_value_bound_digits(t);
        assert(is_hex_digit(s[s.len() - 1]));
    }
}

/// `regex::Regex::new` on `pattern`, then `Regex::replace_all` on `text` with the replacement
/// `rep`. For the pattern `[^A-Fa-f0-9]`, a negated class of single characters, the matches
/// are the characters of `text` that are no hexadecimal digits, one by one; replacing each by
/// the empty string leaves the hexadecimal digits of `text` in their order.
#[verifier::external_body]
fn replace_all(pattern: &str, text: &str, rep: &str) -> (r: String)
    requires
        pattern@ == "[^A-Fa-f0-9]"@,
        rep@ == ""@,
    ensures
        r@ == hex_digits(text@),
{
    Regex::new(pattern).unwrap().replace_all(text, rep).into_owned()
}

/// `u64::from_str_radix`. In radix 16 a string of one to sixteen hexadecimal digits is
/// accepted and gives the number that the digits stand for.
#[verifier::external_body]
fn from_str_radix(s: &str, radix: u32) -> (r: Result<u64, ParseIntError>)
    requires
        radix == 16,
    ensures
        hex_word(s@) ==> r is Ok && r->Ok_0 == hex_value(s@),
{
    u64::from_str_radix(s, radix)
}

/// The lower-case hexadecimal digit for a number below sixteen.
pub open spec fn hex_digit_char(n: nat) -> char {
    if n < 10 {
        (n + '0' as nat) as char
    } else {
        (n - 10 + 'a' as nat) as char
    }
}

/// The sixteen lower-case hexadecimal digits of a limb, most significant first.
pub open spec fn hex16_spec(x: u64) -> Seq<char> {
    Seq::new(16, |i: int| hex_digit_char((x as nat / pow2((4 * (15 - i)) as nat)) % 16))
}

/// The written form of four limbs: `0x`, then the sixteen digits of each limb, with hyphens
/// between the limbs.
pub open spec fn written_spec(a: u64, b: u64, c: u64, d: u64) -> Seq<char> {
    "0x"@ + hex16_spec(a) + "-"@ + hex16_spec(b) + "-"@ + hex16_spec(c) + "-"@ + hex16_spec(d)
}

/// `format!` with `{:016x}`: the limb in lower-case hexadecimal, padded with zeros on the left
/// to sixteen digits.
#[verifier::external_body]
fn hex16(x: u64) -> (r: String)
    ensures
        r@ == hex16_spec(x),
{
    format!("{:016x}", x)
}

/// Writes four limbs as `0x` and their hexadecimal digits, with hyphens between the limbs.
fn written(a: u64, b: u64, c: u64, d: u64) -> (r: String)
    ensures
        r@ == written_spec(a, b, c, d),
{
    let mut s = String::from_str("0x");
    s.append(hex16(a).as_str());
    s.append("-");
    s.append(hex16(b).as_str());
    s.append("-");
    s.append(hex16(c).as_str());
    s.append("-");
    s.append(hex16(d).as_str());
    s
}

/// Whether the limbs stand for an integer below the prime, as every field element must.
pub fn check_size(src: &Fe25519) -> (ok: bool)
    ensures
        ok == src.canonical(),
{
    src.x3 < 0x7FFF_FFFF_FFFF_FFFF || (src.x3 == 0x7FFF_FFFF_FFFF_FFFF && (src.x2
        < 0xFFFF_FFFF_FFFF_FFFF || src.x1 < 0xFFFF_FFFF_FFFF_FFFF || src.x0
        < 0xFFFF_FFFF_FFFF_FFED))
}

impl Fe25519 {
    /// Parses `0x` followed by 64 hexadecimal digits, the most significant first; hyphens and
    /// other characters between the digits are passed over.
    pub fn from_str(hex_str: &str) -> (r: Result<Fe25519, ParseError>)
        ensures
            r == parse_spec(hex_str@),
    {
        if hex_str.unicode_len() < 2 {
            return Err(ParseError::Missing0x);
        }
        if hex_str.get_char(0) != '0' || hex_str.get_char(1) != 'x' {
            return Err(ParseError::Missing0x);
        }
        let tmp = replace_all("[^A-Fa-f0-9]", hex_str, "");
        let tmp_str = tmp.as_str();
        let ghost d = hex_digits(hex_str@);
        proof {
            broadcast use vstd::seq_lib::group_filter_ensures;
            assert(all_hex(d));
            assert(is_ascii_chars(d));
        }
        let x = tmp_str.unicode_len();
        if x < 65 {
            return Err(ParseError::LengthToShort);
        }
        if x > 65 {
            return Err(ParseError::LengthToLong);
        }
        let s3 = tmp_str.substring_ascii(x - 64, x - 48);
        let s2 = tmp_str.substring_ascii(x - 48, x - 32);
        let s1 = tmp_str.substring_ascii(x - 32, x - 16);
        let s0 = tmp_str.substring_ascii(x - 16, x);
        proof {
            assert(all_hex(s3@));
            assert(all_hex(s2@));
            assert(all_hex(s1@));
            assert(all_hex(s0@));
            lemma_hex_value_bound(s3@);
            lemma_hex_value_bound(s2@);
            lemma_hex_value_bound(s1@);
            lemma_hex_value_bound(s0@);
        }
        let x3 = match from_str_radix(s3, 16) {
            Ok(v) => v,
            Err(e) => { return Err(ParseError::ParseErrorX3(e)); },
        };
        let x2 = match from_str_radix(s2, 16) {
            Ok(v) => v,
            Err(e) => { return Err(ParseError::ParseErrorX2(e)); },
        };
        let x1 = match from_str_radix(s1, 16) {
            Ok(v) => v,
            Err(e) => { return Err(ParseError::ParseErrorX1(e)); },
        };
        let x0 = match from_str_radix(s0, 16) {
            Ok(v) => v,
            Err(e) => { return Err(ParseError::ParseErrorX0(e)); },
        };
        Ok(Fe25519 { x3, x2, x1, x0 })
    }
}

impl Fe25519 {
    /// The element as a 256-bit integer in hexadecimal, the most significant limb first.
    pub fn to_string(&self) -> (r: String)
        ensures
            r@ == written_spec(self.x3, self.x2, self.x1, self.x0),
    {
        written(self.x3, self.x2, self.x1, self.x0)
    }

    /// The 32 bytes of the element's encoding in hexadecimal, the least significant byte
    /// first.
    pub fn to_byte_string(&self) -> (r: String)
        ensures
            r@ == written_spec(
                swap_bytes_spec(self.x0) as u64,
                swap_bytes_spec(self.x1) as u64,
                swap_bytes_spec(self.x2) as u64,
                swap_bytes_spec(self.x3) as u64,
            ),
    {
        written(swap_bytes(self.x0), swap_bytes(self.x1), swap_bytes(self.x2), swap_bytes(self.x3))
    }
}

/// The hexadecimal digits of a sequence of hexadecimal digits are the sequence.
proof fn lemma_hex_digits_of_digits(s: Seq<char>)
    requires
        all_hex(s),
    ensures
        hex_digits(s) == s,
    decreases s.len(),
{
    reveal(Seq::filter);
    if s.len() > 0 {
        let t = s.drop_last();
        assert(all_hex(t)) by {
            assert forall|i: int| 0 <= i < t.len() implies is_hex_digit(#[trigger] t[i]) by {
                assert(t[i] == s[i]);
            }
        }
        lemma_hex_digits_of_digits(t);
        assert(is_hex_digit(s[s.len() - 1]));
        assert(t.push(s.last()) =~= s);
    } else {
        assert(hex_digits(s) =~= s);
    }
}

/// The first `k` of the sixteen digits of a limb stand for the limb without its low
/// `16 - k` digits.
proof fn lemma_hex16_prefix(x: u64, k: nat)
    requires
        k <= 16,
    ensures
        hex_value(hex16_spec(x).subrange(0, k as int)) == x as nat / pow2((4 * (16 - k)) as nat),
    decreases k,
{
    lemma2_to64();
    if k == 0 {
        assert(x as nat / pow2(64) == 0) by {
            lemma_basic_div(x as int, pow2(64) as int);
        }
    } else {
        let j = (k - 1) as nat;
        let s = hex16_spec(x).subrange(0, k as int);
        lemma_hex16_prefix(x, j);
        assert(s.drop_last() =~= hex16_spec(x).subrange(0, j as int));
        let low = pow2((4 * (16 - k)) as nat);
        let q = x as nat / low;
        let digit = q % 16;
        assert(s.last() == hex_digit_char(digit));
        assert(hex_digit_value(hex_digit_char(digit)) == digit);
        lemma_pow2_pos((4 * (16 - k)) as nat);
        lemma_pow2_adds((4 * (16 - k)) as nat, 4);
        lemma_div_denominator(x as int, low as int, 16);
        assert(x as nat / pow2((4 * (16 - j)) as nat) == q / 16);
        lemma_fundamental_div_mod(q as int, 16);
    }
}

/// The sixteen digits that a limb is written with are hexadecimal digits and stand for the
/// limb.
pub proof fn lemma_hex16(x: u64)
    ensures
        hex16_spec(x).len() == 16,
        all_hex(hex16_spec(x)),
        hex_value(hex16_spec(x)) == x,
{
    lemma2_to64();
    lemma_hex16_prefix(x, 16);
    assert(hex16_spec(x).subrange(0, 16) =~= hex16_spec(x));
    assert(pow2((4 * (16 - 16)) as nat) == 1);
    assert(x as nat / 1 == x as nat);
    assert forall|i: int| 0 <= i < 16 implies is_hex_digit(#[trigger] hex16_spec(x)[i]) by {
        let digit = (x as nat / pow2((4 * (15 - i)) as nat)) % 16;
        assert(hex16_spec(x)[i] == hex_digit_char(digit));
    }
}

/// What a field element is written as parses back to the element.
pub proof fn lemma_written_parses_back(fe: Fe25519)
    ensures
        parse_spec(written_spec(fe.x3, fe.x2, fe.x1, fe.x0)) == Ok::<Fe25519, ParseError>(fe),
{
    let (h3, h2, h1, h0) = (
        hex16_spec(fe.x3),
        hex16_spec(fe.x2),
        hex16_spec(fe.x1),
        hex16_spec(fe.x0),
    );
    let w = written_spec(fe.x3, fe.x2, fe.x1, fe.x0);
    let test = hex_digit_test();
    reveal_strlit("0x");
    reveal_strlit("-");
    lemma_hex16(fe.x3);
    lemma_hex16(fe.x2);
    lemma_hex16(fe.x1);
    lemma_hex16(fe.x0);
    lemma_hex_digits_of_digits(h3);
    lemma_hex_digits_of_digits(h2);
    lemma_hex_digits_of_digits(h1);
    lemma_hex_digits_of_digits(h0);
    let zero = seq!['0'];
    assert("0x"@.filter(test) =~= zero) by {
        reveal_with_fuel(Seq::filter, 3);
        assert("0x"@.drop_last() =~= zero);
        assert(zero.drop_last() =~= Seq::<char>::empty());
    }
    assert("-"@.filter(test) =~= Seq::<char>::empty()) by {
        reveal_with_fuel(Seq::filter, 2);
    }
    let w1 = "0x"@ + h3;
    let w2 = w1 + "-"@;
    let w3 = w2 + h2;
    let w4 = w3 + "-"@;
    let w5 = w4 + h1;
    let w6 = w5 + "-"@;
    Seq::filter_distributes_over_add("0x"@, h3, test);
    Seq::filter_distributes_over_add(w1, "-"@, test);
    Seq::filter_distributes_over_add(w2, h2, test);
    Seq::filter_distributes_over_add(w3, "-"@, test);
    Seq::filter_distributes_over_add(w4, h1, test);
    Seq::filter_distributes_over_add(w5, "-"@, test);
    Seq::filter_distributes_over_add(w6, h0, test);
    let d = hex_digits(w);
    assert(d =~= zero + h3 + h2 + h1 + h0);
    assert(d.subrange(1, 17) =~= h3);
    assert(d.subrange(17, 33) =~= h2);
    assert(d.subrange(33, 49) =~= h1);
    assert(d.subrange(49, 65) =~= h0);
    assert(has_prefix_0x(w));
}

impl core::str::FromStr for Fe25519 {
    type Err = ParseError;

    /// Parses as the associated function of the same name does.
    fn from_str(hex_str: &str) -> (r: Result<Fe25519, ParseError>)
        ensures
            r == parse_spec(hex_str@),
    {
        Fe25519::from_str(hex_str)
    }
}

} // verus!
