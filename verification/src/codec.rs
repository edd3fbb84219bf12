//! The 32-byte little-endian encoding of field elements and scalars, the decoding of
//! u-coordinates and the clamping of scalars, and the X25519 function on byte strings.

use crate::arith::Fe25519;
use crate::field::p;
use crate::ladder::x25519_ladder;
use crate::limbs::{canonical_select, lemma_top_bit, limbs_value, UMASK63};
use crate::support::{parse_spec, ParseError};
use vstd::arithmetic::div_mod::{lemma_fundamental_div_mod_converse, lemma_small_mod};
use vstd::pervasive::unreached;
use vstd::prelude::*;

verus! {

/// The 64-bit integer that the eight bytes from offset `off` stand for, least significant first.
pub open spec fn le64(b: Seq<u8>, off: int) -> nat {
    (b[off] + b[off + 1] * 0x100 + b[off + 2] * 0x1_0000 + b[off + 3] * 0x100_0000 + b[off + 4]
        * 0x1_0000_0000 + b[off + 5] * 0x100_0000_0000 + b[off + 6] * 0x1_0000_0000_0000 + b[off
        + 7] * 0x100_0000_0000_0000) as nat
}

/// The 256-bit integer that 32 bytes stand for, least significant byte first.
pub open spec fn le_value(b: Seq<u8>) -> nat {
    le64(b, 0) + le64(b, 8) * 0x1_0000_0000_0000_0000 + le64(b, 16)
        * 0x1_0000_0000_0000_0000_0000_0000_0000_0000nat + le64(b, 24)
        * 0x1_0000_0000_0000_0000_0000_0000_0000_0000_0000_0000_0000_0000nat
}

/// The eight bytes of a limb, least significant first.
pub open spec fn limb_bytes(x: u64) -> Seq<u8> {
    seq![
        (x % 0x100) as u8,
        ((x / 0x100) % 0x100) as u8,
        ((x / 0x1_0000) % 0x100) as u8,
        ((x / 0x100_0000) % 0x100) as u8,
        ((x / 0x1_0000_0000) % 0x100) as u8,
        ((x / 0x100_0000_0000) % 0x100) as u8,
        ((x / 0x1_0000_0000_0000) % 0x100) as u8,
        ((x / 0x100_0000_0000_0000) % 0x100) as u8,
    ]
}

/// The 32-byte encoding of an integer below 2^256, least significant byte first.
pub open spec fn encode_spec(v: nat) -> Seq<u8> {
    limb_bytes((v % 0x1_0000_0000_0000_0000) as u64) + limb_bytes(
        ((v / 0x1_0000_0000_0000_0000) % 0x1_0000_0000_0000_0000) as u64,
    ) + limb_bytes(
        ((v / 0x1_0000_0000_0000_0000_0000_0000_0000_0000nat) % 0x1_0000_0000_0000_0000) as u64,
    ) + limb_bytes(
        ((v / 0x1_0000_0000_0000_0000_0000_0000_0000_0000_0000_0000_0000_0000nat)
            % 0x1_0000_0000_0000_0000) as u64,
    )
}

/// The 32 bytes of an integer below 2^256 in the order in which its hexadecimal digits are
/// written, most significant byte first.
pub open spec fn be_bytes_spec(v: nat) -> Seq<u8> {
    encode_spec(v).reverse()
}

/// The scalar that 32 bytes stand for, clamped.
pub open spec fn decode_k_spec(b: Seq<u8>) -> nat {
    clamp_spec(le_value(b))
}

/// The X25519 function on byte strings: the scalar is decoded and clamped, the u-coordinate
/// decoded, the ladder run and its result encoded.
pub open spec fn x25519_spec(k: Seq<u8>, u: Seq<u8>) -> Seq<u8> {
    encode_spec(x25519_ladder(decode_k_spec(k), decode_u_spec(u)))
}

/// The u-coordinate that 32 bytes stand for: bit 255 is cleared, and what is left is reduced
/// modulo the prime.
pub open spec fn decode_u_spec(b: Seq<u8>) -> nat {
    (le_value(b) % 0x8000_0000_0000_0000_0000_0000_0000_0000_0000_0000_0000_0000_0000_0000_0000_0000nat)
        % p()
}

/// The clamped scalar: bits 0, 1, 2 and 255 are cleared and bit 254 is set.
pub open spec fn clamp_spec(v: nat) -> nat {
    (v % 0x4000_0000_0000_0000_0000_0000_0000_0000_0000_0000_0000_0000_0000_0000_0000_0000nat - v
        % 8 + 0x4000_0000_0000_0000_0000_0000_0000_0000_0000_0000_0000_0000_0000_0000_0000_0000nat) as nat
}

/// Eight bytes combined by shifts stand for the sum of their weighted values.
proof fn lemma_load_le64(b0: u8, b1: u8, b2: u8, b3: u8, b4: u8, b5: u8, b6: u8, b7: u8)
    by (bit_vector)
    ensures
        ((b0 as u64) | ((b1 as u64) << 8) | ((b2 as u64) << 16) | ((b3 as u64) << 24) | ((b4 as u64)
            << 32) | ((b5 as u64) << 40) | ((b6 as u64) << 48) | ((b7 as u64) << 56)) == (b0 as u64)
            + (b1 as u64) * 0x100 + (b2 as u64) * 0x1_0000 + (b3 as u64) * 0x100_0000 + (b4 as u64)
            * 0x1_0000_0000 + (b5 as u64) * 0x100_0000_0000 + (b6 as u64) * 0x1_0000_0000_0000 + (
        b7 as u64) * 0x100_0000_0000_0000,
{
}

/// The bytes that shifts cut out of a limb are its base-256 digits.
proof fn lemma_limb_bytes(x: u64)
    by (bit_vector)
    ensures
        x as u8 == x % 0x100,
        (x >> 8) as u8 == (x / 0x100) % 0x100,
        (x >> 16) as u8 == (x / 0x1_0000) % 0x100,
        (x >> 24) as u8 == (x / 0x100_0000) % 0x100,
        (x >> 32) as u8 == (x / 0x1_0000_0000) % 0x100,
        (x >> 40) as u8 == (x / 0x100_0000_0000) % 0x100,
        (x >> 48) as u8 == (x / 0x1_0000_0000_0000) % 0x100,
        (x >> 56) as u8 == (x / 0x100_0000_0000_0000) % 0x100,
{
}

/// The base-256 digits of a sum of weighted bytes are the bytes.
proof fn lemma_digits_of_bytes(
    b0: u8,
    b1: u8,
    b2: u8,
    b3: u8,
    b4: u8,
    b5: u8,
    b6: u8,
    b7: u8,
    x: u64,
)
    by (bit_vector)
    requires
        x == ((b0 as u64) | ((b1 as u64) << 8) | ((b2 as u64) << 16) | ((b3 as u64) << 24) | ((
        b4 as u64) << 32) | ((b5 as u64) << 40) | ((b6 as u64) << 48) | ((b7 as u64) << 56)),
    ensures
        x % 0x100 == b0,
        (x / 0x100) % 0x100 == b1,
        (x / 0x1_0000) % 0x100 == b2,
        (x / 0x100_0000) % 0x100 == b3,
        (x / 0x1_0000_0000) % 0x100 == b4,
        (x / 0x100_0000_0000) % 0x100 == b5,
        (x / 0x1_0000_0000_0000) % 0x100 == b6,
        (x / 0x100_0000_0000_0000) % 0x100 == b7,
{
}

/// The bytes of the limb that eight bytes stand for are those eight bytes.
pub proof fn lemma_limb_bytes_of_le64(b: Seq<u8>, off: int)
    requires
        0 <= off,
        off + 8 <= b.len(),
    ensures
        le64(b, off) < 0x1_0000_0000_0000_0000,
        limb_bytes(le64(b, off) as u64) == b.subrange(off, off + 8),
{
    let x = le64(b, off) as u64;
    lemma_load_le64(
        b[off],
        b[off + 1],
        b[off + 2],
        b[off + 3],
        b[off + 4],
        b[off + 5],
        b[off + 6],
        b[off + 7],
    );
    lemma_digits_of_bytes(
        b[off],
        b[off + 1],
        b[off + 2],
        b[off + 3],
        b[off + 4],
        b[off + 5],
        b[off + 6],
        b[off + 7],
        x,
    );
    assert(limb_bytes(x) =~= b.subrange(off, off + 8));
}

/// The limb that the eight bytes from offset `off` stand for, least significant first.
pub fn load_le64(b: &[u8], off: usize) -> (x: u64)
    requires
        off + 8 <= b@.len(),
    ensures
        x == le64(b@, off as int),
        limb_bytes(x) == b@.subrange(off as int, off + 8),
{
    let x: u64 = (b[off] as u64) | ((b[off + 1] as u64) << 8) | ((b[off + 2] as u64) << 16) | ((b[off
        + 3] as u64) << 24) | ((b[off + 4] as u64) << 32) | ((b[off + 5] as u64) << 40) | ((b[off
        + 6] as u64) << 48) | ((b[off + 7] as u64) << 56);
    proof {
        lemma_load_le64(
            b[off as int],
            b[off + 1],
            b[off + 2],
            b[off + 3],
            b[off + 4],
            b[off + 5],
            b[off + 6],
            b[off + 7],
        );
        lemma_limb_bytes_of_le64(b@, off as int);
    }
    x
}

/// The limbs of a four-limb integer are its base-2^64 digits.
pub proof fn lemma_limbs_of_value(x0: u64, x1: u64, x2: u64, x3: u64)
    ensures
        limbs_value(x0, x1, x2, x3) % 0x1_0000_0000_0000_0000 == x0,
        (limbs_value(x0, x1, x2, x3) / 0x1_0000_0000_0000_0000) % 0x1_0000_0000_0000_0000 == x1,
        (limbs_value(x0, x1, x2, x3) / 0x1_0000_0000_0000_0000_0000_0000_0000_0000nat)
            % 0x1_0000_0000_0000_0000 == x2,
        (limbs_value(x0, x1, x2, x3)
            / 0x1_0000_0000_0000_0000_0000_0000_0000_0000_0000_0000_0000_0000nat)
            % 0x1_0000_0000_0000_0000 == x3,
        encode_spec(limbs_value(x0, x1, x2, x3)) == limb_bytes(x0) + limb_bytes(x1) + limb_bytes(x2)
            + limb_bytes(x3),
{
    let v = limbs_value(x0, x1, x2, x3) as int;
    let w: int = 0x1_0000_0000_0000_0000;
    let w2: int = 0x1_0000_0000_0000_0000_0000_0000_0000_0000int;
    let w3: int = 0x1_0000_0000_0000_0000_0000_0000_0000_0000_0000_0000_0000_0000int;
    lemma_fundamental_div_mod_converse(
        v,
        w,
        x1 + x2 * 0x1_0000_0000_0000_0000 + x3 * 0x1_0000_0000_0000_0000_0000_0000_0000_0000int,
        x0 as int,
    );
    lemma_fundamental_div_mod_converse(
        v,
        w2,
        x2 + x3 * 0x1_0000_0000_0000_0000,
        x0 + x1 * 0x1_0000_0000_0000_0000,
    );
    lemma_fundamental_div_mod_converse(
        v,
        w3,
        x3 as int,
        x0 + x1 * 0x1_0000_0000_0000_0000 + x2 * 0x1_0000_0000_0000_0000_0000_0000_0000_0000int,
    );
    lemma_fundamental_div_mod_converse(
        x1 + x2 * 0x1_0000_0000_0000_0000 + x3 * 0x1_0000_0000_0000_0000_0000_0000_0000_0000int,
        w,
        x2 + x3 * 0x1_0000_0000_0000_0000,
        x1 as int,
    );
    lemma_fundamental_div_mod_converse(x2 + x3 * 0x1_0000_0000_0000_0000, w, x3 as int, x2 as int);
    lemma_small_mod(x3 as nat, w as nat);
}

/// Clearing bit 255 of a four-limb integer and selecting the canonical representative.
fn mask_and_reduce(x0: u64, x1: u64, x2: u64, x3: u64) -> (fe: Fe25519)
    ensures
        fe@ == (limbs_value(x0, x1, x2, x3)
            % 0x8000_0000_0000_0000_0000_0000_0000_0000_0000_0000_0000_0000_0000_0000_0000_0000nat)
            % p(),
        fe.canonical(),
{
    let m3: u64 = x3 & UMASK63;
    proof {
        lemma_top_bit(x3);
        let v = limbs_value(x0, x1, x2, x3) as int;
        let q: int = if x3 >= 0x8000_0000_0000_0000 {
            1
        } else {
            0
        };
        lemma_fundamental_div_mod_converse(
            v,
            0x8000_0000_0000_0000_0000_0000_0000_0000_0000_0000_0000_0000_0000_0000_0000_0000int,
            q,
            limbs_value(x0, x1, x2, m3) as int,
        );
    }
    let (d0, d1, d2, d3) = canonical_select(x0, x1, x2, m3);
    Fe25519 { x3: d3, x2: d2, x1: d1, x0: d0 }
}

/// The low three bits of a limb cleared; bit 63 cleared and bit 62 set.
proof fn lemma_clamp_limbs(x0: u64, x3: u64)
    by (bit_vector)
    ensures
        (x0 & 0xffff_ffff_ffff_fff8) == x0 - x0 % 8,
        ((x3 & 0x7fff_ffff_ffff_ffff) | 0x4000_0000_0000_0000) == x3 % 0x4000_0000_0000_0000
            + 0x4000_0000_0000_0000,
{
}

/// Clamping of a four-limb scalar.
fn clamp(x0: u64, x1: u64, x2: u64, x3: u64) -> (fe: Fe25519)
    ensures
        fe@ == clamp_spec(limbs_value(x0, x1, x2, x3)),
{
    let c0: u64 = x0 & 0xFFFF_FFFF_FFFF_FFF8;
    let c3: u64 = (x3 & 0x7FFF_FFFF_FFFF_FFFF) | 0x4000_0000_0000_0000;
    proof {
        lemma_clamp_limbs(x0, x3);
        let v = limbs_value(x0, x1, x2, x3) as int;
        lemma_fundamental_div_mod_converse(
            v,
            0x4000_0000_0000_0000_0000_0000_0000_0000_0000_0000_0000_0000_0000_0000_0000_0000int,
            (x3 / 0x4000_0000_0000_0000) as int,
            x0 + x1 * 0x1_0000_0000_0000_0000 + x2 * 0x1_0000_0000_0000_0000_0000_0000_0000_0000int
                + (x3 % 0x4000_0000_0000_0000)
                * 0x1_0000_0000_0000_0000_0000_0000_0000_0000_0000_0000_0000_0000int,
        );
        lemma_fundamental_div_mod_converse(
            v,
            8,
            x0 / 8 + x1 * 0x2000_0000_0000_0000 + x2 * 0x2000_0000_0000_0000_0000_0000_0000_0000int
                + x3 * 0x2000_0000_0000_0000_0000_0000_0000_0000_0000_0000_0000_0000int,
            (x0 % 8) as int,
        );
    }
    Fe25519 { x3: c3, x2: x2, x1: x1, x0: c0 }
}

/// Decodes a u-coordinate from its 32-byte little-endian form: bit 255 is cleared and the
/// rest reduced modulo the prime. Any other length is refused.
pub fn decode_u(bytes: &[u8]) -> (r: Result<Fe25519, ParseError>)
    ensures
        bytes@.len() < 32 ==> r == Err::<Fe25519, ParseError>(ParseError::LengthToShort),
        bytes@.len() > 32 ==> r == Err::<Fe25519, ParseError>(ParseError::LengthToLong),
        bytes@.len() == 32 ==> r is Ok && r->Ok_0@ == decode_u_spec(bytes@)
            && r->Ok_0.canonical(),
{
    if bytes.len() < 32 {
        return Err(ParseError::LengthToShort);
    }
    if bytes.len() > 32 {
        return Err(ParseError::LengthToLong);
    }
    let x0 = load_le64(bytes, 0);
    let x1 = load_le64(bytes, 8);
    let x2 = load_le64(bytes, 16);
    let x3 = load_le64(bytes, 24);
    Ok(mask_and_reduce(x0, x1, x2, x3))
}

/// Decodes a scalar from its 32-byte little-endian form and clamps it. Any other length is
/// refused.
pub fn decode_k(bytes: &[u8]) -> (r: Result<Fe25519, ParseError>)
    ensures
        bytes@.len() < 32 ==> r == Err::<Fe25519, ParseError>(ParseError::LengthToShort),
        bytes@.len() > 32 ==> r == Err::<Fe25519, ParseError>(ParseError::LengthToLong),
        bytes@.len() == 32 ==> r is Ok && r->Ok_0@ == decode_k_spec(bytes@),
{
    if bytes.len() < 32 {
        return Err(ParseError::LengthToShort);
    }
    if bytes.len() > 32 {
        return Err(ParseError::LengthToLong);
    }
    let x0 = load_le64(bytes, 0);
    let x1 = load_le64(bytes, 8);
    let x2 = load_le64(bytes, 16);
    let x3 = load_le64(bytes, 24);
    Ok(clamp(x0, x1, x2, x3))
}

/// Encodes a field element in its 32-byte little-endian form.
pub fn encode(fe: &Fe25519) -> (out: [u8; 32])
    ensures
        out@ == encode_spec(fe@),
{
    proof {
        lemma_limb_bytes(fe.x0);
        lemma_limb_bytes(fe.x1);
        lemma_limb_bytes(fe.x2);
        lemma_limb_bytes(fe.x3);
        lemma_limbs_of_value(fe.x0, fe.x1, fe.x2, fe.x3);
    }
    let out: [u8; 32] = [
        #[verifier::truncate] (fe.x0 as u8),
        #[verifier::truncate] ((fe.x0 >> 8) as u8),
        #[verifier::truncate] ((fe.x0 >> 16) as u8),
        #[verifier::truncate] ((fe.x0 >> 24) as u8),
        #[verifier::truncate] ((fe.x0 >> 32) as u8),
        #[verifier::truncate] ((fe.x0 >> 40) as u8),
        #[verifier::truncate] ((fe.x0 >> 48) as u8),
        #[verifier::truncate] ((fe.x0 >> 56) as u8),
        #[verifier::truncate] (fe.x1 as u8),
        #[verifier::truncate] ((fe.x1 >> 8) as u8),
        #[verifier::truncate] ((fe.x1 >> 16) as u8),
        #[verifier::truncate] ((fe.x1 >> 24) as u8),
        #[verifier::truncate] ((fe.x1 >> 32) as u8),
        #[verifier::truncate] ((fe.x1 >> 40) as u8),
        #[verifier::truncate] ((fe.x1 >> 48) as u8),
        #[verifier::truncate] ((fe.x1 >> 56) as u8),
        #[verifier::truncate] (fe.x2 as u8),
        #[verifier::truncate] ((fe.x2 >> 8) as u8),
        #[verifier::truncate] ((fe.x2 >> 16) as u8),
        #[verifier::truncate] ((fe.x2 >> 24) as u8),
        #[verifier::truncate] ((fe.x2 >> 32) as u8),
        #[verifier::truncate] ((fe.x2 >> 40) as u8),
        #[verifier::truncate] ((fe.x2 >> 48) as u8),
        #[verifier::truncate] ((fe.x2 >> 56) as u8),
        #[verifier::truncate] (fe.x3 as u8),
        #[verifier::truncate] ((fe.x3 >> 8) as u8),
        #[verifier::truncate] ((fe.x3 >> 16) as u8),
        #[verifier::truncate] ((fe.x3 >> 24) as u8),
        #[verifier::truncate] ((fe.x3 >> 32) as u8),
        #[verifier::truncate] ((fe.x3 >> 40) as u8),
        #[verifier::truncate] ((fe.x3 >> 48) as u8),
        #[verifier::truncate] ((fe.x3 >> 56) as u8),
    ];
    proof {
        assert(out@.subrange(0, 8) =~= limb_bytes(fe.x0));
        assert(out@.subrange(8, 16) =~= limb_bytes(fe.x1));
        assert(out@.subrange(16, 24) =~= limb_bytes(fe.x2));
        assert(out@.subrange(24, 32) =~= limb_bytes(fe.x3));
        assert(out@ =~= out@.subrange(0, 8) + out@.subrange(8, 16) + out@.subrange(16, 24)
            + out@.subrange(24, 32));
    }
    out
}

/// The X25519 function: decodes and clamps the scalar `k`, decodes the u-coordinate `u`, runs
/// the ladder and encodes its result. An input of any length but 32 is refused.
pub fn x25519(k: &[u8], u: &[u8]) -> (r: Result<[u8; 32], ParseError>)
    ensures
        k@.len() < 32 ==> r == Err::<[u8; 32], ParseError>(ParseError::LengthToShort),
        k@.len() > 32 ==> r == Err::<[u8; 32], ParseError>(ParseError::LengthToLong),
        k@.len() == 32 && u@.len() < 32 ==> r == Err::<[u8; 32], ParseError>(
            ParseError::LengthToShort,
        ),
        k@.len() == 32 && u@.len() > 32 ==> r == Err::<[u8; 32], ParseError>(
            ParseError::LengthToLong,
        ),
        k@.len() == 32 && u@.len() == 32 ==> r is Ok && r->Ok_0@ == x25519_spec(k@, u@),
{
    let scalar = match decode_k(k) {
        Ok(fe) => fe,
        Err(e) => { return Err(e); },
    };
    let point = match decode_u(u) {
        Ok(fe) => fe,
        Err(e) => { return Err(e); },
    };
    let mut out = Fe25519::default();
    crate::ladder::mul(&mut out, &scalar, point);
    Ok(encode(&out))
}

/// The limb whose bytes are those of `x` in the opposite order.
pub open spec fn swap_bytes_spec(x: u64) -> nat {
    le64(limb_bytes(x).reverse(), 0)
}

/// A limb put together from the bytes of another in the opposite order.
proof fn lemma_swap_bytes(x: u64)
    by (bit_vector)
    ensures
        (((x & 0xff) << 56) | ((x & 0xff00) << 40) | ((x & 0xff_0000) << 24) | ((x & 0xff00_0000)
            << 8) | ((x >> 8) & 0xff00_0000) | ((x >> 24) & 0xff_0000) | ((x >> 40) & 0xff00) | (x
            >> 56)) == (x / 0x100_0000_0000_0000) % 0x100 + ((x / 0x1_0000_0000_0000) % 0x100)
            * 0x100 + ((x / 0x100_0000_0000) % 0x100) * 0x1_0000 + ((x / 0x1_0000_0000) % 0x100)
            * 0x100_0000 + ((x / 0x100_0000) % 0x100) * 0x1_0000_0000 + ((x / 0x1_0000) % 0x100)
            * 0x100_0000_0000 + ((x / 0x100) % 0x100) * 0x1_0000_0000_0000 + (x % 0x100)
            * 0x100_0000_0000_0000,
{
}

/// Reverses the order of the eight bytes of a limb.
pub fn swap_bytes(x: u64) -> (r: u64)
    ensures
        r == swap_bytes_spec(x),
{
    proof {
        lemma_swap_bytes(x);
    }
    ((x & 0xff) << 56) | ((x & 0xff00) << 40) | ((x & 0xff_0000) << 24) | ((x & 0xff00_0000) << 8)
        | ((x >> 8) & 0xff00_0000) | ((x >> 24) & 0xff_0000) | ((x >> 40) & 0xff00) | (x >> 56)
}

/// The bytes of a four-limb integer, most significant first, read as an integer least
/// significant byte first: the limbs change places and each has its bytes reversed.
pub proof fn lemma_le_value_of_be_bytes(x0: u64, x1: u64, x2: u64, x3: u64)
    ensures
        le_value(be_bytes_spec(limbs_value(x0, x1, x2, x3))) == swap_bytes_spec(x3)
            + swap_bytes_spec(x2) * 0x1_0000_0000_0000_0000 + swap_bytes_spec(x1)
            * 0x1_0000_0000_0000_0000_0000_0000_0000_0000nat + swap_bytes_spec(x0)
            * 0x1_0000_0000_0000_0000_0000_0000_0000_0000_0000_0000_0000_0000nat,
{
    lemma_limbs_of_value(x0, x1, x2, x3);
    let enc = encode_spec(limbs_value(x0, x1, x2, x3));
    let be = enc.reverse();
    assert(enc.subrange(0, 8) =~= limb_bytes(x0));
    assert(enc.subrange(8, 16) =~= limb_bytes(x1));
    assert(enc.subrange(16, 24) =~= limb_bytes(x2));
    assert(enc.subrange(24, 32) =~= limb_bytes(x3));
    assert(be.subrange(0, 8) =~= limb_bytes(x3).reverse());
    assert(be.subrange(8, 16) =~= limb_bytes(x2).reverse());
    assert(be.subrange(16, 24) =~= limb_bytes(x1).reverse());
    assert(be.subrange(24, 32) =~= limb_bytes(x0).reverse());
    assert(le64(be, 0) == le64(be.subrange(0, 8), 0));
    assert(le64(be, 8) == le64(be.subrange(8, 16), 0));
    assert(le64(be, 16) == le64(be.subrange(16, 24), 0));
    assert(le64(be, 24) == le64(be.subrange(24, 32), 0));
}

/// The u-coordinate that a hexadecimal string stands for: `0x` and 64 hexadecimal digits,
/// which give the 32 bytes of the encoding in their order.
pub fn get_u(src: &str) -> (r: Fe25519)
    requires
        parse_spec(src@) is Ok,
    ensures
        r@ == decode_u_spec(be_bytes_spec(parse_spec(src@)->Ok_0@)),
        r.canonical(),
{
    let t = match Fe25519::from_str(src) {
        Ok(t) => t,
        Err(_) => unreached(),
    };
    proof {
        lemma_le_value_of_be_bytes(t.x0, t.x1, t.x2, t.x3);
    }
    mask_and_reduce(swap_bytes(t.x3), swap_bytes(t.x2), swap_bytes(t.x1), swap_bytes(t.x0))
}

/// The clamped scalar that a hexadecimal string stands for: `0x` and 64 hexadecimal digits,
/// which give the 32 bytes of the encoding in their order.
pub fn get_k(src: &str) -> (r: Fe25519)
    requires
        parse_spec(src@) is Ok,
    ensures
        r@ == decode_k_spec(be_bytes_spec(parse_spec(src@)->Ok_0@)),
{
    let t = match Fe25519::from_str(src) {
        Ok(t) => t,
        Err(_) => unreached(),
    };
    proof {
        lemma_le_value_of_be_bytes(t.x0, t.x1, t.x2, t.x3);
    }
    clamp(swap_bytes(t.x3), swap_bytes(t.x2), swap_bytes(t.x1), swap_bytes(t.x0))
}

} // verus!
