//! The arithmetic core of X25519: the field of integers modulo 2^255 - 19 on four 64-bit
//! limbs, its inversion, and the Montgomery ladder on Curve25519, each with a contract that
//! Verus proves.
//!
//! The contracts speak of the integer that a field element stands for (its view) and of the
//! residue arithmetic in [`field`]. The laws of the field, among them that the Fermat inverse
//! is an inverse, are proved in [`laws`]; that rests on the primality of 2^255 - 19, whose
//! certificate is in [`primality`].

pub mod arith;
pub mod bits;
pub mod codec;
pub mod fermat;
pub mod field;
pub mod invert;
pub mod ladder;
pub mod laws;
pub mod limbs;
pub mod lucas;
pub mod modexp;
pub mod numtheory;
pub mod primality;
pub mod support;
