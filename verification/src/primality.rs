//! The primality of the field prime: a tree of certificates, one for each prime that the
//! one above it rests on.

pub mod m116;
pub mod m236;
pub mod m255;
pub mod m37;
pub mod m51;
pub mod m55;
pub mod small;
