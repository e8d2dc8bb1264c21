//! Small verified library of three self-contained pieces: a bit-exact
//! codec between IEEE-754 binary32 bit patterns and their semantic
//! (sign, exponent, significand) decomposition, a simulated file whose
//! open/closed state gates reading, and a toy message mailbox between
//! simulated satellites and a ground station.

pub mod codec;
pub mod file;
pub mod sats;
