//! Configuration values that are floating-point numbers are held by their bit
//! patterns: the library moves them around and compares them, but never
//! computes with them.
use vstd::prelude::*;

verus! {

/// The IEEE-754 bit pattern of an `f64` (as `f64::to_bits` gives it).
#[derive(Copy, Clone, Debug, PartialEq, Eq, Structural)]
pub struct FloatBits(pub u64);

/// The bit pattern of 1.0.
pub const ONE_BITS: u64 = 0x3FF0_0000_0000_0000u64;

/// The bit pattern of 0.5.
pub const HALF_BITS: u64 = 0x3FE0_0000_0000_0000u64;

} // verus!
