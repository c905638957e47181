//! Questions about floating-point numbers that their bit patterns answer.
//!
//! Configuration values such as a cache size or a frame rate are carried as the
//! bit pattern of the IEEE 754 number; the arithmetic on them is done elsewhere.
use vstd::prelude::*;

verus! {

/// Whether the `f64` with these bits is greater than zero: the sign bit is
/// clear, some other bit is set, and the number is at most infinity.
#[verifier::allow_in_spec]
pub fn is_positive_f64(bits: u64) -> bool
    returns
        0 < bits && bits <= 0x7ff0_0000_0000_0000,
{
    0 < bits && bits <= 0x7ff0_0000_0000_0000
}

/// Whether the `f32` with these bits is greater than zero: the sign bit is
/// clear, some other bit is set, and the number is at most infinity.
#[verifier::allow_in_spec]
pub fn is_positive_f32(bits: u32) -> bool
    returns
        0 < bits && bits <= 0x7f80_0000,
{
    0 < bits && bits <= 0x7f80_0000
}

/// A double is greater than zero exactly when its sign is clear, it is not zero, and it
/// is a number: its exponent is not the highest one, unless it is infinity.
pub proof fn positive_doubles_are_those_above_zero(bits: u64)
    ensures
        is_positive_f64(bits) <==> {
            let sign = bits >> 63;
            let exponent = (bits >> 52) & 0x7ff;
            let fraction = bits & 0xf_ffff_ffff_ffff;
            &&& sign == 0
            &&& exponent != 0 || fraction != 0
            &&& exponent != 0x7ff || fraction == 0
        },
{
    assert((0 < bits && bits <= 0x7ff0_0000_0000_0000) == (bits >> 63 == 0 && ((bits >> 52) & 0x7ff
        != 0 || bits & 0xf_ffff_ffff_ffff != 0) && ((bits >> 52) & 0x7ff != 0x7ff || bits
        & 0xf_ffff_ffff_ffff == 0))) by (bit_vector);
}

/// A float is greater than zero exactly when its sign is clear, it is not zero, and it
/// is a number: its exponent is not the highest one, unless it is infinity.
pub proof fn positive_floats_are_those_above_zero(bits: u32)
    ensures
        is_positive_f32(bits) <==> {
            let sign = bits >> 31;
            let exponent = (bits >> 23) & 0xff;
            let fraction = bits & 0x7f_ffff;
            &&& sign == 0
            &&& exponent != 0 || fraction != 0
            &&& exponent != 0xff || fraction == 0
        },
{
    assert((0 < bits && bits <= 0x7f80_0000) == (bits >> 31 == 0 && ((bits >> 23) & 0xff != 0 || bits
        & 0x7f_ffff != 0) && ((bits >> 23) & 0xff != 0xff || bits & 0x7f_ffff == 0)))
        by (bit_vector);
}

} // verus!
