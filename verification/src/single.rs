//! IEEE-754 single-precision numbers, held by their bit patterns.
//!
//! The sign is the top bit, the remaining 31 bits are the magnitude. Among
//! patterns that are not NaN, a larger magnitude is a number further from
//! zero, so bounds on a number are bounds on its magnitude.

use vstd::prelude::*;

verus! {

/// The sign bit of a pattern.
pub const SIGN_BIT: u32 = 0x8000_0000;

/// The magnitude of an infinity; every larger magnitude is a NaN.
pub const INFINITY_MAGNITUDE: u32 = 0x7f80_0000;

/// The pattern without its sign bit.
pub open spec fn magnitude(bits: u32) -> u32 {
    if bits >= SIGN_BIT {
        (bits - SIGN_BIT) as u32
    } else {
        bits
    }
}

/// The sign bit is set (true of `-0.0` and of NaNs with the sign bit, too).
pub open spec fn is_negative(bits: u32) -> bool {
    bits >= SIGN_BIT
}

/// The pattern is a NaN.
pub open spec fn is_nan(bits: u32) -> bool {
    magnitude(bits) > INFINITY_MAGNITUDE
}

/// Where a pattern that is not a NaN stands on the number line: the order of
/// these ranks is the order of the numbers, and both zeros have rank 0.
pub open spec fn rank(bits: u32) -> int {
    if is_negative(bits) {
        -(magnitude(bits) as int)
    } else {
        magnitude(bits) as int
    }
}

/// `bits` held to `[-limit, limit]`, where `limit` is the pattern of a
/// number that is not negative: a NaN stays as it is, a number beyond a bound
/// becomes that bound, any other stays as it is.
pub open spec fn clamped(bits: u32, limit: u32) -> u32 {
    if is_nan(bits) || magnitude(bits) <= limit {
        bits
    } else if is_negative(bits) {
        (limit + SIGN_BIT) as u32
    } else {
        limit
    }
}

/// The larger of `bits` and `+0.0`: a NaN and every pattern with the sign bit
/// become `+0.0`, any other stays as it is.
pub open spec fn floored(bits: u32) -> u32 {
    if is_nan(bits) || is_negative(bits) {
        0
    } else {
        bits
    }
}

/// Whether the pattern is a number, that is, no NaN.
pub fn is_number(bits: u32) -> (number: bool)
    ensures
        number == !is_nan(bits),
{
    let mag: u32 = if bits >= SIGN_BIT {
        bits - SIGN_BIT
    } else {
        bits
    };
    mag <= INFINITY_MAGNITUDE
}

/// Holds `bits` to `[-limit, limit]`.
pub fn clamp_symmetric(bits: u32, limit: u32) -> (r: u32)
    requires
        limit <= INFINITY_MAGNITUDE,
    ensures
        r == clamped(bits, limit),
{
    let negative = bits >= SIGN_BIT;
    let mag: u32 = if negative {
        bits - SIGN_BIT
    } else {
        bits
    };
    if mag > INFINITY_MAGNITUDE || mag <= limit {
        bits
    } else if negative {
        limit + SIGN_BIT
    } else {
        limit
    }
}

/// The larger of `bits` and `+0.0`.
pub fn floor_at_zero(bits: u32) -> (r: u32)
    ensures
        r == floored(bits),
{
    if bits >= SIGN_BIT || bits > INFINITY_MAGNITUDE {
        0
    } else {
        bits
    }
}

/// A number held to `[-limit, limit]` lies in that interval, and the bounds
/// change nothing that already lies in it.
pub proof fn clamped_is_within(bits: u32, limit: u32)
    requires
        limit <= INFINITY_MAGNITUDE,
    ensures
        is_nan(clamped(bits, limit)) <==> is_nan(bits),
        !is_nan(bits) ==> -rank(limit) <= rank(clamped(bits, limit)) <= rank(limit),
        !is_nan(bits) && -rank(limit) <= rank(bits) <= rank(limit) ==> clamped(bits, limit) == bits,
        clamped(clamped(bits, limit), limit) == clamped(bits, limit),
{
}

/// The larger of a pattern and `+0.0` is a number, is not below zero, and is
/// the pattern itself wherever that is a number above zero or `+0.0`.
pub proof fn floored_is_not_below_zero(bits: u32)
    ensures
        !is_nan(floored(bits)),
        !is_negative(floored(bits)),
        rank(floored(bits)) >= 0,
        !is_nan(bits) ==> rank(floored(bits)) == if rank(bits) > 0 { rank(bits) } else { 0 },
        !is_nan(bits) && !is_negative(bits) ==> floored(bits) == bits,
{
}

} // verus!
