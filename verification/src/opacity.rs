//! The window's opacity, a fraction between 0.1 and 1.0.
//!
//! An opacity is carried as the bit pattern of an IEEE 754 double, the
//! form in which the host hands it over (`to_bits`) and takes it back
//! (`from_bits`). Among the doubles that are zero or positive, a larger
//! number has the larger bit pattern read as an unsigned integer, so the
//! limits are applied by comparing patterns.

use vstd::prelude::*;

verus! {

/// Bit pattern of the double nearest to 0.1, the lowest opacity.
pub const MIN_OPACITY_BITS: u64 = 0x3FB9_9999_9999_999A;

/// Bit pattern of 1.0, the highest opacity.
pub const MAX_OPACITY_BITS: u64 = 0x3FF0_0000_0000_0000;

/// Bit pattern of negative zero: the sign bit alone. A pattern at or above
/// it has the sign bit set.
pub const SIGN_BIT: u64 = 0x8000_0000_0000_0000;

/// Bit pattern of positive infinity. A pattern whose other bits, the sign
/// left aside, read higher than this is not a number.
pub const INFINITY_BITS: u64 = 0x7FF0_0000_0000_0000;

/// The pattern without its sign bit.
pub open spec fn magnitude(bits: u64) -> int {
    if bits >= SIGN_BIT {
        bits - SIGN_BIT
    } else {
        bits as int
    }
}

/// The pattern stands for no number.
pub open spec fn is_nan(bits: u64) -> bool {
    magnitude(bits) > INFINITY_BITS
}

/// The pattern of the opacity nearest to the number that `bits` stands
/// for: the lowest opacity for a number below it, the negative numbers and
/// negative zero among them, the highest for a number above it, and the
/// number itself in between.
pub open spec fn clamped(bits: u64) -> u64
    recommends
        !is_nan(bits),
{
    if bits >= SIGN_BIT || bits < MIN_OPACITY_BITS {
        MIN_OPACITY_BITS
    } else if bits > MAX_OPACITY_BITS {
        MAX_OPACITY_BITS
    } else {
        bits
    }
}

/// An opacity within the limits.
#[derive(Clone, Copy, Debug, PartialEq, Eq, Structural)]
pub struct WindowOpacity {
    bits: u64,
}

impl View for WindowOpacity {
    type V = u64;

    closed spec fn view(&self) -> u64 {
        self.bits
    }
}

impl WindowOpacity {
    #[verifier::type_invariant]
    spec fn within_limits(&self) -> bool {
        MIN_OPACITY_BITS <= self.bits <= MAX_OPACITY_BITS
    }

    /// The opacity for a requested number, given by its bit pattern: the
    /// number brought within the limits. What is not a number gives no
    /// opacity.
    pub fn from_bits(bits: u64) -> (r: Option<WindowOpacity>)
        ensures
            is_nan(bits) <==> r is None,
            r matches Some(opacity) ==> opacity@ == clamped(bits),
            r matches Some(opacity) ==> MIN_OPACITY_BITS <= opacity@ <= MAX_OPACITY_BITS,
    {
        let magnitude: u64 = if bits >= SIGN_BIT {
            bits - SIGN_BIT
        } else {
            bits
        };
        if magnitude > INFINITY_BITS {
            None
        } else if bits >= SIGN_BIT || bits < MIN_OPACITY_BITS {
            Some(WindowOpacity { bits: MIN_OPACITY_BITS })
        } else if bits > MAX_OPACITY_BITS {
            Some(WindowOpacity { bits: MAX_OPACITY_BITS })
        } else {
            Some(WindowOpacity { bits })
        }
    }

    /// The bit pattern of the opacity, for the host to apply.
    pub fn bits(&self) -> (bits: u64)
        ensures
            bits == self@,
            MIN_OPACITY_BITS <= bits <= MAX_OPACITY_BITS,
    {
        proof {
            use_type_invariant(self);
        }
        self.bits
    }
}

/// Clamping law: an opacity is within the limits, a number within the
/// limits is its own opacity, and so bringing an opacity within the limits
/// again changes nothing.
pub proof fn lemma_clamped_is_within_limits(bits: u64)
    ensures
        MIN_OPACITY_BITS <= clamped(bits) <= MAX_OPACITY_BITS,
        MIN_OPACITY_BITS <= bits <= MAX_OPACITY_BITS ==> clamped(bits) == bits,
        clamped(clamped(bits)) == clamped(bits),
        !is_nan(clamped(bits)),
{
}

} // verus!
