use vstd::prelude::*;

verus! {

/// A drag delta, held as the IEEE-754 binary64 bit pattern of the value.
///
/// The unit of the delta is left to the caller; the library only carries it.
#[derive(Clone, Copy, Debug, PartialEq, Eq, Structural)]
pub struct DragDelta {
    pub bits: u64,
}

impl DragDelta {
    /// The sign bit: set for negative values, `-0.0` and negative infinity.
    pub open spec fn sign_negative(self) -> bool {
        (self.bits >> 63u64) == 1u64
    }

    /// The eleven-bit biased exponent field.
    pub open spec fn exponent_field(self) -> u64 {
        (self.bits >> 52u64) & 0x7ffu64
    }

    /// The fifty-two-bit fraction (mantissa) field.
    pub open spec fn fraction_field(self) -> u64 {
        self.bits & 0xf_ffff_ffff_ffffu64
    }

    /// All exponent bits set and a non-zero fraction.
    pub open spec fn is_nan(self) -> bool {
        self.exponent_field() == 0x7ffu64 && self.fraction_field() != 0u64
    }

    /// All exponent bits set and a zero fraction: positive or negative infinity.
    pub open spec fn is_infinite(self) -> bool {
        self.exponent_field() == 0x7ffu64 && self.fraction_field() == 0u64
    }

    /// Neither a NaN nor an infinity: zeros, subnormals and normal numbers.
    pub open spec fn is_finite(self) -> bool {
        self.exponent_field() != 0x7ffu64
    }

    /// `0.0` or `-0.0`.
    pub open spec fn is_zero(self) -> bool {
        self.exponent_field() == 0u64 && self.fraction_field() == 0u64
    }
}

/// Hands the drag delta back unchanged, bit for bit.
///
/// Every value is accepted: finite values come back equal, zeros keep their
/// sign, an infinity comes back as the same infinity and a NaN stays a NaN.
pub fn process_drag(delta: DragDelta) -> (r: DragDelta)
    ensures
        r == delta,
        delta.is_finite() ==> r.is_finite() && r.bits == delta.bits,
        delta.is_zero() ==> r.is_zero() && r.sign_negative() == delta.sign_negative(),
        delta.is_infinite() ==> r.is_infinite() && r.sign_negative()
            == delta.sign_negative(),
        delta.is_nan() ==> r.is_nan(),
{
    delta
}

} // verus!
