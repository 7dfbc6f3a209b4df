//! Fixed-point scalar values.
//!
//! Every numeric quantity that the plotting engine works with is a `Scalar`:
//! a signed count of hundredths, so a value carries exactly two decimal
//! digits. All arithmetic saturates at the bounds of `i64` instead of
//! wrapping, so plotting can never fault on extreme inputs.

use vstd::prelude::*;

verus! {

/// Fixed-point units per whole number: a scalar stores hundredths.
pub const SCALE: i64 = 100;

/// Saturation of a mathematical integer into the range of `i64`.
pub open spec fn sat_i64(x: int) -> int {
    if x < i64::MIN {
        i64::MIN as int
    } else if x > i64::MAX {
        i64::MAX as int
    } else {
        x
    }
}

/// Division by a positive divisor rounding toward zero, as machine division
/// of signed values does.
pub open spec fn div_to_zero(a: int, b: int) -> int {
    if a >= 0 {
        a / b
    } else {
        -((-a) / b)
    }
}

/// A scalar plot value: `units` counts hundredths of the represented number.
#[derive(Clone, Copy, Debug, PartialEq, Eq, Structural)]
pub struct Scalar {
    pub units: i64,
}

impl View for Scalar {
    type V = int;

    open spec fn view(&self) -> int {
        self.units as int
    }
}

/// Saturates an `i128` into the `i64` range.
pub fn sat_to_i64(x: i128) -> (r: i64)
    ensures
        r as int == sat_i64(x as int),
{
    if x < i64::MIN as i128 {
        i64::MIN
    } else if x > i64::MAX as i128 {
        i64::MAX
    } else {
        x as i64
    }
}

impl Scalar {
    /// A scalar from a raw count of hundredths.
    pub fn new(units: i64) -> (r: Scalar)
        ensures
            r@ == units,
    {
        Scalar { units }
    }

    /// A scalar from a whole number, saturating at the `i64` bounds.
    pub fn from_int(whole: i64) -> (r: Scalar)
        ensures
            r@ == sat_i64(whole * SCALE),
    {
        proof {
            assert(i64::MIN * (SCALE as int) <= (whole as int) * (SCALE as int) <= i64::MAX * (
            SCALE as int)) by (nonlinear_arith)
                requires
                    i64::MIN <= whole as int <= i64::MAX,
            ;
        }
        let units = sat_to_i64(whole as i128 * SCALE as i128);
        Scalar { units }
    }

    /// Saturating addition.
    pub fn add_sat(self, other: Scalar) -> (r: Scalar)
        ensures
            r@ == sat_i64(self@ + other@),
    {
        let units = sat_to_i64(self.units as i128 + other.units as i128);
        Scalar { units }
    }

    /// Saturating subtraction.
    pub fn sub_sat(self, other: Scalar) -> (r: Scalar)
        ensures
            r@ == sat_i64(self@ - other@),
    {
        let units = sat_to_i64(self.units as i128 - other.units as i128);
        Scalar { units }
    }
}

} // verus!
