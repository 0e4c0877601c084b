//! The [`Px`] device-independent pixel unit type for UI layout and sizing.
//!
//! Arithmetic on pixels is checked arithmetic on `i16`: every operator
//! requires that its exact result fits, and then returns it.
use core::ops::{Add, Div, Mul, Rem, Sub};
use vstd::prelude::*;

verus! {

/// A device-independent pixel.
///
/// Multiplication of a pixel by another pixel is not defined.
#[derive(Clone, Copy, Debug, Default, PartialEq, Eq, PartialOrd, Ord, Structural)]
pub struct Px(pub i16);

impl Px {
    /// The largest representable pixel value (`Px(i16::MAX)`).
    pub fn max_value() -> (r: Px)
        ensures
            r.0 == i16::MAX,
    {
        Px(i16::MAX)
    }
}

/// Whether `v` can be held by an `i16`.
pub open spec fn fits_i16(v: int) -> bool {
    i16::MIN <= v <= i16::MAX
}

/// Integer division rounding toward zero, as Rust's `/` on signed integers.
pub open spec fn div_trunc(a: int, b: int) -> int {
    if a >= 0 {
        a / b
    } else {
        -((-a) / b)
    }
}

/// The remainder that goes with [`div_trunc`], as Rust's `%` on signed integers.
pub open spec fn rem_trunc(a: int, b: int) -> int {
    if a >= 0 {
        a % b
    } else {
        -((-a) % b)
    }
}

/// Whether Rust's `a / b` and `a % b` on `i16` are defined (no division by
/// zero, no `i16::MIN / -1`).
pub open spec fn div_ok(a: int, b: int) -> bool {
    b != 0 && !(a == i16::MIN && b == -1)
}

/// A defined truncating quotient of `i16` values is an `i16` value.
pub proof fn lemma_div_trunc_fits(a: int, b: int)
    requires
        fits_i16(a),
        div_ok(a, b),
    ensures
        fits_i16(div_trunc(a, b)),
{
    if a >= 0 {
        if b > 0 {
            assert(0 <= a / b <= a) by (nonlinear_arith)
                requires
                    a >= 0,
                    b > 0,
            ;
        } else {
            assert(-a <= a / b <= 0) by (nonlinear_arith)
                requires
                    a >= 0,
                    b < 0,
            ;
        }
    } else {
        let na = -a;
        if b > 0 {
            assert(0 <= na / b <= na) by (nonlinear_arith)
                requires
                    na > 0,
                    b > 0,
            ;
        } else {
            assert(b <= -1);
            if b == -1 {
                assert(na / b == -na) by (nonlinear_arith)
                    requires
                        b == -1,
                ;
            } else {
                assert(-na <= 2 * (na / b) && na / b <= 0) by (nonlinear_arith)
                    requires
                        na > 0,
                        b < -1,
                ;
            }
        }
    }
}

impl vstd::std_specs::ops::AddSpecImpl for Px {
    open spec fn obeys_add_spec() -> bool {
        true
    }

    open spec fn add_req(self, rhs: Px) -> bool {
        fits_i16(self.0 + rhs.0)
    }

    open spec fn add_spec(self, rhs: Px) -> Px {
        Px((self.0 + rhs.0) as i16)
    }
}

impl Add for Px {
    type Output = Px;

    fn add(self, rhs: Px) -> Px {
        Px(self.0 + rhs.0)
    }
}

impl vstd::std_specs::ops::SubSpecImpl for Px {
    open spec fn obeys_sub_spec() -> bool {
        true
    }

    open spec fn sub_req(self, rhs: Px) -> bool {
        fits_i16(self.0 - rhs.0)
    }

    open spec fn sub_spec(self, rhs: Px) -> Px {
        Px((self.0 - rhs.0) as i16)
    }
}

impl Sub for Px {
    type Output = Px;

    fn sub(self, rhs: Px) -> Px {
        Px(self.0 - rhs.0)
    }
}

impl vstd::std_specs::ops::DivSpecImpl for Px {
    open spec fn obeys_div_spec() -> bool {
        true
    }

    open spec fn div_req(self, rhs: Px) -> bool {
        div_ok(self.0 as int, rhs.0 as int)
    }

    open spec fn div_spec(self, rhs: Px) -> Px {
        Px(div_trunc(self.0 as int, rhs.0 as int) as i16)
    }
}

impl Div for Px {
    type Output = Px;

    fn div(self, rhs: Px) -> Px {
        Px(self.0 / rhs.0)
    }
}

impl vstd::std_specs::ops::RemSpecImpl for Px {
    open spec fn obeys_rem_spec() -> bool {
        true
    }

    open spec fn rem_req(self, rhs: Px) -> bool {
        div_ok(self.0 as int, rhs.0 as int)
    }

    open spec fn rem_spec(self, rhs: Px) -> Px {
        Px(rem_trunc(self.0 as int, rhs.0 as int) as i16)
    }
}

impl Rem for Px {
    type Output = Px;

    fn rem(self, rhs: Px) -> Px {
        Px(self.0 % rhs.0)
    }
}

impl vstd::std_specs::ops::MulSpecImpl<i16> for Px {
    open spec fn obeys_mul_spec() -> bool {
        true
    }

    open spec fn mul_req(self, rhs: i16) -> bool {
        fits_i16(self.0 * rhs)
    }

    open spec fn mul_spec(self, rhs: i16) -> Px {
        Px((self.0 * rhs) as i16)
    }
}

impl Mul<i16> for Px {
    type Output = Px;

    fn mul(self, rhs: i16) -> Px {
        Px(self.0 * rhs)
    }
}

impl vstd::std_specs::ops::DivSpecImpl<i16> for Px {
    open spec fn obeys_div_spec() -> bool {
        true
    }

    open spec fn div_req(self, rhs: i16) -> bool {
        div_ok(self.0 as int, rhs as int)
    }

    open spec fn div_spec(self, rhs: i16) -> Px {
        Px(div_trunc(self.0 as int, rhs as int) as i16)
    }
}

impl Div<i16> for Px {
    type Output = Px;

    fn div(self, rhs: i16) -> Px {
        Px(self.0 / rhs)
    }
}

impl vstd::std_specs::ops::RemSpecImpl<i16> for Px {
    open spec fn obeys_rem_spec() -> bool {
        true
    }

    open spec fn rem_req(self, rhs: i16) -> bool {
        div_ok(self.0 as int, rhs as int)
    }

    open spec fn rem_spec(self, rhs: i16) -> Px {
        Px(rem_trunc(self.0 as int, rhs as int) as i16)
    }
}

impl Rem<i16> for Px {
    type Output = Px;

    fn rem(self, rhs: i16) -> Px {
        Px(self.0 % rhs)
    }
}

impl vstd::std_specs::ops::MulSpecImpl<Px> for i16 {
    open spec fn obeys_mul_spec() -> bool {
        true
    }

    open spec fn mul_req(self, rhs: Px) -> bool {
        fits_i16(self * rhs.0)
    }

    open spec fn mul_spec(self, rhs: Px) -> Px {
        Px((self * rhs.0) as i16)
    }
}

impl Mul<Px> for i16 {
    type Output = Px;

    fn mul(self, rhs: Px) -> Px {
        Px(self * rhs.0)
    }
}

impl vstd::std_specs::ops::DivSpecImpl<Px> for i16 {
    open spec fn obeys_div_spec() -> bool {
        true
    }

    open spec fn div_req(self, rhs: Px) -> bool {
        div_ok(self as int, rhs.0 as int)
    }

    open spec fn div_spec(self, rhs: Px) -> Px {
        Px(div_trunc(self as int, rhs.0 as int) as i16)
    }
}

impl Div<Px> for i16 {
    type Output = Px;

    fn div(self, rhs: Px) -> Px {
        Px(self / rhs.0)
    }
}

impl vstd::std_specs::ops::RemSpecImpl<Px> for i16 {
    open spec fn obeys_rem_spec() -> bool {
        true
    }

    open spec fn rem_req(self, rhs: Px) -> bool {
        div_ok(self as int, rhs.0 as int)
    }

    open spec fn rem_spec(self, rhs: Px) -> Px {
        Px(rem_trunc(self as int, rhs.0 as int) as i16)
    }
}

impl Rem<Px> for i16 {
    type Output = Px;

    fn rem(self, rhs: Px) -> Px {
        Px(self % rhs.0)
    }
}

impl vstd::std_specs::convert::FromSpecImpl<i16> for Px {
    open spec fn obeys_from_spec() -> bool {
        true
    }

    open spec fn from_spec(v: i16) -> Px {
        Px(v)
    }
}

impl From<i16> for Px {
    fn from(v: i16) -> Px {
        Px(v)
    }
}

impl Px {
    /// The larger of two pixel values.
    pub fn max(self, other: Px) -> (r: Px)
        ensures
            r.0 == if self.0 >= other.0 { self.0 } else { other.0 },
    {
        if self.0 >= other.0 {
            self
        } else {
            other
        }
    }

    /// The smaller of two pixel values.
    pub fn min(self, other: Px) -> (r: Px)
        ensures
            r.0 == if self.0 <= other.0 { self.0 } else { other.0 },
    {
        if self.0 <= other.0 {
            self
        } else {
            other
        }
    }
}

} // verus!
