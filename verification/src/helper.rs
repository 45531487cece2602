//! What a representation provides so that the curves can be written once.

use crate::constants::ONE;
use crate::curves;
use crate::internal::Lanewise;
use crate::numeric::ScalarSpec;
use vstd::prelude::*;

verus! {

/// The operations of a representation, each applied to every lane alone.
///
/// Every contract reads the same way: where the kind of the lanes is pure,
/// lane `i` of the result is the stated term over lane `i` of the operands.
pub trait EasingImplHelper: Lanewise {
    /// The constant encoded by `bits`, in every lane.
    fn from_f32(bits: u32) -> (r: Self)
        ensures
            Self::pure_kind() ==> forall|i: int|
                0 <= i < Self::width() ==> #[trigger] r.lane(i) == curves::lit::<Self>(bits),
    ;

    /// `self + rhs`.
    fn add(self, rhs: Self) -> (r: Self)
        ensures
            Self::pure_kind() ==> forall|i: int|
                0 <= i < Self::width() ==> #[trigger] r.lane(i) == self.lane(i).add_spec(
                    rhs.lane(i),
                ),
    ;

    /// `self - rhs`.
    fn sub(self, rhs: Self) -> (r: Self)
        ensures
            Self::pure_kind() ==> forall|i: int|
                0 <= i < Self::width() ==> #[trigger] r.lane(i) == self.lane(i).sub_spec(
                    rhs.lane(i),
                ),
    ;

    /// `self * rhs`.
    fn mul(self, rhs: Self) -> (r: Self)
        ensures
            Self::pure_kind() ==> forall|i: int|
                0 <= i < Self::width() ==> #[trigger] r.lane(i) == self.lane(i).mul_spec(
                    rhs.lane(i),
                ),
    ;

    /// `self / rhs`.
    fn div(self, rhs: Self) -> (r: Self)
        ensures
            Self::pure_kind() ==> forall|i: int|
                0 <= i < Self::width() ==> #[trigger] r.lane(i) == self.lane(i).div_spec(
                    rhs.lane(i),
                ),
    ;

    /// The sine.
    fn sin(self) -> (r: Self)
        ensures
            Self::pure_kind() ==> forall|i: int|
                0 <= i < Self::width() ==> #[trigger] r.lane(i) == self.lane(i).sin_spec(),
    ;

    /// The cosine.
    fn cos(self) -> (r: Self)
        ensures
            Self::pure_kind() ==> forall|i: int|
                0 <= i < Self::width() ==> #[trigger] r.lane(i) == self.lane(i).cos_spec(),
    ;

    /// `self` to the integer power `n`, as the representation raises powers.
    /// A vector multiplies its way up from the first power, so there is no
    /// power below it.
    fn powi(self, n: i32) -> (r: Self)
        requires
            n >= 1,
        ensures
            Self::pure_kind() ==> forall|i: int|
                0 <= i < Self::width() ==> #[trigger] r.lane(i) == Self::powi_lane(self.lane(i), n),
    ;

    /// `self` to the power `other`, as the representation raises powers.
    fn powf(self, other: Self) -> (r: Self)
        ensures
            Self::pure_kind() ==> forall|i: int|
                0 <= i < Self::width() ==> #[trigger] r.lane(i) == Self::powf_lane(
                    self.lane(i),
                    other.lane(i),
                ),
    ;

    /// `self + self`.
    fn double(self) -> (r: Self)
        ensures
            Self::pure_kind() ==> forall|i: int|
                0 <= i < Self::width() ==> #[trigger] r.lane(i) == curves::twice::<Self>(
                    self.lane(i),
                ),
    {
        self.add(self)
    }

    /// The principal square root.
    fn sqrt(self) -> (r: Self)
        ensures
            Self::pure_kind() ==> forall|i: int|
                0 <= i < Self::width() ==> #[trigger] r.lane(i) == self.lane(i).sqrt_spec(),
    ;

    /// The natural exponential.
    fn exp(self) -> (r: Self)
        ensures
            Self::pure_kind() ==> forall|i: int|
                0 <= i < Self::width() ==> #[trigger] r.lane(i) == self.lane(i).exp_spec(),
    ;

    /// The fused `self * a + b`.
    fn mul_add(self, a: Self, b: Self) -> (r: Self)
        ensures
            Self::pure_kind() ==> forall|i: int|
                0 <= i < Self::width() ==> #[trigger] r.lane(i) == self.lane(i).mul_add_spec(
                    a.lane(i),
                    b.lane(i),
                ),
    ;

    /// `self^n`.
    fn ease_in_pow(self, n: i32) -> (r: Self)
        requires
            n >= 1,
        ensures
            Self::pure_kind() ==> forall|i: int|
                0 <= i < Self::width() ==> #[trigger] r.lane(i) == curves::ease_in_pow::<Self>(
                    self.lane(i),
                    n,
                ),
    {
        self.powi(n)
    }

    /// `1 - (1 - self)^n`.
    fn ease_out_pow(self, n: i32) -> (r: Self)
        requires
            n >= 1,
        ensures
            Self::pure_kind() ==> forall|i: int|
                0 <= i < Self::width() ==> #[trigger] r.lane(i) == curves::ease_out_pow::<Self>(
                    self.lane(i),
                    n,
                ),
    {
        let one = Self::from_f32(ONE);
        one.sub(one.sub(self).powi(n))
    }
}

} // verus!
