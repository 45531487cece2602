//! The closed set of representations and what the contracts say of them.

use crate::constants::TWO;
use crate::numeric::Scalar;
use crate::numeric::ScalarSpec;
use crate::numeric::SimdScalar;
use crate::simd::Simd;
use vstd::prelude::*;

verus! {

/// Marks the representations that the curves are defined on: every scalar
/// kind, and every vector of lanes of a kind. The set is closed.
pub trait Sealed {

}

impl<T: Scalar> Sealed for T {

}

impl<T: SimdScalar, const N: usize> Sealed for Simd<T, N> {

}

/// A value made of lanes: a scalar is one lane, a vector is `N` of them.
///
/// The contracts of this crate speak of a value lane by lane. No operation
/// mixes lanes: lane `i` of a result depends on lane `i` of the operands only.
pub trait Lanewise: Sealed + Copy + Sized {
    /// The scalar kind of each lane.
    type Lane: Scalar;

    /// The number of lanes.
    spec fn width() -> nat;

    /// Lane `i`, for `0 <= i < width()`. A scalar is its own lane 0.
    spec fn lane(self, i: int) -> Self::Lane;

    /// Whether lane `i` of `self` is `f(i)`, for each lane. Of a scalar this
    /// says that it is `f(0)`.
    spec fn lanes_are(self, f: spec_fn(int) -> Self::Lane) -> bool;

    /// A value has the lanes that each of its lanes is shown to have.
    proof fn lemma_lanes_are(self, f: spec_fn(int) -> Self::Lane)
        requires
            forall|i: int| 0 <= i < Self::width() ==> #[trigger] self.lane(i) == f(i),
        ensures
            self.lanes_are(f),
    ;

    /// Each lane of a value is the lane that the value is said to have there.
    proof fn lemma_lane_is(self, f: spec_fn(int) -> Self::Lane, i: int)
        requires
            self.lanes_are(f),
            0 <= i < Self::width(),
        ensures
            self.lane(i) == f(i),
    ;

    /// Whether the kind of the lanes is pure: every operation that this
    /// representation applies to a lane is a function of its operands.
    spec fn pure_kind() -> bool;

    /// How this representation raises a lane to the integer power `n >= 1`.
    spec fn powi_lane(x: Self::Lane, n: i32) -> Self::Lane;

    /// How this representation raises a lane to the power `exponent`.
    spec fn powf_lane(base: Self::Lane, exponent: Self::Lane) -> Self::Lane;

    /// How this representation raises 2 to the power of a lane.
    spec fn exp2_lane(x: Self::Lane) -> Self::Lane;
}

impl<T: Scalar> Lanewise for T {
    type Lane = T;

    open spec fn width() -> nat {
        1
    }

    open spec fn lane(self, i: int) -> T {
        self
    }

    open spec fn lanes_are(self, f: spec_fn(int) -> T) -> bool {
        self == f(0)
    }

    proof fn lemma_lanes_are(self, f: spec_fn(int) -> T) {
        assert(self.lane(0) == f(0));
    }

    proof fn lemma_lane_is(self, f: spec_fn(int) -> T, i: int) {
    }

    open spec fn pure_kind() -> bool {
        T::pure()
    }

    open spec fn powi_lane(x: T, n: i32) -> T {
        x.powi_spec(n)
    }

    open spec fn powf_lane(base: T, exponent: T) -> T {
        base.powf_spec(exponent)
    }

    open spec fn exp2_lane(x: T) -> T {
        T::constant(TWO).powf_spec(x)
    }
}

/// A curve parameter for an eased value of type `T`: a scalar, which shapes
/// every lane alike, or a vector with one parameter for each lane.
pub trait CurveParam<T: Lanewise>: Sealed + Copy {
    /// The parameter that shapes lane `i` of the eased value.
    spec fn curve_lane(self, i: int) -> T::Lane;

    /// The parameter in the shape of the eased value.
    fn to_curve(self) -> (r: T)
        ensures
            forall|i: int| 0 <= i < T::width() ==> #[trigger] r.lane(i) == self.curve_lane(i),
    ;
}

impl<T: Scalar> CurveParam<T> for T {
    open spec fn curve_lane(self, i: int) -> T {
        self
    }

    fn to_curve(self) -> (r: T) {
        self
    }
}

impl<T: SimdScalar, const N: usize> CurveParam<Simd<T, N>> for T {
    open spec fn curve_lane(self, i: int) -> T {
        self
    }

    fn to_curve(self) -> (r: Simd<T, N>) {
        Simd::splat(self)
    }
}

impl<T: SimdScalar, const N: usize> CurveParam<Simd<T, N>> for Simd<T, N> {
    open spec fn curve_lane(self, i: int) -> T {
        self.lane(i)
    }

    fn to_curve(self) -> (r: Simd<T, N>) {
        self
    }
}

} // verus!
