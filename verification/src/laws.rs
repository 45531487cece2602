//! What holds of the curves whatever the scalar kind computes.
//!
//! The kinds this crate is meant for round their results, so the identities
//! of real arithmetic hold of the curves only within a tolerance, which is a
//! matter for measurement. The laws here are the ones that hold exactly, of
//! every kind: they follow from how the formulas are put together.

use crate::constants::CURVE_LINEAR_BELOW;
use crate::constants::ONE;
use crate::constants::ZERO;
use crate::curves;
use crate::curves::pow_by_squaring;
use crate::internal::CurveParam;
use crate::internal::Lanewise;
use crate::numeric::Scalar;
use crate::numeric::ScalarSpec;
use crate::numeric::SimdScalar;
use crate::simd::Simd;
use vstd::prelude::*;

verus! {

/// A curve parameter within 0.001 of 0 makes `ease_in_curve` the identity:
/// the progress comes back unchanged, whatever it is.
pub proof fn lemma_curve_identity<H: Lanewise>(t: H::Lane, curve: H::Lane)
    requires
        curve.abs_spec().lt_spec(curves::lit::<H>(CURVE_LINEAR_BELOW)),
    ensures
        curves::ease_in_curve::<H>(t, curve) == t,
{
}

/// The same of a whole vector: where the parameter of every lane is within
/// 0.001 of 0, what `ease_in_curve` returns is the progress vector itself.
pub proof fn lemma_curve_identity_of_vector<
    T: SimdScalar,
    const N: usize,
    C: CurveParam<Simd<T, N>>,
>(t: Simd<T, N>, curve: C, r: Simd<T, N>)
    requires
        r.lanes_are(
            |i: int| curves::ease_in_curve::<Simd<T, N>>(t.lane(i), curve.curve_lane(i)),
        ),
        forall|i: int|
            0 <= i < N ==> curves::curve_is_linear::<Simd<T, N>>(#[trigger] curve.curve_lane(i)),
    ensures
        r == t,
{
    assert forall|i: int| 0 <= i < N implies r.lane(i) == t.lane(i) by {
        assert(curves::curve_is_linear::<Simd<T, N>>(curve.curve_lane(i)));
    }
    r.lemma_equal_lanes(t);
}

/// The exponential and the elastic curves are exact at the ends: a progress
/// that equals 0 is eased to the constant 0, and one that equals 1, and not
/// 0 as well, to the constant 1. The one-sided exponential curves are exact
/// at the end that their formula does not reach, `ease_in_expo` at 0 and
/// `ease_out_expo` at 1.
pub proof fn lemma_exact_ends<H: Lanewise>(t: H::Lane)
    ensures
        t.eq_spec(curves::lit::<H>(ZERO)) ==> curves::ease_in_expo::<H>(t) == curves::lit::<H>(
            ZERO,
        ),
        t.eq_spec(curves::lit::<H>(ZERO)) ==> curves::ease_in_out_expo::<H>(t) == curves::lit::<H>(
            ZERO,
        ),
        t.eq_spec(curves::lit::<H>(ZERO)) ==> curves::ease_in_elastic::<H>(t) == curves::lit::<H>(
            ZERO,
        ),
        t.eq_spec(curves::lit::<H>(ZERO)) ==> curves::ease_out_elastic::<H>(t) == curves::lit::<H>(
            ZERO,
        ),
        t.eq_spec(curves::lit::<H>(ZERO)) ==> curves::ease_in_out_elastic::<H>(t) == curves::lit::<
            H,
        >(ZERO),
        t.eq_spec(curves::lit::<H>(ONE)) ==> curves::ease_out_expo::<H>(t) == curves::lit::<H>(ONE),
        t.eq_spec(curves::lit::<H>(ONE)) && !t.eq_spec(curves::lit::<H>(ZERO))
            ==> curves::ease_in_out_expo::<H>(t) == curves::lit::<H>(ONE),
        t.eq_spec(curves::lit::<H>(ONE)) && !t.eq_spec(curves::lit::<H>(ZERO))
            ==> curves::ease_in_elastic::<H>(t) == curves::lit::<H>(ONE),
        t.eq_spec(curves::lit::<H>(ONE)) && !t.eq_spec(curves::lit::<H>(ZERO))
            ==> curves::ease_out_elastic::<H>(t) == curves::lit::<H>(ONE),
        t.eq_spec(curves::lit::<H>(ONE)) && !t.eq_spec(curves::lit::<H>(ZERO))
            ==> curves::ease_in_out_elastic::<H>(t) == curves::lit::<H>(ONE),
{
}

/// Mirror symmetry of the power curves and of the parametrised curve: the
/// out curve at `t` is 1 minus the in curve at `1 - t`.
pub proof fn lemma_mirror<H: Lanewise>(t: H::Lane, curve: H::Lane)
    ensures
        curves::ease_out_quad::<H>(t) == curves::lit::<H>(ONE).sub_spec(
            curves::ease_in_quad::<H>(curves::lit::<H>(ONE).sub_spec(t)),
        ),
        curves::ease_out_cubic::<H>(t) == curves::lit::<H>(ONE).sub_spec(
            curves::ease_in_cubic::<H>(curves::lit::<H>(ONE).sub_spec(t)),
        ),
        curves::ease_out_quart::<H>(t) == curves::lit::<H>(ONE).sub_spec(
            curves::ease_in_quart::<H>(curves::lit::<H>(ONE).sub_spec(t)),
        ),
        curves::ease_out_quint::<H>(t) == curves::lit::<H>(ONE).sub_spec(
            curves::ease_in_quint::<H>(curves::lit::<H>(ONE).sub_spec(t)),
        ),
        curves::ease_out_curve::<H>(t, curve) == curves::lit::<H>(ONE).sub_spec(
            curves::ease_in_curve::<H>(curves::lit::<H>(ONE).sub_spec(t), curve),
        ),
{
}

/// The bounce-in curve is the mirror image of the bounce-out curve: at `t`
/// it is 1 minus the out curve at `1 - t`.
pub proof fn lemma_bounce_in_mirrors_out<H: Lanewise>(t: H::Lane)
    ensures
        curves::ease_in_bounce::<H>(t) == curves::lit::<H>(ONE).sub_spec(
            curves::ease_out_bounce::<H>(curves::lit::<H>(ONE).sub_spec(t)),
        ),
{
}

/// A vector eases a lane to what a scalar of the lane's kind is eased to, for
/// every curve that raises no power: the sine and the bounce curves.
pub proof fn lemma_lane_as_scalar<T: SimdScalar, const N: usize>(t: T)
    ensures
        curves::ease_in_sine::<Simd<T, N>>(t) == curves::ease_in_sine::<T>(t),
        curves::ease_out_sine::<Simd<T, N>>(t) == curves::ease_out_sine::<T>(t),
        curves::ease_in_out_sine::<Simd<T, N>>(t) == curves::ease_in_out_sine::<T>(t),
        curves::ease_in_bounce::<Simd<T, N>>(t) == curves::ease_in_bounce::<T>(t),
        curves::ease_out_bounce::<Simd<T, N>>(t) == curves::ease_out_bounce::<T>(t),
        curves::ease_in_out_bounce::<Simd<T, N>>(t) == curves::ease_in_out_bounce::<T>(t),
{
}

/// The powers that a vector raises for the curves, written out: the square
/// is one product, the cube one more factor on the square, the fourth power
/// the square of the square, the fifth one more factor on the fourth.
pub proof fn lemma_product_chains<T: Scalar>(x: T)
    ensures
        pow_by_squaring(x, 1) == x,
        pow_by_squaring(x, 2) == x.mul_spec(x),
        pow_by_squaring(x, 3) == x.mul_spec(x.mul_spec(x)),
        pow_by_squaring(x, 4) == x.mul_spec(x).mul_spec(x.mul_spec(x)),
        pow_by_squaring(x, 5) == x.mul_spec(x.mul_spec(x).mul_spec(x.mul_spec(x))),
{
    reveal_with_fuel(pow_by_squaring, 4);
}

} // verus!
