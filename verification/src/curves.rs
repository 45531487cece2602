//! The curve formulas, lane by lane.
//!
//! Each named curve is defined once, as a function from one lane of progress
//! to one lane of eased value, over the operations of the lane's scalar kind.
//! The representation `H` enters a formula only where a power is raised: a
//! scalar uses its kind's own primitives, a vector composes its powers from
//! products, exponentials and logarithms.
//!
//! A formula is a term over what the operations of the kind denote. It is what
//! a curve returns where the kind is pure.
//!
//! In the comments `t` is the progress. The piecewise curves test `t` with the
//! kind's own comparisons, so a lane that compares neither less than nor equal
//! to anything, such as a NaN, takes the last branch.

use crate::constants::BACK_C1;
use crate::constants::BACK_C2;
use crate::constants::BACK_C3;
use crate::constants::BOUNCE_CENTRE_2;
use crate::constants::BOUNCE_CENTRE_3;
use crate::constants::BOUNCE_CENTRE_4;
use crate::constants::BOUNCE_EDGE_1;
use crate::constants::BOUNCE_EDGE_2;
use crate::constants::BOUNCE_EDGE_3;
use crate::constants::BOUNCE_N1;
use crate::constants::BOUNCE_RISE_2;
use crate::constants::BOUNCE_RISE_3;
use crate::constants::BOUNCE_RISE_4;
use crate::constants::CURVE_LINEAR_BELOW;
use crate::constants::EIGHT;
use crate::constants::ELASTIC_C4;
use crate::constants::ELASTIC_C5;
use crate::constants::ELASTIC_PHASE_IN;
use crate::constants::ELASTIC_PHASE_IN_OUT;
use crate::constants::ELASTIC_PHASE_OUT;
use crate::constants::FRAC_PI_2;
use crate::constants::HALF;
use crate::constants::NEG_HALF;
use crate::constants::NEG_TEN;
use crate::constants::ONE;
use crate::constants::PI;
use crate::constants::SIXTEEN;
use crate::constants::TEN;
use crate::constants::TWENTY;
use crate::constants::TWO;
use crate::constants::ZERO;
use crate::internal::Lanewise;
use crate::numeric::Scalar;
use crate::numeric::ScalarSpec;
use vstd::prelude::*;

verus! {

/// The lane value of the constant encoded by `bits`.
pub open spec fn lit<H: Lanewise>(bits: u32) -> H::Lane {
    H::Lane::constant(bits)
}

/// `x + x`.
pub open spec fn twice<H: Lanewise>(x: H::Lane) -> H::Lane {
    x.add_spec(x)
}

/// A single product chain for `x` to the power `n >= 1`: an even power squares
/// the power of half the exponent, an odd one multiplies one more factor of
/// `x` onto the power below it.
pub open spec fn pow_by_squaring<T: Scalar>(x: T, n: int) -> T
    decreases n,
{
    if n <= 1 {
        x
    } else if n % 2 == 0 {
        let root = pow_by_squaring(x, n / 2);
        root.mul_spec(root)
    } else {
        x.mul_spec(pow_by_squaring(x, n - 1))
    }
}

/// `t^n`.
pub open spec fn ease_in_pow<H: Lanewise>(t: H::Lane, n: i32) -> H::Lane {
    H::powi_lane(t, n)
}

/// `1 - (1 - t)^n`.
pub open spec fn ease_out_pow<H: Lanewise>(t: H::Lane, n: i32) -> H::Lane {
    lit::<H>(ONE).sub_spec(H::powi_lane(lit::<H>(ONE).sub_spec(t), n))
}

/// The upper half of the two-sided power curves: `1 - (2 - 2t)^n / 2`.
pub open spec fn upper_half_pow<H: Lanewise>(t: H::Lane, n: i32) -> H::Lane {
    lit::<H>(ONE).sub_spec(
        H::powi_lane(lit::<H>(TWO).sub_spec(twice::<H>(t)), n).mul_spec(lit::<H>(HALF)),
    )
}

/// `t^2`.
pub open spec fn ease_in_quad<H: Lanewise>(t: H::Lane) -> H::Lane {
    ease_in_pow::<H>(t, 2)
}

/// `1 - (1 - t)^2`.
pub open spec fn ease_out_quad<H: Lanewise>(t: H::Lane) -> H::Lane {
    ease_out_pow::<H>(t, 2)
}

/// Below one half `2t^2`, as `t^2 + t^2`, from there on `1 - (2 - 2t)^2 / 2`.
pub open spec fn ease_in_out_quad<H: Lanewise>(t: H::Lane) -> H::Lane {
    if t.lt_spec(lit::<H>(HALF)) {
        twice::<H>(H::powi_lane(t, 2))
    } else {
        upper_half_pow::<H>(t, 2)
    }
}

/// `t^3`.
pub open spec fn ease_in_cubic<H: Lanewise>(t: H::Lane) -> H::Lane {
    ease_in_pow::<H>(t, 3)
}

/// `1 - (1 - t)^3`.
pub open spec fn ease_out_cubic<H: Lanewise>(t: H::Lane) -> H::Lane {
    ease_out_pow::<H>(t, 3)
}

/// Below one half `4t^3`, as `t^3` doubled twice, from there on
/// `1 - (2 - 2t)^3 / 2`.
pub open spec fn ease_in_out_cubic<H: Lanewise>(t: H::Lane) -> H::Lane {
    if t.lt_spec(lit::<H>(HALF)) {
        twice::<H>(twice::<H>(H::powi_lane(t, 3)))
    } else {
        upper_half_pow::<H>(t, 3)
    }
}

/// `t^4`.
pub open spec fn ease_in_quart<H: Lanewise>(t: H::Lane) -> H::Lane {
    ease_in_pow::<H>(t, 4)
}

/// `1 - (1 - t)^4`.
pub open spec fn ease_out_quart<H: Lanewise>(t: H::Lane) -> H::Lane {
    ease_out_pow::<H>(t, 4)
}

/// Below one half `8t^4`, from there on `1 - (2 - 2t)^4 / 2`.
pub open spec fn ease_in_out_quart<H: Lanewise>(t: H::Lane) -> H::Lane {
    if t.lt_spec(lit::<H>(HALF)) {
        lit::<H>(EIGHT).mul_spec(H::powi_lane(t, 4))
    } else {
        upper_half_pow::<H>(t, 4)
    }
}

/// `t^5`.
pub open spec fn ease_in_quint<H: Lanewise>(t: H::Lane) -> H::Lane {
    ease_in_pow::<H>(t, 5)
}

/// `1 - (1 - t)^5`.
pub open spec fn ease_out_quint<H: Lanewise>(t: H::Lane) -> H::Lane {
    ease_out_pow::<H>(t, 5)
}

/// Below one half `16t^5`, from there on `1 - (2 - 2t)^5 / 2`.
pub open spec fn ease_in_out_quint<H: Lanewise>(t: H::Lane) -> H::Lane {
    if t.lt_spec(lit::<H>(HALF)) {
        lit::<H>(SIXTEEN).mul_spec(H::powi_lane(t, 5))
    } else {
        upper_half_pow::<H>(t, 5)
    }
}

/// `1 - cos(t·π/2)`.
pub open spec fn ease_in_sine<H: Lanewise>(t: H::Lane) -> H::Lane {
    lit::<H>(ONE).sub_spec(t.mul_spec(lit::<H>(FRAC_PI_2)).cos_spec())
}

/// `sin(t·π/2)`.
pub open spec fn ease_out_sine<H: Lanewise>(t: H::Lane) -> H::Lane {
    t.mul_spec(lit::<H>(FRAC_PI_2)).sin_spec()
}

/// `0.5 - 0.5·cos(t·π)`, as one fused multiply-add on the cosine.
pub open spec fn ease_in_out_sine<H: Lanewise>(t: H::Lane) -> H::Lane {
    t.mul_spec(lit::<H>(PI)).cos_spec().mul_add_spec(lit::<H>(NEG_HALF), lit::<H>(HALF))
}

/// `1 - sqrt(1 - t^2)`.
pub open spec fn ease_in_circ<H: Lanewise>(t: H::Lane) -> H::Lane {
    lit::<H>(ONE).sub_spec(lit::<H>(ONE).sub_spec(H::powi_lane(t, 2)).sqrt_spec())
}

/// `sqrt(1 - (t - 1)^2)`.
pub open spec fn ease_out_circ<H: Lanewise>(t: H::Lane) -> H::Lane {
    lit::<H>(ONE).sub_spec(H::powi_lane(t.sub_spec(lit::<H>(ONE)), 2)).sqrt_spec()
}

/// Below one half `(1 - sqrt(1 - (2t)^2)) / 2`, from there on
/// `(sqrt(1 - (2 - 2t)^2) + 1) / 2`.
pub open spec fn ease_in_out_circ<H: Lanewise>(t: H::Lane) -> H::Lane {
    let one = lit::<H>(ONE);
    let double = twice::<H>(t);
    if t.lt_spec(lit::<H>(HALF)) {
        one.sub_spec(one.sub_spec(H::powi_lane(double, 2)).sqrt_spec()).mul_spec(lit::<H>(HALF))
    } else {
        one.sub_spec(H::powi_lane(lit::<H>(TWO).sub_spec(double), 2)).sqrt_spec().add_spec(
            one,
        ).mul_spec(lit::<H>(HALF))
    }
}

/// `c3·t^3 - c1·t^2`.
pub open spec fn ease_in_back<H: Lanewise>(t: H::Lane) -> H::Lane {
    lit::<H>(BACK_C3).mul_spec(H::powi_lane(t, 3)).sub_spec(
        lit::<H>(BACK_C1).mul_spec(H::powi_lane(t, 2)),
    )
}

/// `1 + c3·(t - 1)^3 + c1·(t - 1)^2`.
pub open spec fn ease_out_back<H: Lanewise>(t: H::Lane) -> H::Lane {
    let back = t.sub_spec(lit::<H>(ONE));
    lit::<H>(ONE).add_spec(lit::<H>(BACK_C3).mul_spec(H::powi_lane(back, 3))).add_spec(
        lit::<H>(BACK_C1).mul_spec(H::powi_lane(back, 2)),
    )
}

/// Below one half `(2t)^2·((c2 + 1)·2t - c2) / 2`, from there on
/// `((2t - 2)^2·((c2 + 1)·(2t - 2) + c2) + 2) / 2`. Each inner term is one
/// fused multiply-add, and so is the sum with 2.
pub open spec fn ease_in_out_back<H: Lanewise>(t: H::Lane) -> H::Lane {
    let c2 = lit::<H>(BACK_C2);
    let slope = c2.add_spec(lit::<H>(ONE));
    if t.lt_spec(lit::<H>(HALF)) {
        let x = twice::<H>(t);
        H::powi_lane(x, 2).mul_spec(slope.mul_add_spec(x, c2.neg_spec())).mul_spec(lit::<H>(HALF))
    } else {
        let x = twice::<H>(t).sub_spec(lit::<H>(TWO));
        H::powi_lane(x, 2).mul_add_spec(slope.mul_add_spec(x, c2), lit::<H>(TWO)).mul_spec(
            lit::<H>(HALF),
        )
    }
}

/// One bounce after the first: `n1·(t - centre)^2 + rise`, the sum fused.
pub open spec fn bounce_arc<H: Lanewise>(t: H::Lane, centre: u32, rise: u32) -> H::Lane {
    let offset = t.sub_spec(lit::<H>(centre));
    offset.mul_spec(offset).mul_add_spec(lit::<H>(BOUNCE_N1), lit::<H>(rise))
}

/// Four parabolic arcs. Below 1/2.75 it is `n1·t^2`; below 2/2.75, below
/// 2.5/2.75 and from there on it is the second, third and fourth bounce.
pub open spec fn ease_out_bounce<H: Lanewise>(t: H::Lane) -> H::Lane {
    if t.lt_spec(lit::<H>(BOUNCE_EDGE_1)) {
        lit::<H>(BOUNCE_N1).mul_spec(t).mul_spec(t)
    } else if t.lt_spec(lit::<H>(BOUNCE_EDGE_2)) {
        bounce_arc::<H>(t, BOUNCE_CENTRE_2, BOUNCE_RISE_2)
    } else if t.lt_spec(lit::<H>(BOUNCE_EDGE_3)) {
        bounce_arc::<H>(t, BOUNCE_CENTRE_3, BOUNCE_RISE_3)
    } else {
        bounce_arc::<H>(t, BOUNCE_CENTRE_4, BOUNCE_RISE_4)
    }
}

/// `1 - ease_out_bounce(1 - t)`.
pub open spec fn ease_in_bounce<H: Lanewise>(t: H::Lane) -> H::Lane {
    lit::<H>(ONE).sub_spec(ease_out_bounce::<H>(lit::<H>(ONE).sub_spec(t)))
}

/// Below one half `(1 - ease_out_bounce(1 - 2t)) / 2`, from there on
/// `(1 + ease_out_bounce(2t - 1)) / 2`.
pub open spec fn ease_in_out_bounce<H: Lanewise>(t: H::Lane) -> H::Lane {
    let one = lit::<H>(ONE);
    if t.lt_spec(lit::<H>(HALF)) {
        one.sub_spec(ease_out_bounce::<H>(one.sub_spec(twice::<H>(t)))).mul_spec(lit::<H>(HALF))
    } else {
        one.add_spec(ease_out_bounce::<H>(twice::<H>(t).sub_spec(one))).mul_spec(lit::<H>(HALF))
    }
}

/// `2^x`, as the representation raises powers of two.
pub open spec fn exp2<H: Lanewise>(x: H::Lane) -> H::Lane {
    H::exp2_lane(x)
}

/// The fused `scale·t + shift`.
pub open spec fn ramp<H: Lanewise>(scale: H::Lane, t: H::Lane, shift: H::Lane) -> H::Lane {
    scale.mul_add_spec(t, shift)
}

/// The oscillation of the elastic curves: `sin((scale·t + phase)·step)`, the
/// inner sum fused.
pub open spec fn swing<H: Lanewise>(scale: H::Lane, t: H::Lane, phase: u32, step: u32) -> H::Lane {
    ramp::<H>(scale, t, lit::<H>(phase)).mul_spec(lit::<H>(step)).sin_spec()
}

/// 0 where `t` equals 0, else `2^(10t - 10)`.
pub open spec fn ease_in_expo<H: Lanewise>(t: H::Lane) -> H::Lane {
    let ten = lit::<H>(TEN);
    if t.eq_spec(lit::<H>(ZERO)) {
        lit::<H>(ZERO)
    } else {
        exp2::<H>(ramp::<H>(ten, t, ten.neg_spec()))
    }
}

/// 1 where `t` equals 1, else `1 - 2^(-10t)`, the difference fused.
pub open spec fn ease_out_expo<H: Lanewise>(t: H::Lane) -> H::Lane {
    let one = lit::<H>(ONE);
    if t.eq_spec(one) {
        one
    } else {
        exp2::<H>(lit::<H>(NEG_TEN).mul_spec(t)).mul_add_spec(one.neg_spec(), one)
    }
}

/// 0 where `t` equals 0 and 1 where it equals 1; else below one half
/// `2^(20t - 10) / 2`, from there on `1 - 2^(-20t + 10) / 2`, the difference
/// fused.
pub open spec fn ease_in_out_expo<H: Lanewise>(t: H::Lane) -> H::Lane {
    let one = lit::<H>(ONE);
    let half = lit::<H>(HALF);
    let ten = lit::<H>(TEN);
    let twenty = lit::<H>(TWENTY);
    if t.eq_spec(lit::<H>(ZERO)) {
        lit::<H>(ZERO)
    } else if t.eq_spec(one) {
        one
    } else if t.lt_spec(half) {
        exp2::<H>(ramp::<H>(twenty, t, ten.neg_spec())).mul_spec(half)
    } else {
        exp2::<H>(ramp::<H>(twenty.neg_spec(), t, ten)).mul_add_spec(half.neg_spec(), one)
    }
}

/// 0 where `t` equals 0 and 1 where it equals 1; else
/// `-2^(10t - 10)·sin((10t - 10.75)·c4)`.
pub open spec fn ease_in_elastic<H: Lanewise>(t: H::Lane) -> H::Lane {
    let ten = lit::<H>(TEN);
    if t.eq_spec(lit::<H>(ZERO)) {
        lit::<H>(ZERO)
    } else if t.eq_spec(lit::<H>(ONE)) {
        lit::<H>(ONE)
    } else {
        exp2::<H>(ramp::<H>(ten, t, ten.neg_spec())).neg_spec().mul_spec(
            swing::<H>(ten, t, ELASTIC_PHASE_IN, ELASTIC_C4),
        )
    }
}

/// 0 where `t` equals 0 and 1 where it equals 1; else
/// `2^(-10t)·sin((10t - 0.75)·c4) + 1`, the sum fused.
pub open spec fn ease_out_elastic<H: Lanewise>(t: H::Lane) -> H::Lane {
    let ten = lit::<H>(TEN);
    if t.eq_spec(lit::<H>(ZERO)) {
        lit::<H>(ZERO)
    } else if t.eq_spec(lit::<H>(ONE)) {
        lit::<H>(ONE)
    } else {
        exp2::<H>(ten.neg_spec().mul_spec(t)).mul_add_spec(
            swing::<H>(ten, t, ELASTIC_PHASE_OUT, ELASTIC_C4),
            lit::<H>(ONE),
        )
    }
}

/// 0 where `t` equals 0 and 1 where it equals 1; else, with
/// `s = sin((20t - 11.125)·c5)`, below one half `-2^(20t - 10)·s / 2`, from
/// there on `2^(-20t + 10)·(s / 2) + 1`, the sum fused.
pub open spec fn ease_in_out_elastic<H: Lanewise>(t: H::Lane) -> H::Lane {
    let half = lit::<H>(HALF);
    let ten = lit::<H>(TEN);
    let twenty = lit::<H>(TWENTY);
    let swung = swing::<H>(twenty, t, ELASTIC_PHASE_IN_OUT, ELASTIC_C5);
    if t.eq_spec(lit::<H>(ZERO)) {
        lit::<H>(ZERO)
    } else if t.eq_spec(lit::<H>(ONE)) {
        lit::<H>(ONE)
    } else if t.lt_spec(half) {
        exp2::<H>(ramp::<H>(twenty, t, ten.neg_spec())).neg_spec().mul_spec(swung).mul_spec(half)
    } else {
        exp2::<H>(ramp::<H>(twenty.neg_spec(), t, ten)).mul_add_spec(
            swung.mul_spec(half),
            lit::<H>(ONE),
        )
    }
}

/// Whether the curve parameter `curve` is so close to 0 that the curve is
/// taken to be the straight line: `|curve| < 0.001`.
pub open spec fn curve_is_linear<H: Lanewise>(curve: H::Lane) -> bool {
    curve.abs_spec().lt_spec(lit::<H>(CURVE_LINEAR_BELOW))
}

/// The exponential curve away from the straight line: with
/// `grow = exp(curve)` and `a = 1 / (1 - grow)` it is `a - a·grow^t`.
pub open spec fn curve_bend<H: Lanewise>(t: H::Lane, curve: H::Lane) -> H::Lane {
    let grow = curve.exp_spec();
    let a = lit::<H>(ONE).div_spec(lit::<H>(ONE).sub_spec(grow));
    a.sub_spec(a.mul_spec(H::powf_lane(grow, t)))
}

/// `t` itself where `|curve| < 0.001`, else `a - a·grow^t`.
pub open spec fn ease_in_curve<H: Lanewise>(t: H::Lane, curve: H::Lane) -> H::Lane {
    if curve_is_linear::<H>(curve) {
        t
    } else {
        curve_bend::<H>(t, curve)
    }
}

/// `1 - ease_in_curve(1 - t, curve)`.
pub open spec fn ease_out_curve<H: Lanewise>(t: H::Lane, curve: H::Lane) -> H::Lane {
    lit::<H>(ONE).sub_spec(ease_in_curve::<H>(lit::<H>(ONE).sub_spec(t), curve))
}

/// Below one half `ease_in_curve(2t, curve) / 2`, from there on
/// `0.5 + ease_out_curve(2(t - 0.5), curve) / 2`.
pub open spec fn ease_in_out_curve<H: Lanewise>(t: H::Lane, curve: H::Lane) -> H::Lane {
    let half = lit::<H>(HALF);
    if t.lt_spec(half) {
        ease_in_curve::<H>(twice::<H>(t), curve).mul_spec(half)
    } else {
        half.add_spec(ease_out_curve::<H>(twice::<H>(t.sub_spec(half)), curve).mul_spec(half))
    }
}

} // verus!
