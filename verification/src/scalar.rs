//! The scalar specialisation: every operation is the kind's own primitive,
//! every piecewise curve a branch on the kind's own comparison.

use crate::constants::BACK_C2;
use crate::constants::BOUNCE_CENTRE_2;
use crate::constants::BOUNCE_CENTRE_3;
use crate::constants::BOUNCE_CENTRE_4;
use crate::constants::BOUNCE_EDGE_1;
use crate::constants::BOUNCE_EDGE_2;
use crate::constants::BOUNCE_EDGE_3;
use crate::constants::BOUNCE_N1;
use crate::constants::BOUNCE_RISE_2;
use crate::constants::BOUNCE_RISE_3;
use crate::constants::BOUNCE_RISE_4;
use crate::constants::CURVE_LINEAR_BELOW;
use crate::constants::EIGHT;
use crate::constants::ELASTIC_C4;
use crate::constants::ELASTIC_C5;
use crate::constants::ELASTIC_PHASE_IN;
use crate::constants::ELASTIC_PHASE_IN_OUT;
use crate::constants::ELASTIC_PHASE_OUT;
use crate::constants::HALF;
use crate::constants::NEG_TEN;
use crate::constants::ONE;
use crate::constants::SIXTEEN;
use crate::constants::TEN;
use crate::constants::TWENTY;
use crate::constants::TWO;
use crate::constants::ZERO;
use crate::curves;
use crate::easing::EasingArgument;
use crate::helper::EasingImplHelper;
use crate::internal::CurveParam;
use crate::internal::Lanewise;
use crate::numeric::Scalar;
use crate::numeric::ScalarSpec;
use vstd::prelude::*;

verus! {

/// One bounce after the first: `n1 * (t - centre)^2 + rise`, the sum fused.
fn bounce_arc<T: Scalar>(t: T, centre: u32, rise: u32) -> (r: T)
    ensures
        T::pure() ==> r == curves::bounce_arc::<T>(t, centre, rise),
{
    let adjusted = t.sub(T::from_f32(centre));
    adjusted.mul(adjusted).mul_add(T::from_f32(BOUNCE_N1), T::from_f32(rise))
}

/// `2^x` by the kind's own power.
fn exp2<T: Scalar>(x: T) -> (r: T)
    ensures
        T::pure() ==> r == curves::exp2::<T>(x),
{
    T::from_f32(TWO).powf(x)
}

/// `sin((scale * t + phase) * step)`, the inner sum fused.
fn swing<T: Scalar>(scale: T, t: T, phase: u32, step: u32) -> (r: T)
    ensures
        T::pure() ==> r == curves::swing::<T>(scale, t, phase, step),
{
    scale.mul_add(t, T::from_f32(phase)).mul(T::from_f32(step)).sin()
}

impl<T: Scalar> EasingImplHelper for T {
    fn from_f32(bits: u32) -> (r: Self)
        ensures
            T::pure() ==> r == T::constant(bits),
    {
        <T as Scalar>::from_f32(bits)
    }

    fn add(self, rhs: Self) -> (r: Self)
        ensures
            T::pure() ==> r == self.add_spec(rhs),
    {
        Scalar::add(self, rhs)
    }

    fn sub(self, rhs: Self) -> (r: Self)
        ensures
            T::pure() ==> r == self.sub_spec(rhs),
    {
        Scalar::sub(self, rhs)
    }

    fn mul(self, rhs: Self) -> (r: Self)
        ensures
            T::pure() ==> r == self.mul_spec(rhs),
    {
        Scalar::mul(self, rhs)
    }

    fn div(self, rhs: Self) -> (r: Self)
        ensures
            T::pure() ==> r == self.div_spec(rhs),
    {
        Scalar::div(self, rhs)
    }

    fn sin(self) -> (r: Self)
        ensures
            T::pure() ==> r == self.sin_spec(),
    {
        Scalar::sin(self)
    }

    fn cos(self) -> (r: Self)
        ensures
            T::pure() ==> r == self.cos_spec(),
    {
        Scalar::cos(self)
    }

    fn powi(self, n: i32) -> (r: Self)
        ensures
            T::pure() ==> r == self.powi_spec(n),
    {
        Scalar::powi(self, n)
    }

    fn powf(self, other: Self) -> (r: Self)
        ensures
            T::pure() ==> r == self.powf_spec(other),
    {
        Scalar::powf(self, other)
    }

    fn sqrt(self) -> (r: Self)
        ensures
            T::pure() ==> r == self.sqrt_spec(),
    {
        Scalar::sqrt(self)
    }

    fn exp(self) -> (r: Self)
        ensures
            T::pure() ==> r == self.exp_spec(),
    {
        Scalar::exp(self)
    }

    fn mul_add(self, a: Self, b: Self) -> (r: Self)
        ensures
            T::pure() ==> r == self.mul_add_spec(a, b),
    {
        Scalar::mul_add(self, a, b)
    }

}

impl<T: Scalar> EasingArgument for T {
    fn ease_in_out_quad(self) -> (r: Self)
        ensures
            T::pure() ==> r == curves::ease_in_out_quad::<T>(self),
    {
        let half = T::from_f32(HALF);
        if self.lt(half) {
            let squared = self.powi(2);
            squared.add(squared)
        } else {
            let one = T::from_f32(ONE);
            let two = T::from_f32(TWO);
            one.sub(two.sub(self.add(self)).powi(2).mul(half))
        }
    }

    fn ease_in_out_cubic(self) -> (r: Self)
        ensures
            T::pure() ==> r == curves::ease_in_out_cubic::<T>(self),
    {
        let half = T::from_f32(HALF);
        if self.lt(half) {
            let cubed = self.powi(3);
            let doubled = cubed.add(cubed);
            doubled.add(doubled)
        } else {
            let one = T::from_f32(ONE);
            let two = T::from_f32(TWO);
            one.sub(two.sub(self.add(self)).powi(3).mul(half))
        }
    }

    fn ease_in_out_quart(self) -> (r: Self)
        ensures
            T::pure() ==> r == curves::ease_in_out_quart::<T>(self),
    {
        let half = T::from_f32(HALF);
        if self.lt(half) {
            T::from_f32(EIGHT).mul(self.powi(4))
        } else {
            let one = T::from_f32(ONE);
            let two = T::from_f32(TWO);
            one.sub(two.sub(self.add(self)).powi(4).mul(half))
        }
    }

    fn ease_in_out_quint(self) -> (r: Self)
        ensures
            T::pure() ==> r == curves::ease_in_out_quint::<T>(self),
    {
        let half = T::from_f32(HALF);
        if self.lt(half) {
            T::from_f32(SIXTEEN).mul(self.powi(5))
        } else {
            let one = T::from_f32(ONE);
            let two = T::from_f32(TWO);
            one.sub(two.sub(self.add(self)).powi(5).mul(half))
        }
    }

    fn ease_in_out_back(self) -> (r: Self)
        ensures
            T::pure() ==> r == curves::ease_in_out_back::<T>(self),
    {
        let c2 = T::from_f32(BACK_C2);
        let half = T::from_f32(HALF);
        let two = T::from_f32(TWO);
        let slope = c2.add(T::from_f32(ONE));
        if self.lt(half) {
            let two_x = self.add(self);
            let pow_two_x_2 = two_x.powi(2);
            let inner = slope.mul_add(two_x, c2.neg());
            pow_two_x_2.mul(inner).mul(half)
        } else {
            let two_x_minus_2 = self.add(self).sub(two);
            let pow_two_x_minus_2_2 = two_x_minus_2.powi(2);
            let inner = slope.mul_add(two_x_minus_2, c2);
            pow_two_x_minus_2_2.mul_add(inner, two).mul(half)
        }
    }

    fn ease_out_bounce(self) -> (r: Self)
        ensures
            T::pure() ==> r == curves::ease_out_bounce::<T>(self),
    {
        if self.lt(T::from_f32(BOUNCE_EDGE_1)) {
            T::from_f32(BOUNCE_N1).mul(self).mul(self)
        } else if self.lt(T::from_f32(BOUNCE_EDGE_2)) {
            bounce_arc(self, BOUNCE_CENTRE_2, BOUNCE_RISE_2)
        } else if self.lt(T::from_f32(BOUNCE_EDGE_3)) {
            bounce_arc(self, BOUNCE_CENTRE_3, BOUNCE_RISE_3)
        } else {
            bounce_arc(self, BOUNCE_CENTRE_4, BOUNCE_RISE_4)
        }
    }

    fn ease_in_out_bounce(self) -> (r: Self)
        ensures
            T::pure() ==> r == curves::ease_in_out_bounce::<T>(self),
    {
        let half = T::from_f32(HALF);
        let one = T::from_f32(ONE);
        let double = self.add(self);
        if self.lt(half) {
            one.sub(one.sub(double).ease_out_bounce()).mul(half)
        } else {
            one.add(double.sub(one).ease_out_bounce()).mul(half)
        }
    }

    fn ease_in_expo(self) -> (r: Self)
        ensures
            T::pure() ==> r == curves::ease_in_expo::<T>(self),
    {
        let zero = T::from_f32(ZERO);
        if self.eq(zero) {
            zero
        } else {
            let ten = T::from_f32(TEN);
            exp2(ten.mul_add(self, ten.neg()))
        }
    }

    fn ease_out_expo(self) -> (r: Self)
        ensures
            T::pure() ==> r == curves::ease_out_expo::<T>(self),
    {
        let one = T::from_f32(ONE);
        if self.eq(one) {
            one
        } else {
            exp2(T::from_f32(NEG_TEN).mul(self)).mul_add(one.neg(), one)
        }
    }

    fn ease_in_out_expo(self) -> (r: Self)
        ensures
            T::pure() ==> r == curves::ease_in_out_expo::<T>(self),
    {
        let zero = T::from_f32(ZERO);
        let one = T::from_f32(ONE);
        let half = T::from_f32(HALF);
        if self.eq(zero) {
            zero
        } else if self.eq(one) {
            one
        } else if self.lt(half) {
            let ten = T::from_f32(TEN);
            let twenty = T::from_f32(TWENTY);
            exp2(twenty.mul_add(self, ten.neg())).mul(half)
        } else {
            let ten = T::from_f32(TEN);
            let twenty = T::from_f32(TWENTY);
            exp2(twenty.neg().mul_add(self, ten)).mul_add(half.neg(), one)
        }
    }

    fn ease_in_elastic(self) -> (r: Self)
        ensures
            T::pure() ==> r == curves::ease_in_elastic::<T>(self),
    {
        let zero = T::from_f32(ZERO);
        let one = T::from_f32(ONE);
        if self.eq(zero) {
            zero
        } else if self.eq(one) {
            one
        } else {
            let ten = T::from_f32(TEN);
            let power = exp2(ten.mul_add(self, ten.neg()));
            power.neg().mul(swing(ten, self, ELASTIC_PHASE_IN, ELASTIC_C4))
        }
    }

    fn ease_out_elastic(self) -> (r: Self)
        ensures
            T::pure() ==> r == curves::ease_out_elastic::<T>(self),
    {
        let zero = T::from_f32(ZERO);
        let one = T::from_f32(ONE);
        if self.eq(zero) {
            zero
        } else if self.eq(one) {
            one
        } else {
            let ten = T::from_f32(TEN);
            let power = exp2(ten.neg().mul(self));
            power.mul_add(swing(ten, self, ELASTIC_PHASE_OUT, ELASTIC_C4), one)
        }
    }

    fn ease_in_out_elastic(self) -> (r: Self)
        ensures
            T::pure() ==> r == curves::ease_in_out_elastic::<T>(self),
    {
        let zero = T::from_f32(ZERO);
        let one = T::from_f32(ONE);
        let half = T::from_f32(HALF);
        if self.eq(zero) {
            zero
        } else if self.eq(one) {
            one
        } else if self.lt(half) {
            let ten = T::from_f32(TEN);
            let twenty = T::from_f32(TWENTY);
            let power = exp2(twenty.mul_add(self, ten.neg()));
            let swung = swing(twenty, self, ELASTIC_PHASE_IN_OUT, ELASTIC_C5);
            power.neg().mul(swung).mul(half)
        } else {
            let ten = T::from_f32(TEN);
            let twenty = T::from_f32(TWENTY);
            let power = exp2(twenty.neg().mul_add(self, ten));
            let swung = swing(twenty, self, ELASTIC_PHASE_IN_OUT, ELASTIC_C5);
            power.mul_add(swung.mul(half), one)
        }
    }

    fn ease_in_out_circ(self) -> (r: Self)
        ensures
            T::pure() ==> r == curves::ease_in_out_circ::<T>(self),
    {
        let half = T::from_f32(HALF);
        let one = T::from_f32(ONE);
        let two = T::from_f32(TWO);
        let double = self.add(self);
        if self.lt(half) {
            one.sub(one.sub(double.powi(2)).sqrt()).mul(half)
        } else {
            one.sub(two.sub(double).powi(2)).sqrt().add(one).mul(half)
        }
    }

    fn ease_in_curve<C: CurveParam<Self>>(self, curve: C) -> (r: Self)
        ensures
            T::pure() ==> r == curves::ease_in_curve::<T>(self, curve.curve_lane(0)),
    {
        let c = curve.to_curve();
        assert(c.lane(0) == curve.curve_lane(0));
        if c.abs().lt(T::from_f32(CURVE_LINEAR_BELOW)) {
            self
        } else {
            let grow = c.exp();
            let one = T::from_f32(ONE);
            let a = one.div(one.sub(grow));
            a.sub(a.mul(grow.powf(self)))
        }
    }

    fn ease_out_curve<C: CurveParam<Self>>(self, curve: C) -> (r: Self)
        ensures
            T::pure() ==> r == curves::ease_out_curve::<T>(self, curve.curve_lane(0)),
    {
        let one = T::from_f32(ONE);
        one.sub(one.sub(self).ease_in_curve(curve))
    }

    fn ease_in_out_curve<C: CurveParam<Self>>(self, curve: C) -> (r: Self)
        ensures
            T::pure() ==> r == curves::ease_in_out_curve::<T>(self, curve.curve_lane(0)),
    {
        let half = T::from_f32(HALF);
        if self.lt(half) {
            self.add(self).ease_in_curve(curve).mul(half)
        } else {
            let rest = self.sub(half);
            half.add(rest.add(rest).ease_out_curve(curve).mul(half))
        }
    }
}

} // verus!
