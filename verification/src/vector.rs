//! The vector specialisation: every operation lane by lane, every piecewise
//! curve without a branch on a lane's value.
//!
//! Where a scalar would branch, a vector computes each candidate for all
//! lanes, compares lane-wise into a mask, and blends the candidates by the
//! mask. Each lane of the result is what the curve's formula gives for that
//! lane alone.

use crate::constants::BACK_C2;
use crate::constants::BOUNCE_CENTRE_2;
use crate::constants::BOUNCE_CENTRE_3;
use crate::constants::BOUNCE_CENTRE_4;
use crate::constants::BOUNCE_EDGE_1;
use crate::constants::BOUNCE_EDGE_2;
use crate::constants::BOUNCE_EDGE_3;
use crate::constants::BOUNCE_N1;
use crate::constants::BOUNCE_RISE_2;
use crate::constants::BOUNCE_RISE_3;
use crate::constants::BOUNCE_RISE_4;
use crate::constants::CURVE_LINEAR_BELOW;
use crate::constants::EIGHT;
use crate::constants::ELASTIC_C4;
use crate::constants::ELASTIC_C5;
use crate::constants::ELASTIC_PHASE_IN;
use crate::constants::ELASTIC_PHASE_IN_OUT;
use crate::constants::ELASTIC_PHASE_OUT;
use crate::constants::HALF;
use crate::constants::NEG_TEN;
use crate::constants::ONE;
use crate::constants::SIXTEEN;
use crate::constants::TEN;
use crate::constants::TWENTY;
use crate::constants::TWO;
use crate::constants::ZERO;
use crate::easing::EasingArgument;
use crate::helper::EasingImplHelper;
use crate::internal::CurveParam;
use crate::internal::Lanewise;
use crate::numeric::Scalar;
use crate::numeric::ScalarSpec;
use crate::numeric::SimdScalar;
use crate::numeric::SimdScalarSpec;
use crate::simd::Simd;
use vstd::prelude::*;

verus! {

impl<T: SimdScalar, const N: usize> EasingImplHelper for Simd<T, N> {
    fn from_f32(bits: u32) -> (r: Self) {
        Simd::splat(<T as Scalar>::from_f32(bits))
    }

    fn add(self, rhs: Self) -> (r: Self) {
        self.zip(rhs, <T as Scalar>::add)
    }

    fn sub(self, rhs: Self) -> (r: Self) {
        self.zip(rhs, <T as Scalar>::sub)
    }

    fn mul(self, rhs: Self) -> (r: Self) {
        self.zip(rhs, <T as Scalar>::mul)
    }

    fn div(self, rhs: Self) -> (r: Self) {
        self.zip(rhs, <T as Scalar>::div)
    }

    fn sin(self) -> (r: Self) {
        self.map(<T as Scalar>::sin)
    }

    fn cos(self) -> (r: Self) {
        self.map(<T as Scalar>::cos)
    }

    /// Exponentiation by squaring: an even power is the square of the power
    /// of half the exponent, an odd power one more factor of `self`.
    fn powi(self, n: i32) -> (r: Self)
        decreases n,
    {
        if n == 1 {
            self
        } else if n % 2 == 0 {
            let tmp = self.powi(n / 2);
            tmp.mul(tmp)
        } else {
            self.mul(self.powi(n - 1))
        }
    }

    /// `exp(other * ln(self))`.
    fn powf(self, other: Self) -> (r: Self) {
        other.mul(self.ln()).exp()
    }

    fn sqrt(self) -> (r: Self) {
        self.map(<T as Scalar>::sqrt)
    }

    fn exp(self) -> (r: Self) {
        self.map(<T as Scalar>::exp)
    }

    fn mul_add(self, a: Self, b: Self) -> (r: Self) {
        self.zip3(a, b, <T as Scalar>::mul_add)
    }

}

impl<T: SimdScalar, const N: usize> EasingArgument for Simd<T, N> {
    fn ease_in_out_quad(self) -> (r: Self) {
        let half = Self::from_f32(HALF);
        let mask = self.simd_lt(half);

        let lower_half = self.powi(2).double();
        let upper_half = Self::from_f32(ONE).sub(
            Self::from_f32(TWO).sub(self.double()).powi(2).mul(half),
        );

        mask.select(lower_half, upper_half)
    }

    fn ease_in_out_cubic(self) -> (r: Self) {
        let half = Self::from_f32(HALF);
        let mask = self.simd_lt(half);

        let lower_half = self.powi(3).double().double();
        let upper_half = Self::from_f32(ONE).sub(
            Self::from_f32(TWO).sub(self.double()).powi(3).mul(half),
        );

        mask.select(lower_half, upper_half)
    }

    fn ease_in_out_quart(self) -> (r: Self) {
        let half = Self::from_f32(HALF);
        let mask = self.simd_lt(half);

        let lower_half = Self::from_f32(EIGHT).mul(self.powi(4));
        let upper_half = Self::from_f32(ONE).sub(
            Self::from_f32(TWO).sub(self.double()).powi(4).mul(half),
        );

        mask.select(lower_half, upper_half)
    }

    fn ease_in_out_quint(self) -> (r: Self) {
        let half = Self::from_f32(HALF);
        let mask = self.simd_lt(half);

        let lower_half = Self::from_f32(SIXTEEN).mul(self.powi(5));
        let upper_half = Self::from_f32(ONE).sub(
            Self::from_f32(TWO).sub(self.double()).powi(5).mul(half),
        );

        mask.select(lower_half, upper_half)
    }

    fn ease_in_out_back(self) -> (r: Self) {
        let c2 = Self::from_f32(BACK_C2);
        let half = Self::from_f32(HALF);
        let slope = c2.add(Self::from_f32(ONE));
        let mask = self.simd_lt(half);

        let two_x = self.double();
        let lower_half = two_x.powi(2).mul(slope.mul_add(two_x, c2.neg()));

        let two_x_minus_2 = self.double().sub(Self::from_f32(TWO));
        let upper_half = two_x_minus_2.powi(2).mul_add(
            slope.mul_add(two_x_minus_2, c2),
            Self::from_f32(TWO),
        );

        mask.select(lower_half, upper_half).mul(half)
    }

    fn ease_out_bounce(self) -> (r: Self) {
        let n1 = Self::from_f32(BOUNCE_N1);
        let mask1 = self.simd_lt(Self::from_f32(BOUNCE_EDGE_1));
        let mask2 = self.simd_lt(Self::from_f32(BOUNCE_EDGE_2));
        let mask3 = self.simd_lt(Self::from_f32(BOUNCE_EDGE_3));

        let branch1 = n1.mul(self).mul(self);
        let adjusted2 = self.sub(Self::from_f32(BOUNCE_CENTRE_2));
        let branch2 = adjusted2.mul(adjusted2).mul_add(n1, Self::from_f32(BOUNCE_RISE_2));
        let adjusted3 = self.sub(Self::from_f32(BOUNCE_CENTRE_3));
        let branch3 = adjusted3.mul(adjusted3).mul_add(n1, Self::from_f32(BOUNCE_RISE_3));
        let adjusted4 = self.sub(Self::from_f32(BOUNCE_CENTRE_4));
        let branch4 = adjusted4.mul(adjusted4).mul_add(n1, Self::from_f32(BOUNCE_RISE_4));

        mask1.select(branch1, mask2.select(branch2, mask3.select(branch3, branch4)))
    }

    fn ease_in_out_bounce(self) -> (r: Self) {
        let half = Self::from_f32(HALF);
        let one = Self::from_f32(ONE);
        let mask = self.simd_lt(half);

        let lower_half = one.sub(one.sub(self.double()).ease_out_bounce());
        let upper_half = one.add(self.double().sub(one).ease_out_bounce());

        mask.select(lower_half, upper_half).mul(half)
    }

    fn ease_in_expo(self) -> (r: Self) {
        let zero = Self::from_f32(ZERO);
        let ln2 = Simd::splat(T::ln_2());
        let ten = Self::from_f32(TEN);
        let mask_zero = self.simd_eq(zero);

        let exponent = ten.mul_add(self, ten.neg());
        let normal = exponent.mul(ln2).exp();

        mask_zero.select(zero, normal)
    }

    fn ease_out_expo(self) -> (r: Self) {
        let one = Self::from_f32(ONE);
        let ln2 = Simd::splat(T::ln_2());
        let mask_one = self.simd_eq(one);

        let exponent = Self::from_f32(NEG_TEN).mul(self);
        let normal = exponent.mul(ln2).exp().mul_add(one.neg(), one);

        mask_one.select(one, normal)
    }

    fn ease_in_out_expo(self) -> (r: Self) {
        let zero = Self::from_f32(ZERO);
        let one = Self::from_f32(ONE);
        let half = Self::from_f32(HALF);
        let ln2 = Simd::splat(T::ln_2());
        let twenty = Self::from_f32(TWENTY);
        let ten = Self::from_f32(TEN);
        let mask_zero = self.simd_eq(zero);
        let mask_one = self.simd_eq(one);
        let mask_half = self.simd_lt(half);

        let exponent_lower = twenty.mul_add(self, ten.neg());
        let branch_lower = exponent_lower.mul(ln2).exp().mul(half);
        let exponent_upper = twenty.neg().mul_add(self, ten);
        let branch_upper = exponent_upper.mul(ln2).exp().mul_add(half.neg(), one);

        let interior = mask_half.select(branch_lower, branch_upper);
        mask_zero.select(zero, mask_one.select(one, interior))
    }

    fn ease_in_elastic(self) -> (r: Self) {
        let zero = Self::from_f32(ZERO);
        let one = Self::from_f32(ONE);
        let ln2 = Simd::splat(T::ln_2());
        let c4 = Self::from_f32(ELASTIC_C4);
        let ten = Self::from_f32(TEN);
        let mask_zero = self.simd_eq(zero);
        let mask_one = self.simd_eq(one);

        let exponent = ten.mul_add(self, ten.neg());
        let sin_arg = ten.mul_add(self, Self::from_f32(ELASTIC_PHASE_IN)).mul(c4);
        let normal = exponent.mul(ln2).exp().neg().mul(sin_arg.sin());

        mask_zero.select(zero, mask_one.select(one, normal))
    }

    fn ease_out_elastic(self) -> (r: Self) {
        let zero = Self::from_f32(ZERO);
        let one = Self::from_f32(ONE);
        let ln2 = Simd::splat(T::ln_2());
        let c4 = Self::from_f32(ELASTIC_C4);
        let ten = Self::from_f32(TEN);
        let mask_zero = self.simd_eq(zero);
        let mask_one = self.simd_eq(one);

        let exponent = ten.neg().mul(self);
        let sin_arg = ten.mul_add(self, Self::from_f32(ELASTIC_PHASE_OUT)).mul(c4);
        let normal = exponent.mul(ln2).exp().mul_add(sin_arg.sin(), one);

        mask_zero.select(zero, mask_one.select(one, normal))
    }

    fn ease_in_out_elastic(self) -> (r: Self) {
        let zero = Self::from_f32(ZERO);
        let one = Self::from_f32(ONE);
        let half = Self::from_f32(HALF);
        let ln2 = Simd::splat(T::ln_2());
        let c5 = Self::from_f32(ELASTIC_C5);
        let twenty = Self::from_f32(TWENTY);
        let ten = Self::from_f32(TEN);
        let mask_zero = self.simd_eq(zero);
        let mask_one = self.simd_eq(one);
        let mask_half = self.simd_lt(half);

        let sin_arg = twenty.mul_add(self, Self::from_f32(ELASTIC_PHASE_IN_OUT)).mul(c5);
        let swing = sin_arg.sin();
        let exponent_lower = twenty.mul_add(self, ten.neg());
        let branch_lower = exponent_lower.mul(ln2).exp().neg().mul(swing).mul(half);
        let exponent_upper = twenty.neg().mul_add(self, ten);
        let branch_upper = exponent_upper.mul(ln2).exp().mul_add(swing.mul(half), one);

        let interior = mask_half.select(branch_lower, branch_upper);
        mask_zero.select(zero, mask_one.select(one, interior))
    }

    fn ease_in_out_circ(self) -> (r: Self) {
        let half = Self::from_f32(HALF);
        let mask = self.simd_lt(half);

        let one = Self::from_f32(ONE);
        let two = Self::from_f32(TWO);
        let double = self.double();

        let lower_half = one.sub(one.sub(double.powi(2)).sqrt());
        let upper_half = one.sub(two.sub(double).powi(2)).sqrt().add(one);

        mask.select(lower_half, upper_half).mul(half)
    }

    fn ease_in_curve<C: CurveParam<Self>>(self, curve: C) -> (r: Self) {
        let c = curve.to_curve();
        let one = Self::from_f32(ONE);
        let mask = c.abs().simd_lt(Self::from_f32(CURVE_LINEAR_BELOW));

        let grow = c.exp();
        let a = one.div(one.sub(grow));
        let normal = a.sub(a.mul(grow.powf(self)));

        mask.select(self, normal)
    }

    fn ease_out_curve<C: CurveParam<Self>>(self, curve: C) -> (r: Self) {
        let one = Self::from_f32(ONE);
        one.sub(one.sub(self).ease_in_curve(curve))
    }

    fn ease_in_out_curve<C: CurveParam<Self>>(self, curve: C) -> (r: Self) {
        let half = Self::from_f32(HALF);
        let mask = self.simd_lt(half);

        let lower_half = self.double().ease_in_curve(curve).mul(half);
        let upper_half = half.add(self.sub(half).double().ease_out_curve(curve).mul(half));

        mask.select(lower_half, upper_half)
    }
}

} // verus!
