//! The easing curves, by name.

use crate::constants::BACK_C1;
use crate::constants::BACK_C3;
use crate::constants::FRAC_PI_2;
use crate::constants::HALF;
use crate::constants::NEG_HALF;
use crate::constants::ONE;
use crate::constants::PI;
use crate::curves;
use crate::helper::EasingImplHelper;
use crate::internal::CurveParam;
use crate::internal::Lanewise;
use vstd::prelude::*;

verus! {

/// The easing curves on a progress value: a scalar of any kind, or a vector
/// of lanes of a kind.
///
/// Each curve takes a progress, conceptually in `[0, 1]`, and returns the
/// eased value in the same representation and shape. Progress outside that
/// range is not rejected; it yields whatever the formula gives for it. Where
/// the kind of the lanes is pure, lane `i` of the result is the curve's
/// formula in [`curves`] on lane `i` of the progress; a scalar is its own
/// lane 0.
///
/// The curves in one piece are written here once for every representation.
/// The piecewise ones are written for scalars, which branch, and for vectors,
/// which compute every branch and select per lane.
pub trait EasingArgument: EasingImplHelper {
    /// Quadratic easing in, `t^2`: starts slow and accelerates.
    fn ease_in_quad(self) -> (r: Self)
        ensures
            Self::pure_kind() ==> r.lanes_are(|i: int| curves::ease_in_quad::<Self>(self.lane(i))),
    {
        let r = self.ease_in_pow(2);
        proof {
            if Self::pure_kind() {
                r.lemma_lanes_are(|i: int| curves::ease_in_quad::<Self>(self.lane(i)));
            }
        }
        r
    }

    /// Quadratic easing out, `1 - (1 - t)^2`: starts fast and decelerates.
    fn ease_out_quad(self) -> (r: Self)
        ensures
            Self::pure_kind() ==> r.lanes_are(
                |i: int| curves::ease_out_quad::<Self>(self.lane(i)),
            ),
    {
        let r = self.ease_out_pow(2);
        proof {
            if Self::pure_kind() {
                r.lemma_lanes_are(|i: int| curves::ease_out_quad::<Self>(self.lane(i)));
            }
        }
        r
    }

    /// Quadratic easing in and out: accelerates up to one half, then decelerates.
    fn ease_in_out_quad(self) -> (r: Self)
        ensures
            Self::pure_kind() ==> r.lanes_are(
                |i: int| curves::ease_in_out_quad::<Self>(self.lane(i)),
            ),
    ;

    /// Cubic easing in, `t^3`.
    fn ease_in_cubic(self) -> (r: Self)
        ensures
            Self::pure_kind() ==> r.lanes_are(
                |i: int| curves::ease_in_cubic::<Self>(self.lane(i)),
            ),
    {
        let r = self.ease_in_pow(3);
        proof {
            if Self::pure_kind() {
                r.lemma_lanes_are(|i: int| curves::ease_in_cubic::<Self>(self.lane(i)));
            }
        }
        r
    }

    /// Cubic easing out, `1 - (1 - t)^3`.
    fn ease_out_cubic(self) -> (r: Self)
        ensures
            Self::pure_kind() ==> r.lanes_are(
                |i: int| curves::ease_out_cubic::<Self>(self.lane(i)),
            ),
    {
        let r = self.ease_out_pow(3);
        proof {
            if Self::pure_kind() {
                r.lemma_lanes_are(|i: int| curves::ease_out_cubic::<Self>(self.lane(i)));
            }
        }
        r
    }

    /// Cubic easing in and out.
    fn ease_in_out_cubic(self) -> (r: Self)
        ensures
            Self::pure_kind() ==> r.lanes_are(
                |i: int| curves::ease_in_out_cubic::<Self>(self.lane(i)),
            ),
    ;

    /// Quartic easing in, `t^4`: starts very slow and accelerates sharply.
    fn ease_in_quart(self) -> (r: Self)
        ensures
            Self::pure_kind() ==> r.lanes_are(
                |i: int| curves::ease_in_quart::<Self>(self.lane(i)),
            ),
    {
        let r = self.ease_in_pow(4);
        proof {
            if Self::pure_kind() {
                r.lemma_lanes_are(|i: int| curves::ease_in_quart::<Self>(self.lane(i)));
            }
        }
        r
    }

    /// Quartic easing out, `1 - (1 - t)^4`: starts very fast and decelerates
    /// sharply.
    fn ease_out_quart(self) -> (r: Self)
        ensures
            Self::pure_kind() ==> r.lanes_are(
                |i: int| curves::ease_out_quart::<Self>(self.lane(i)),
            ),
    {
        let r = self.ease_out_pow(4);
        proof {
            if Self::pure_kind() {
                r.lemma_lanes_are(|i: int| curves::ease_out_quart::<Self>(self.lane(i)));
            }
        }
        r
    }

    /// Quartic easing in and out.
    fn ease_in_out_quart(self) -> (r: Self)
        ensures
            Self::pure_kind() ==> r.lanes_are(
                |i: int| curves::ease_in_out_quart::<Self>(self.lane(i)),
            ),
    ;

    /// Quintic easing in, `t^5`.
    fn ease_in_quint(self) -> (r: Self)
        ensures
            Self::pure_kind() ==> r.lanes_are(
                |i: int| curves::ease_in_quint::<Self>(self.lane(i)),
            ),
    {
        let r = self.ease_in_pow(5);
        proof {
            if Self::pure_kind() {
                r.lemma_lanes_are(|i: int| curves::ease_in_quint::<Self>(self.lane(i)));
            }
        }
        r
    }

    /// Quintic easing out, `1 - (1 - t)^5`.
    fn ease_out_quint(self) -> (r: Self)
        ensures
            Self::pure_kind() ==> r.lanes_are(
                |i: int| curves::ease_out_quint::<Self>(self.lane(i)),
            ),
    {
        let r = self.ease_out_pow(5);
        proof {
            if Self::pure_kind() {
                r.lemma_lanes_are(|i: int| curves::ease_out_quint::<Self>(self.lane(i)));
            }
        }
        r
    }

    /// Quintic easing in and out.
    fn ease_in_out_quint(self) -> (r: Self)
        ensures
            Self::pure_kind() ==> r.lanes_are(
                |i: int| curves::ease_in_out_quint::<Self>(self.lane(i)),
            ),
    ;

    /// Back easing in and out: overshoots below 0 on the way in and above 1 on
    /// the way out.
    fn ease_in_out_back(self) -> (r: Self)
        ensures
            Self::pure_kind() ==> r.lanes_are(
                |i: int| curves::ease_in_out_back::<Self>(self.lane(i)),
            ),
    ;

    /// Bounce easing in: bounces first, then settles. It is the mirror image of
    /// `ease_out_bounce`.
    fn ease_in_bounce(self) -> (r: Self)
        ensures
            Self::pure_kind() ==> r.lanes_are(
                |i: int| curves::ease_in_bounce::<Self>(self.lane(i)),
            ),
    {
        let one = Self::from_f32(ONE);
        let rest = one.sub(self);
        let bounced = rest.ease_out_bounce();
        let r = one.sub(bounced);
        proof {
            if Self::pure_kind() {
                assert forall|i: int| 0 <= i < Self::width() implies #[trigger] r.lane(i)
                    == curves::ease_in_bounce::<Self>(self.lane(i)) by {
                    bounced.lemma_lane_is(
                        |j: int| curves::ease_out_bounce::<Self>(rest.lane(j)),
                        i,
                    );
                }
                r.lemma_lanes_are(|i: int| curves::ease_in_bounce::<Self>(self.lane(i)));
            }
        }
        r
    }

    /// Bounce easing out: ends in bounces.
    fn ease_out_bounce(self) -> (r: Self)
        ensures
            Self::pure_kind() ==> r.lanes_are(
                |i: int| curves::ease_out_bounce::<Self>(self.lane(i)),
            ),
    ;

    /// Bounce easing in and out: bounces at both ends.
    fn ease_in_out_bounce(self) -> (r: Self)
        ensures
            Self::pure_kind() ==> r.lanes_are(
                |i: int| curves::ease_in_out_bounce::<Self>(self.lane(i)),
            ),
    ;

    /// Exponential easing in. It is exactly 0 where the progress equals 0.
    fn ease_in_expo(self) -> (r: Self)
        ensures
            Self::pure_kind() ==> r.lanes_are(|i: int| curves::ease_in_expo::<Self>(self.lane(i))),
    ;

    /// Exponential easing out. It is exactly 1 where the progress equals 1.
    fn ease_out_expo(self) -> (r: Self)
        ensures
            Self::pure_kind() ==> r.lanes_are(
                |i: int| curves::ease_out_expo::<Self>(self.lane(i)),
            ),
    ;

    /// Exponential easing in and out, exact at both ends.
    fn ease_in_out_expo(self) -> (r: Self)
        ensures
            Self::pure_kind() ==> r.lanes_are(
                |i: int| curves::ease_in_out_expo::<Self>(self.lane(i)),
            ),
    ;

    /// Elastic easing in: oscillates first, then settles. Exact at both ends.
    fn ease_in_elastic(self) -> (r: Self)
        ensures
            Self::pure_kind() ==> r.lanes_are(
                |i: int| curves::ease_in_elastic::<Self>(self.lane(i)),
            ),
    ;

    /// Elastic easing out: ends in oscillation. Exact at both ends.
    fn ease_out_elastic(self) -> (r: Self)
        ensures
            Self::pure_kind() ==> r.lanes_are(
                |i: int| curves::ease_out_elastic::<Self>(self.lane(i)),
            ),
    ;

    /// Elastic easing in and out: oscillates at both ends. Exact at both ends.
    fn ease_in_out_elastic(self) -> (r: Self)
        ensures
            Self::pure_kind() ==> r.lanes_are(
                |i: int| curves::ease_in_out_elastic::<Self>(self.lane(i)),
            ),
    ;

    /// Sine easing in, `1 - cos(t·π/2)`.
    fn ease_in_sine(self) -> (r: Self)
        ensures
            Self::pure_kind() ==> r.lanes_are(|i: int| curves::ease_in_sine::<Self>(self.lane(i))),
    {
        let one = Self::from_f32(ONE);
        let pi_half = Self::from_f32(FRAC_PI_2);
        let r = one.sub(self.mul(pi_half).cos());
        proof {
            if Self::pure_kind() {
                r.lemma_lanes_are(|i: int| curves::ease_in_sine::<Self>(self.lane(i)));
            }
        }
        r
    }

    /// Sine easing out, `sin(t·π/2)`.
    fn ease_out_sine(self) -> (r: Self)
        ensures
            Self::pure_kind() ==> r.lanes_are(
                |i: int| curves::ease_out_sine::<Self>(self.lane(i)),
            ),
    {
        let pi_half = Self::from_f32(FRAC_PI_2);
        let r = self.mul(pi_half).sin();
        proof {
            if Self::pure_kind() {
                r.lemma_lanes_are(|i: int| curves::ease_out_sine::<Self>(self.lane(i)));
            }
        }
        r
    }

    /// Sine easing in and out, `0.5 - 0.5·cos(t·π)`.
    fn ease_in_out_sine(self) -> (r: Self)
        ensures
            Self::pure_kind() ==> r.lanes_are(
                |i: int| curves::ease_in_out_sine::<Self>(self.lane(i)),
            ),
    {
        let cos_val = self.mul(Self::from_f32(PI)).cos();
        let r = cos_val.mul_add(Self::from_f32(NEG_HALF), Self::from_f32(HALF));
        proof {
            if Self::pure_kind() {
                r.lemma_lanes_are(|i: int| curves::ease_in_out_sine::<Self>(self.lane(i)));
            }
        }
        r
    }

    /// Circular easing in, `1 - sqrt(1 - t^2)`.
    fn ease_in_circ(self) -> (r: Self)
        ensures
            Self::pure_kind() ==> r.lanes_are(|i: int| curves::ease_in_circ::<Self>(self.lane(i))),
    {
        let one = Self::from_f32(ONE);
        let r = one.sub(one.sub(self.powi(2)).sqrt());
        proof {
            if Self::pure_kind() {
                r.lemma_lanes_are(|i: int| curves::ease_in_circ::<Self>(self.lane(i)));
            }
        }
        r
    }

    /// Circular easing out, `sqrt(1 - (t - 1)^2)`.
    fn ease_out_circ(self) -> (r: Self)
        ensures
            Self::pure_kind() ==> r.lanes_are(
                |i: int| curves::ease_out_circ::<Self>(self.lane(i)),
            ),
    {
        let one = Self::from_f32(ONE);
        let r = one.sub(self.sub(one).powi(2)).sqrt();
        proof {
            if Self::pure_kind() {
                r.lemma_lanes_are(|i: int| curves::ease_out_circ::<Self>(self.lane(i)));
            }
        }
        r
    }

    /// Circular easing in and out.
    fn ease_in_out_circ(self) -> (r: Self)
        ensures
            Self::pure_kind() ==> r.lanes_are(
                |i: int| curves::ease_in_out_circ::<Self>(self.lane(i)),
            ),
    ;

    /// Back easing in, `c3·t^3 - c1·t^2`: dips below 0 before it rises.
    fn ease_in_back(self) -> (r: Self)
        ensures
            Self::pure_kind() ==> r.lanes_are(|i: int| curves::ease_in_back::<Self>(self.lane(i))),
    {
        let c1 = Self::from_f32(BACK_C1);
        let c3 = Self::from_f32(BACK_C3);
        let r = c3.mul(self.powi(3)).sub(c1.mul(self.powi(2)));
        proof {
            if Self::pure_kind() {
                r.lemma_lanes_are(|i: int| curves::ease_in_back::<Self>(self.lane(i)));
            }
        }
        r
    }

    /// Back easing out, `1 + c3·(t - 1)^3 + c1·(t - 1)^2`: rises above 1 before
    /// it settles.
    fn ease_out_back(self) -> (r: Self)
        ensures
            Self::pure_kind() ==> r.lanes_are(
                |i: int| curves::ease_out_back::<Self>(self.lane(i)),
            ),
    {
        let c1 = Self::from_f32(BACK_C1);
        let c3 = Self::from_f32(BACK_C3);
        let one = Self::from_f32(ONE);
        let back = self.sub(one);
        let r = one.add(c3.mul(back.powi(3))).add(c1.mul(back.powi(2)));
        proof {
            if Self::pure_kind() {
                r.lemma_lanes_are(|i: int| curves::ease_out_back::<Self>(self.lane(i)));
            }
        }
        r
    }

    /// Exponential easing in, shaped by `curve`.
    ///
    /// A positive `curve` bends the curve below the straight line, the more
    /// the larger it is; a negative one bends it above. In each lane whose
    /// parameter is within 0.001 of 0 the result is the progress itself.
    /// `curve` is a scalar, which shapes every lane alike, or a vector with
    /// one parameter for each lane of `self`.
    fn ease_in_curve<C: CurveParam<Self>>(self, curve: C) -> (r: Self)
        ensures
            Self::pure_kind() ==> r.lanes_are(
                |i: int| curves::ease_in_curve::<Self>(self.lane(i), curve.curve_lane(i)),
            ),
    ;

    /// Exponential easing out, shaped by `curve`: the mirror image of
    /// `ease_in_curve`.
    fn ease_out_curve<C: CurveParam<Self>>(self, curve: C) -> (r: Self)
        ensures
            Self::pure_kind() ==> r.lanes_are(
                |i: int| curves::ease_out_curve::<Self>(self.lane(i), curve.curve_lane(i)),
            ),
    ;

    /// Exponential easing in and out, shaped by `curve`: `ease_in_curve` up to
    /// one half, `ease_out_curve` from there on.
    fn ease_in_out_curve<C: CurveParam<Self>>(self, curve: C) -> (r: Self)
        ensures
            Self::pure_kind() ==> r.lanes_are(
                |i: int| curves::ease_in_out_curve::<Self>(self.lane(i), curve.curve_lane(i)),
            ),
    ;
}

} // verus!
