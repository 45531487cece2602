//! The constants of the curve formulas.
//!
//! Each constant is the IEEE-754 binary32 encoding of a literal. A scalar kind
//! turns an encoding into a value of its own with `Scalar::from_f32`.

use vstd::prelude::*;

verus! {

/// 0.0
pub const ZERO: u32 = 0x0000_0000;

/// 0.5
pub const HALF: u32 = 0x3f00_0000;

/// -0.5
pub const NEG_HALF: u32 = 0xbf00_0000;

/// 1.0
pub const ONE: u32 = 0x3f80_0000;

/// 2.0
pub const TWO: u32 = 0x4000_0000;

/// 8.0
pub const EIGHT: u32 = 0x4100_0000;

/// 10.0
pub const TEN: u32 = 0x4120_0000;

/// -10.0
pub const NEG_TEN: u32 = 0xc120_0000;

/// 16.0
pub const SIXTEEN: u32 = 0x4180_0000;

/// 20.0
pub const TWENTY: u32 = 0x41a0_0000;

/// π/2, rounded to binary32.
pub const FRAC_PI_2: u32 = 0x3fc9_0fdb;

/// π, rounded to binary32.
pub const PI: u32 = 0x4049_0fdb;

/// The overshoot constant c1 = 1.70158 of the back family.
pub const BACK_C1: u32 = 0x3fd9_cd60;

/// c2 = c1 · 1.525, the overshoot constant of the two-sided back curve.
pub const BACK_C2: u32 = 0x4026_12ff;

/// c3 = c1 + 1 = 2.70158.
pub const BACK_C3: u32 = 0x402c_e6b0;

/// The bounce coefficient n1 = 7.5625.
pub const BOUNCE_N1: u32 = 0x40f2_0000;

/// 1 / 2.75, the end of the first bounce interval.
pub const BOUNCE_EDGE_1: u32 = 0x3eba_2e8c;

/// 2 / 2.75, the end of the second bounce interval.
pub const BOUNCE_EDGE_2: u32 = 0x3f3a_2e8c;

/// 2.5 / 2.75, the end of the third bounce interval.
pub const BOUNCE_EDGE_3: u32 = 0x3f68_ba2f;

/// 1.5 / 2.75, the centre of the second bounce.
pub const BOUNCE_CENTRE_2: u32 = 0x3f0b_a2e9;

/// 2.25 / 2.75, the centre of the third bounce.
pub const BOUNCE_CENTRE_3: u32 = 0x3f51_745d;

/// 2.625 / 2.75, the centre of the fourth bounce.
pub const BOUNCE_CENTRE_4: u32 = 0x3f74_5d17;

/// 0.75, the height that the second bounce rises to.
pub const BOUNCE_RISE_2: u32 = 0x3f40_0000;

/// 0.9375, the height that the third bounce rises to.
pub const BOUNCE_RISE_3: u32 = 0x3f70_0000;

/// 0.984375, the height that the fourth bounce rises to.
pub const BOUNCE_RISE_4: u32 = 0x3f7c_0000;

/// c4 = 2π/3 ≈ 2.0943952, the angular step of the one-sided elastic curves.
pub const ELASTIC_C4: u32 = 0x4006_0a92;

/// c5 = 2π/4.5 ≈ 1.3962634, the angular step of the two-sided elastic curve.
pub const ELASTIC_C5: u32 = 0x3fb2_b8c2;

/// -10.75, the phase of the elastic-in curve.
pub const ELASTIC_PHASE_IN: u32 = 0xc12c_0000;

/// -0.75, the phase of the elastic-out curve.
pub const ELASTIC_PHASE_OUT: u32 = 0xbf40_0000;

/// -11.125, the phase of the two-sided elastic curve.
pub const ELASTIC_PHASE_IN_OUT: u32 = 0xc132_0000;

/// 0.001: a curve parameter of smaller magnitude selects the linear curve.
pub const CURVE_LINEAR_BELOW: u32 = 0x3a83_126f;

} // verus!
