//! Easing curves for animation timing, written once over a numeric abstraction
//! and specialised to scalars and to fixed-width vectors of lanes.
//!
//! An easing curve maps a progress value `t`, conceptually in `[0, 1]`, to an
//! eased value of the same shape: [`EasingArgument`] names some thirty of
//! them. The arithmetic is supplied by a [`Scalar`] kind. This crate fixes
//! which operations are applied, in which order, and which branch of a
//! piecewise curve each lane takes, and proves that a scalar, which branches,
//! and a [`Simd`] vector, which computes every branch and selects by a mask,
//! both return what the one formula of the curve in [`curves`] says, lane by
//! lane.
//!
//! Nothing is supposed of a kind but that it is pure: that each of its
//! operations is a function of its operands ([`ScalarSpec::pure`]). A kind
//! states no contract and none is taken on trust.

mod helper;
mod internal;
mod scalar;
mod vector;

pub mod constants;
pub mod curves;
pub mod easing;
pub mod laws;
pub mod numeric;
pub mod simd;

pub use crate::easing::EasingArgument;
pub use crate::internal::Lanewise;
pub use crate::numeric::Scalar;
pub use crate::numeric::ScalarSpec;
pub use crate::numeric::SimdScalar;
pub use crate::numeric::SimdScalarSpec;
pub use crate::simd::Mask;
pub use crate::simd::Simd;
