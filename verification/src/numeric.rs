//! The numeric abstraction: what a scalar number kind provides.
//!
//! The curve formulas never compute on numbers themselves. They apply the
//! operations of a [`Scalar`] kind, and every contract in this crate states its
//! result as a term over what those operations denote, which [`ScalarSpec`]
//! names. The kinds in view are IEEE-754 binary32 and binary64, whose sums
//! and products round and obey few laws of algebra, and the contracts rest on
//! none.
//!
//! A kind states no contract of its own. An easing curve is a pure mapping,
//! though, and it can only be one on a kind that is pure: each operation a
//! function of its operands. That is all that the contracts suppose of the
//! kind, and each one says so.
//!
//! No operation fails. Where the mathematical result is undefined (the square
//! root of a negative number, a division by zero) the kind returns whatever
//! value it has for that, such as a NaN or an infinity, and the formulas hand
//! it on.

use vstd::prelude::*;

verus! {

/// A scalar number kind, such as IEEE-754 binary32 or binary64.
pub trait Scalar: Copy + Sized {
    /// The value of this kind for the constant whose binary32 encoding is
    /// `bits`, converted as losslessly as the kind allows.
    fn from_f32(bits: u32) -> Self;

    /// `self + rhs`.
    fn add(self, rhs: Self) -> Self;

    /// `self - rhs`.
    fn sub(self, rhs: Self) -> Self;

    /// `self * rhs`.
    fn mul(self, rhs: Self) -> Self;

    /// `self / rhs`.
    fn div(self, rhs: Self) -> Self;

    /// `-self`.
    fn neg(self) -> Self;

    /// The magnitude of `self`.
    fn abs(self) -> Self;

    /// The sine of `self`, an angle in radians.
    fn sin(self) -> Self;

    /// The cosine of `self`, an angle in radians.
    fn cos(self) -> Self;

    /// The principal square root of `self`.
    fn sqrt(self) -> Self;

    /// The natural exponential of `self`.
    fn exp(self) -> Self;

    /// `self` raised to the integer power `n`, by the kind's own primitive.
    fn powi(self, n: i32) -> Self;

    /// `self` raised to the power `exponent`, by the kind's own primitive.
    fn powf(self, exponent: Self) -> Self;

    /// The fused multiply-add `self * a + b`, rounded once.
    fn mul_add(self, a: Self, b: Self) -> Self;

    /// Whether `self` compares less than `rhs`.
    fn lt(self, rhs: Self) -> bool;

    /// Whether `self` compares equal to `rhs`. This is the kind's own
    /// comparison, which need not be identity: a NaN equals nothing, and the
    /// two zeros of IEEE-754 equal each other.
    fn eq(self, rhs: Self) -> bool;
}

/// What a scalar kind adds to serve as the lane of a vector.
///
/// A vector has no primitive for powers. It raises to a power through the
/// exponential and the logarithm of its lanes, and to a power of two through
/// the logarithm of two.
pub trait SimdScalar: Scalar {
    /// The natural logarithm of `self`.
    fn ln(self) -> Self;

    /// The natural logarithm of two.
    fn ln_2() -> Self;
}

/// What the operations of a scalar kind denote.
///
/// Each function here is the result of the operation of [`Scalar`] that it is
/// named after, on the same operands: the one result where the kind is pure,
/// and one of them where it is not.
pub trait ScalarSpec: Scalar {
    /// The constant that `from_f32` makes of `bits`.
    spec fn constant(bits: u32) -> Self;

    /// `self + rhs`.
    spec fn add_spec(self, rhs: Self) -> Self;

    /// `self - rhs`.
    spec fn sub_spec(self, rhs: Self) -> Self;

    /// `self * rhs`.
    spec fn mul_spec(self, rhs: Self) -> Self;

    /// `self / rhs`.
    spec fn div_spec(self, rhs: Self) -> Self;

    /// `-self`.
    spec fn neg_spec(self) -> Self;

    /// The magnitude of `self`.
    spec fn abs_spec(self) -> Self;

    /// The sine of `self`, an angle in radians.
    spec fn sin_spec(self) -> Self;

    /// The cosine of `self`, an angle in radians.
    spec fn cos_spec(self) -> Self;

    /// The principal square root of `self`.
    spec fn sqrt_spec(self) -> Self;

    /// The natural exponential of `self`.
    spec fn exp_spec(self) -> Self;

    /// `self` raised to the integer power `n`, by the kind's own primitive.
    spec fn powi_spec(self, n: i32) -> Self;

    /// `self` raised to the power `exponent`, by the kind's own primitive.
    spec fn powf_spec(self, exponent: Self) -> Self;

    /// The fused multiply-add `self * a + b`, rounded once.
    spec fn mul_add_spec(self, a: Self, b: Self) -> Self;

    /// Whether `self` compares less than `rhs`.
    spec fn lt_spec(self, rhs: Self) -> bool;

    /// Whether `self` compares equal to `rhs`. This is the kind's own
    /// comparison, which need not be identity: a NaN equals nothing, and the
    /// two zeros of IEEE-754 equal each other.
    spec fn eq_spec(self, rhs: Self) -> bool;

    /// Whether every operation of the kind is a function of its operands:
    /// whatever an operation returns is what it denotes.
    spec fn pure() -> bool;
}

impl<T: Scalar> ScalarSpec for T {
    open spec fn constant(bits: u32) -> T {
        choose|r: T| call_ensures(<T as Scalar>::from_f32, (bits,), r)
    }

    open spec fn add_spec(self, rhs: T) -> T {
        choose|r: T| call_ensures(<T as Scalar>::add, (self, rhs), r)
    }

    open spec fn sub_spec(self, rhs: T) -> T {
        choose|r: T| call_ensures(<T as Scalar>::sub, (self, rhs), r)
    }

    open spec fn mul_spec(self, rhs: T) -> T {
        choose|r: T| call_ensures(<T as Scalar>::mul, (self, rhs), r)
    }

    open spec fn div_spec(self, rhs: T) -> T {
        choose|r: T| call_ensures(<T as Scalar>::div, (self, rhs), r)
    }

    open spec fn neg_spec(self) -> T {
        choose|r: T| call_ensures(<T as Scalar>::neg, (self,), r)
    }

    open spec fn abs_spec(self) -> T {
        choose|r: T| call_ensures(<T as Scalar>::abs, (self,), r)
    }

    open spec fn sin_spec(self) -> T {
        choose|r: T| call_ensures(<T as Scalar>::sin, (self,), r)
    }

    open spec fn cos_spec(self) -> T {
        choose|r: T| call_ensures(<T as Scalar>::cos, (self,), r)
    }

    open spec fn sqrt_spec(self) -> T {
        choose|r: T| call_ensures(<T as Scalar>::sqrt, (self,), r)
    }

    open spec fn exp_spec(self) -> T {
        choose|r: T| call_ensures(<T as Scalar>::exp, (self,), r)
    }

    open spec fn powi_spec(self, n: i32) -> T {
        choose|r: T| call_ensures(<T as Scalar>::powi, (self, n), r)
    }

    open spec fn powf_spec(self, exponent: T) -> T {
        choose|r: T| call_ensures(<T as Scalar>::powf, (self, exponent), r)
    }

    open spec fn mul_add_spec(self, a: T, b: T) -> T {
        choose|r: T| call_ensures(<T as Scalar>::mul_add, (self, a, b), r)
    }

    open spec fn lt_spec(self, rhs: T) -> bool {
        choose|r: bool| call_ensures(<T as Scalar>::lt, (self, rhs), r)
    }

    open spec fn eq_spec(self, rhs: T) -> bool {
        choose|r: bool| call_ensures(<T as Scalar>::eq, (self, rhs), r)
    }

    open spec fn pure() -> bool {
        &&& forall|bits: u32, r: T| #[trigger]
            call_ensures(<T as Scalar>::from_f32, (bits,), r) ==> r == T::constant(bits)
        &&& forall|x: T, rhs: T, r: T| #[trigger]
            call_ensures(<T as Scalar>::add, (x, rhs), r) ==> r == x.add_spec(rhs)
        &&& forall|x: T, rhs: T, r: T| #[trigger]
            call_ensures(<T as Scalar>::sub, (x, rhs), r) ==> r == x.sub_spec(rhs)
        &&& forall|x: T, rhs: T, r: T| #[trigger]
            call_ensures(<T as Scalar>::mul, (x, rhs), r) ==> r == x.mul_spec(rhs)
        &&& forall|x: T, rhs: T, r: T| #[trigger]
            call_ensures(<T as Scalar>::div, (x, rhs), r) ==> r == x.div_spec(rhs)
        &&& forall|x: T, r: T| #[trigger]
            call_ensures(<T as Scalar>::neg, (x,), r) ==> r == x.neg_spec()
        &&& forall|x: T, r: T| #[trigger]
            call_ensures(<T as Scalar>::abs, (x,), r) ==> r == x.abs_spec()
        &&& forall|x: T, r: T| #[trigger]
            call_ensures(<T as Scalar>::sin, (x,), r) ==> r == x.sin_spec()
        &&& forall|x: T, r: T| #[trigger]
            call_ensures(<T as Scalar>::cos, (x,), r) ==> r == x.cos_spec()
        &&& forall|x: T, r: T| #[trigger]
            call_ensures(<T as Scalar>::sqrt, (x,), r) ==> r == x.sqrt_spec()
        &&& forall|x: T, r: T| #[trigger]
            call_ensures(<T as Scalar>::exp, (x,), r) ==> r == x.exp_spec()
        &&& forall|x: T, n: i32, r: T| #[trigger]
            call_ensures(<T as Scalar>::powi, (x, n), r) ==> r == x.powi_spec(n)
        &&& forall|x: T, exponent: T, r: T| #[trigger]
            call_ensures(<T as Scalar>::powf, (x, exponent), r) ==> r == x.powf_spec(exponent)
        &&& forall|x: T, a: T, b: T, r: T| #[trigger]
            call_ensures(<T as Scalar>::mul_add, (x, a, b), r) ==> r == x.mul_add_spec(a, b)
        &&& forall|x: T, rhs: T, r: bool| #[trigger]
            call_ensures(<T as Scalar>::lt, (x, rhs), r) ==> r == x.lt_spec(rhs)
        &&& forall|x: T, rhs: T, r: bool| #[trigger]
            call_ensures(<T as Scalar>::eq, (x, rhs), r) ==> r == x.eq_spec(rhs)
    }
}

/// What the logarithms of a lane kind denote.
pub trait SimdScalarSpec: SimdScalar {
    /// The natural logarithm of `self`.
    spec fn ln_spec(self) -> Self;

    /// The natural logarithm of two, as `ln_2` gives it.
    spec fn ln_2_spec() -> Self;

    /// Whether the kind is pure as the kind of a lane: its logarithms are
    /// functions too, and the logarithm of two is one value.
    spec fn pure_lane() -> bool;
}

impl<T: SimdScalar> SimdScalarSpec for T {
    open spec fn ln_spec(self) -> T {
        choose|r: T| call_ensures(<T as SimdScalar>::ln, (self,), r)
    }

    open spec fn ln_2_spec() -> T {
        choose|r: T| call_ensures(<T as SimdScalar>::ln_2, (), r)
    }

    open spec fn pure_lane() -> bool {
        &&& T::pure()
        &&& forall|x: T, r: T| #[trigger]
            call_ensures(<T as SimdScalar>::ln, (x,), r) ==> r == x.ln_spec()
        &&& forall|r: T| #[trigger]
            call_ensures(<T as SimdScalar>::ln_2, (), r) ==> r == T::ln_2_spec()
    }
}

} // verus!
