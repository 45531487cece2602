//! Fixed-width vectors of lanes, and the masks that select between them.

use crate::curves::pow_by_squaring;
use crate::internal::Lanewise;
use crate::numeric::Scalar;
use crate::numeric::ScalarSpec;
use crate::numeric::SimdScalar;
use crate::numeric::SimdScalarSpec;
use vstd::prelude::*;

verus! {

/// A vector of `N` lanes of the scalar kind `T`.
#[derive(Debug)]
pub struct Simd<T, const N: usize> {
    lanes: [T; N],
}

/// One boolean for each of `N` lanes, as a lane-wise comparison gives it.
#[derive(Clone, Copy, Debug)]
pub struct Mask<const N: usize> {
    bits: [bool; N],
}

impl<T: SimdScalar, const N: usize> Lanewise for Simd<T, N> {
    type Lane = T;

    open spec fn width() -> nat {
        N as nat
    }

    closed spec fn lane(self, i: int) -> T {
        self.lanes[i]
    }

    open spec fn lanes_are(self, f: spec_fn(int) -> T) -> bool {
        forall|i: int| 0 <= i < N ==> #[trigger] self.lane(i) == f(i)
    }

    proof fn lemma_lanes_are(self, f: spec_fn(int) -> T) {
    }

    proof fn lemma_lane_is(self, f: spec_fn(int) -> T, i: int) {
    }

    open spec fn pure_kind() -> bool {
        T::pure_lane()
    }

    open spec fn powi_lane(x: T, n: i32) -> T {
        pow_by_squaring(x, n as int)
    }

    open spec fn powf_lane(base: T, exponent: T) -> T {
        exponent.mul_spec(base.ln_spec()).exp_spec()
    }

    open spec fn exp2_lane(x: T) -> T {
        x.mul_spec(T::ln_2_spec()).exp_spec()
    }
}

impl<T: Copy, const N: usize> Clone for Simd<T, N> {
    fn clone(&self) -> (r: Self)
        ensures
            r == *self,
    {
        *self
    }
}

impl<T: Copy, const N: usize> Copy for Simd<T, N> {

}

impl<const N: usize> Mask<N> {
    /// Whether the mask holds in lane `i`, for `0 <= i < N`.
    pub closed spec fn lane(self, i: int) -> bool {
        self.bits[i]
    }
}

impl<T: SimdScalar, const N: usize> Simd<T, N> {
    /// The vector with `x` in every lane.
    pub fn splat(x: T) -> (r: Self)
        ensures
            forall|i: int| 0 <= i < N ==> #[trigger] r.lane(i) == x,
    {
        Simd { lanes: [x; N] }
    }

    /// The vector whose lanes are the elements of `lanes`, in order.
    pub fn from_array(lanes: [T; N]) -> (r: Self)
        ensures
            forall|i: int| 0 <= i < N ==> #[trigger] r.lane(i) == lanes[i],
    {
        Simd { lanes }
    }

    /// The lanes as an array, in order.
    pub fn to_array(self) -> (r: [T; N])
        ensures
            forall|i: int| 0 <= i < N ==> #[trigger] r[i] == self.lane(i),
    {
        self.lanes
    }

    /// Two vectors that agree in every lane are the same vector.
    pub proof fn lemma_equal_lanes(self, other: Self)
        requires
            forall|i: int| 0 <= i < N ==> self.lane(i) == other.lane(i),
        ensures
            self == other,
    {
        assert forall|i: int| 0 <= i < N implies self.lanes[i] == other.lanes[i] by {
            assert(self.lane(i) == other.lane(i));
        }
        assert(self.lanes =~= other.lanes);
    }

    /// Applies `f` to every lane.
    pub(crate) fn map(self, f: impl Fn(T) -> T) -> (r: Self)
        requires
            forall|x: T| call_requires(f, (x,)),
        ensures
            forall|i: int| 0 <= i < N ==> call_ensures(f, (self.lane(i),), #[trigger] r.lane(i)),
    {
        let mut lanes = self.lanes;
        let mut k: usize = 0;
        while k < N
            invariant
                k <= N,
                forall|x: T| call_requires(f, (x,)),
                forall|i: int|
                    0 <= i < k ==> call_ensures(f, (self.lanes[i],), #[trigger] lanes[i]),
                forall|i: int| k <= i < N ==> #[trigger] lanes[i] == self.lanes[i],
            decreases N - k,
        {
            lanes[k] = f(self.lanes[k]);
            k += 1;
        }
        Simd { lanes }
    }

    /// Applies `f` to every pair of lanes of `self` and `rhs`.
    pub(crate) fn zip(self, rhs: Self, f: impl Fn(T, T) -> T) -> (r: Self)
        requires
            forall|x: T, y: T| call_requires(f, (x, y)),
        ensures
            forall|i: int|
                0 <= i < N ==> call_ensures(f, (self.lane(i), rhs.lane(i)), #[trigger] r.lane(i)),
    {
        let mut lanes = self.lanes;
        let mut k: usize = 0;
        while k < N
            invariant
                k <= N,
                forall|x: T, y: T| call_requires(f, (x, y)),
                forall|i: int|
                    0 <= i < k ==> call_ensures(
                        f,
                        (self.lanes[i], rhs.lanes[i]),
                        #[trigger] lanes[i],
                    ),
                forall|i: int| k <= i < N ==> #[trigger] lanes[i] == self.lanes[i],
            decreases N - k,
        {
            lanes[k] = f(self.lanes[k], rhs.lanes[k]);
            k += 1;
        }
        Simd { lanes }
    }

    /// Applies `f` to every triple of lanes of `self`, `a` and `b`.
    pub(crate) fn zip3(self, a: Self, b: Self, f: impl Fn(T, T, T) -> T) -> (r: Self)
        requires
            forall|x: T, y: T, z: T| call_requires(f, (x, y, z)),
        ensures
            forall|i: int|
                0 <= i < N ==> call_ensures(
                    f,
                    (self.lane(i), a.lane(i), b.lane(i)),
                    #[trigger] r.lane(i),
                ),
    {
        let mut lanes = self.lanes;
        let mut k: usize = 0;
        while k < N
            invariant
                k <= N,
                forall|x: T, y: T, z: T| call_requires(f, (x, y, z)),
                forall|i: int|
                    0 <= i < k ==> call_ensures(
                        f,
                        (self.lanes[i], a.lanes[i], b.lanes[i]),
                        #[trigger] lanes[i],
                    ),
                forall|i: int| k <= i < N ==> #[trigger] lanes[i] == self.lanes[i],
            decreases N - k,
        {
            lanes[k] = f(self.lanes[k], a.lanes[k], b.lanes[k]);
            k += 1;
        }
        Simd { lanes }
    }

    /// Tests every pair of lanes of `self` and `rhs` with `f`.
    fn zip_mask(self, rhs: Self, f: impl Fn(T, T) -> bool) -> (m: Mask<N>)
        requires
            forall|x: T, y: T| call_requires(f, (x, y)),
        ensures
            forall|i: int|
                0 <= i < N ==> call_ensures(f, (self.lane(i), rhs.lane(i)), #[trigger] m.lane(i)),
    {
        let mut bits = [false; N];
        let mut k: usize = 0;
        while k < N
            invariant
                k <= N,
                forall|x: T, y: T| call_requires(f, (x, y)),
                forall|i: int|
                    0 <= i < k ==> call_ensures(
                        f,
                        (self.lanes[i], rhs.lanes[i]),
                        #[trigger] bits[i],
                    ),
            decreases N - k,
        {
            bits[k] = f(self.lanes[k], rhs.lanes[k]);
            k += 1;
        }
        Mask { bits }
    }

    /// The lanes of `self` that compare less than the same lane of `rhs`, where
    /// the kind is pure.
    pub fn simd_lt(self, rhs: Self) -> (m: Mask<N>)
        ensures
            T::pure() ==> forall|i: int|
                0 <= i < N ==> #[trigger] m.lane(i) == self.lane(i).lt_spec(rhs.lane(i)),
    {
        self.zip_mask(rhs, <T as Scalar>::lt)
    }

    /// The lanes of `self` that compare equal to the same lane of `rhs`, where
    /// the kind is pure.
    pub fn simd_eq(self, rhs: Self) -> (m: Mask<N>)
        ensures
            T::pure() ==> forall|i: int|
                0 <= i < N ==> #[trigger] m.lane(i) == self.lane(i).eq_spec(rhs.lane(i)),
    {
        self.zip_mask(rhs, <T as Scalar>::eq)
    }

    /// `-self`, lane by lane.
    pub fn neg(self) -> (r: Self)
        ensures
            T::pure() ==> forall|i: int|
                0 <= i < N ==> #[trigger] r.lane(i) == self.lane(i).neg_spec(),
    {
        self.map(<T as Scalar>::neg)
    }

    /// The magnitude of each lane.
    pub fn abs(self) -> (r: Self)
        ensures
            T::pure() ==> forall|i: int|
                0 <= i < N ==> #[trigger] r.lane(i) == self.lane(i).abs_spec(),
    {
        self.map(<T as Scalar>::abs)
    }

    /// The natural logarithm of each lane.
    pub fn ln(self) -> (r: Self)
        ensures
            T::pure_lane() ==> forall|i: int|
                0 <= i < N ==> #[trigger] r.lane(i) == self.lane(i).ln_spec(),
    {
        self.map(<T as SimdScalar>::ln)
    }
}

impl<const N: usize> Mask<N> {
    /// The mask that holds in the lanes where `bits` is true.
    pub fn from_array(bits: [bool; N]) -> (m: Self)
        ensures
            forall|i: int| 0 <= i < N ==> #[trigger] m.lane(i) == bits[i],
    {
        Mask { bits }
    }

    /// The lanes of the mask as an array, in order.
    pub fn to_array(self) -> (r: [bool; N])
        ensures
            forall|i: int| 0 <= i < N ==> #[trigger] r[i] == self.lane(i),
    {
        self.bits
    }

    /// Blends two vectors: each lane is taken from `if_true` where the mask
    /// holds and from `if_false` where it does not.
    pub fn select<T: SimdScalar>(self, if_true: Simd<T, N>, if_false: Simd<T, N>) -> (r: Simd<T, N>)
        ensures
            forall|i: int|
                0 <= i < N ==> #[trigger] r.lane(i) == (if self.lane(i) {
                    if_true.lane(i)
                } else {
                    if_false.lane(i)
                }),
    {
        let mut lanes = if_false.lanes;
        let mut k: usize = 0;
        while k < N
            invariant
                k <= N,
                forall|i: int|
                    0 <= i < k ==> #[trigger] lanes[i] == (if self.bits[i] {
                        if_true.lanes[i]
                    } else {
                        if_false.lanes[i]
                    }),
                forall|i: int| k <= i < N ==> #[trigger] lanes[i] == if_false.lanes[i],
            decreases N - k,
        {
            if self.bits[k] {
                lanes[k] = if_true.lanes[k];
            }
            k += 1;
        }
        Simd { lanes }
    }
}

} // verus!
