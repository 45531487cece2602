//! The curves on vectors of lanes, held against the curves on scalars.

use approx::RelativeEq;
use nova_easing::EasingArgument;
use nova_easing::Mask;
use nova_easing::Scalar;
use nova_easing::Simd;
use nova_easing::SimdScalar;
use num_traits::Float;

/// IEEE-754 binary32 as a scalar kind, on the operations of `num_traits::Float`.
#[derive(Clone, Copy, Debug, PartialEq)]
struct Single(f32);

impl Scalar for Single {
    fn from_f32(bits: u32) -> Self {
        Single(f32::from_bits(bits))
    }
    fn add(self, rhs: Self) -> Self {
        Single(self.0 + rhs.0)
    }
    fn sub(self, rhs: Self) -> Self {
        Single(self.0 - rhs.0)
    }
    fn mul(self, rhs: Self) -> Self {
        Single(self.0 * rhs.0)
    }
    fn div(self, rhs: Self) -> Self {
        Single(self.0 / rhs.0)
    }
    fn neg(self) -> Self {
        Single(-self.0)
    }
    fn abs(self) -> Self {
        Single(Float::abs(self.0))
    }
    fn sin(self) -> Self {
        Single(Float::sin(self.0))
    }
    fn cos(self) -> Self {
        Single(Float::cos(self.0))
    }
    fn sqrt(self) -> Self {
        Single(Float::sqrt(self.0))
    }
    fn exp(self) -> Self {
        Single(Float::exp(self.0))
    }
    fn powi(self, n: i32) -> Self {
        Single(Float::powi(self.0, n))
    }
    fn powf(self, exponent: Self) -> Self {
        Single(Float::powf(self.0, exponent.0))
    }
    fn mul_add(self, a: Self, b: Self) -> Self {
        Single(Float::mul_add(self.0, a.0, b.0))
    }
    fn lt(self, rhs: Self) -> bool {
        self.0 < rhs.0
    }
    fn eq(self, rhs: Self) -> bool {
        self.0 == rhs.0
    }
}

impl SimdScalar for Single {
    fn ln(self) -> Self {
        Single(Float::ln(self.0))
    }
    fn ln_2() -> Self {
        Single(Float::ln(2.0f32))
    }
}

/// IEEE-754 binary64 as a scalar kind, on the operations of `num_traits::Float`.
#[derive(Clone, Copy, Debug, PartialEq)]
struct Double(f64);

impl Scalar for Double {
    fn from_f32(bits: u32) -> Self {
        Double(f64::from(f32::from_bits(bits)))
    }
    fn add(self, rhs: Self) -> Self {
        Double(self.0 + rhs.0)
    }
    fn sub(self, rhs: Self) -> Self {
        Double(self.0 - rhs.0)
    }
    fn mul(self, rhs: Self) -> Self {
        Double(self.0 * rhs.0)
    }
    fn div(self, rhs: Self) -> Self {
        Double(self.0 / rhs.0)
    }
    fn neg(self) -> Self {
        Double(-self.0)
    }
    fn abs(self) -> Self {
        Double(Float::abs(self.0))
    }
    fn sin(self) -> Self {
        Double(Float::sin(self.0))
    }
    fn cos(self) -> Self {
        Double(Float::cos(self.0))
    }
    fn sqrt(self) -> Self {
        Double(Float::sqrt(self.0))
    }
    fn exp(self) -> Self {
        Double(Float::exp(self.0))
    }
    fn powi(self, n: i32) -> Self {
        Double(Float::powi(self.0, n))
    }
    fn powf(self, exponent: Self) -> Self {
        Double(Float::powf(self.0, exponent.0))
    }
    fn mul_add(self, a: Self, b: Self) -> Self {
        Double(Float::mul_add(self.0, a.0, b.0))
    }
    fn lt(self, rhs: Self) -> bool {
        self.0 < rhs.0
    }
    fn eq(self, rhs: Self) -> bool {
        self.0 == rhs.0
    }
}

impl SimdScalar for Double {
    fn ln(self) -> Self {
        Double(Float::ln(self.0))
    }
    fn ln_2() -> Self {
        Double(Float::ln(2.0f64))
    }
}

#[allow(non_camel_case_types)]
type f32x4 = Simd<Single, 4>;

fn close32(a: f32, b: f32, epsilon: f32) -> bool {
    a.relative_eq(&b, epsilon, f32::default_max_relative())
}

fn close64(a: f64, b: f64, epsilon: f64) -> bool {
    a.relative_eq(&b, epsilon, f64::default_max_relative())
}

fn lanes_of<const N: usize>(v: Simd<Single, N>) -> [f32; N] {
    v.to_array().map(|lane| lane.0)
}

fn vector_of<const N: usize>(values: [f32; N]) -> Simd<Single, N> {
    Simd::from_array(values.map(Single))
}

/// Holds lane 0 of the vector curve on a splat to the scalar curve.
fn check_against_scalar(scalar: fn(f32) -> f32, vector: fn(f32x4) -> f32x4) {
    let points = [0.0f32, 0.1, 0.2, 0.3, 0.4, 0.5, 0.6, 0.7, 0.8, 0.9, 1.0];
    for &x in &points {
        let expected = scalar(x);
        let lanes = lanes_of(vector(Simd::splat(Single(x))));
        let first = lanes[0];
        assert!(close32(expected, first, 1e-6), "at {x}: {expected} {first}");
        for lane in lanes {
            assert_eq!(lane.to_bits(), lanes[0].to_bits());
        }
    }
}

#[test]
fn ease_in_quad_f32_vs_f32x4() {
    check_against_scalar(|t| Single(t).ease_in_quad().0, |v| v.ease_in_quad());
}

#[test]
fn ease_out_quad_f32_vs_f32x4() {
    check_against_scalar(|t| Single(t).ease_out_quad().0, |v| v.ease_out_quad());
}

#[test]
fn ease_in_out_quad_f32_vs_f32x4() {
    check_against_scalar(|t| Single(t).ease_in_out_quad().0, |v| v.ease_in_out_quad());
}

#[test]
fn ease_in_cubic_f32_vs_f32x4() {
    check_against_scalar(|t| Single(t).ease_in_cubic().0, |v| v.ease_in_cubic());
}

#[test]
fn ease_out_cubic_f32_vs_f32x4() {
    check_against_scalar(|t| Single(t).ease_out_cubic().0, |v| v.ease_out_cubic());
}

#[test]
fn ease_in_out_cubic_f32_vs_f32x4() {
    check_against_scalar(|t| Single(t).ease_in_out_cubic().0, |v| v.ease_in_out_cubic());
}

#[test]
fn ease_in_quart_f32_vs_f32x4() {
    check_against_scalar(|t| Single(t).ease_in_quart().0, |v| v.ease_in_quart());
}

#[test]
fn ease_out_quart_f32_vs_f32x4() {
    check_against_scalar(|t| Single(t).ease_out_quart().0, |v| v.ease_out_quart());
}

#[test]
fn ease_in_out_quart_f32_vs_f32x4() {
    check_against_scalar(|t| Single(t).ease_in_out_quart().0, |v| v.ease_in_out_quart());
}

#[test]
fn ease_in_quint_f32_vs_f32x4() {
    check_against_scalar(|t| Single(t).ease_in_quint().0, |v| v.ease_in_quint());
}

#[test]
fn ease_out_quint_f32_vs_f32x4() {
    check_against_scalar(|t| Single(t).ease_out_quint().0, |v| v.ease_out_quint());
}

#[test]
fn ease_in_out_quint_f32_vs_f32x4() {
    check_against_scalar(|t| Single(t).ease_in_out_quint().0, |v| v.ease_in_out_quint());
}

#[test]
fn ease_in_sine_f32_vs_f32x4() {
    check_against_scalar(|t| Single(t).ease_in_sine().0, |v| v.ease_in_sine());
}

#[test]
fn ease_out_sine_f32_vs_f32x4() {
    check_against_scalar(|t| Single(t).ease_out_sine().0, |v| v.ease_out_sine());
}

#[test]
fn ease_in_out_sine_f32_vs_f32x4() {
    check_against_scalar(|t| Single(t).ease_in_out_sine().0, |v| v.ease_in_out_sine());
}

#[test]
fn ease_in_circ_f32_vs_f32x4() {
    check_against_scalar(|t| Single(t).ease_in_circ().0, |v| v.ease_in_circ());
}

#[test]
fn ease_out_circ_f32_vs_f32x4() {
    check_against_scalar(|t| Single(t).ease_out_circ().0, |v| v.ease_out_circ());
}

#[test]
fn ease_in_out_circ_f32_vs_f32x4() {
    check_against_scalar(|t| Single(t).ease_in_out_circ().0, |v| v.ease_in_out_circ());
}

#[test]
fn ease_in_back_f32_vs_f32x4() {
    check_against_scalar(|t| Single(t).ease_in_back().0, |v| v.ease_in_back());
}

#[test]
fn ease_out_back_f32_vs_f32x4() {
    check_against_scalar(|t| Single(t).ease_out_back().0, |v| v.ease_out_back());
}

#[test]
fn ease_in_out_back_f32_vs_f32x4() {
    check_against_scalar(|t| Single(t).ease_in_out_back().0, |v| v.ease_in_out_back());
}

#[test]
fn ease_in_bounce_f32_vs_f32x4() {
    check_against_scalar(|t| Single(t).ease_in_bounce().0, |v| v.ease_in_bounce());
}

#[test]
fn ease_out_bounce_f32_vs_f32x4() {
    check_against_scalar(|t| Single(t).ease_out_bounce().0, |v| v.ease_out_bounce());
}

#[test]
fn ease_in_out_bounce_f32_vs_f32x4() {
    check_against_scalar(|t| Single(t).ease_in_out_bounce().0, |v| v.ease_in_out_bounce());
}

#[test]
fn ease_in_expo_f32_vs_f32x4() {
    check_against_scalar(|t| Single(t).ease_in_expo().0, |v| v.ease_in_expo());
}

#[test]
fn ease_out_expo_f32_vs_f32x4() {
    check_against_scalar(|t| Single(t).ease_out_expo().0, |v| v.ease_out_expo());
}

#[test]
fn ease_in_out_expo_f32_vs_f32x4() {
    check_against_scalar(|t| Single(t).ease_in_out_expo().0, |v| v.ease_in_out_expo());
}

#[test]
fn ease_in_elastic_f32_vs_f32x4() {
    check_against_scalar(|t| Single(t).ease_in_elastic().0, |v| v.ease_in_elastic());
}

#[test]
fn ease_out_elastic_f32_vs_f32x4() {
    check_against_scalar(|t| Single(t).ease_out_elastic().0, |v| v.ease_out_elastic());
}

#[test]
fn ease_in_out_elastic_f32_vs_f32x4() {
    check_against_scalar(|t| Single(t).ease_in_out_elastic().0, |v| v.ease_in_out_elastic());
}

#[test]
fn ease_in_curve_f32_vs_f32x4() {
    check_against_scalar(
        |t| Single(t).ease_in_curve(Single(1.0)).0,
        |v| v.ease_in_curve(Single(1.0)),
    );
}

#[test]
fn ease_out_curve_f32_vs_f32x4() {
    check_against_scalar(
        |t| Single(t).ease_out_curve(Single(1.0)).0,
        |v| v.ease_out_curve(Single(1.0)),
    );
}

#[test]
fn ease_in_out_curve_f32_vs_f32x4() {
    check_against_scalar(
        |t| Single(t).ease_in_out_curve(Single(1.0)).0,
        |v| v.ease_in_out_curve(Single(1.0)),
    );
}

#[test]
fn test_mixed_arguments() {
    let arg: f32x4 = Simd::splat(Single(0.5));
    let from_scalar = {
        let curve = Single(1.0);
        arg.ease_in_out_curve(curve)
    };

    let from_vector = {
        let curve = f32x4::splat(Single(1.0));
        arg.ease_in_out_curve(curve)
    };
    assert_eq!(lanes_of(from_scalar), lanes_of(from_vector));
    assert!(close32(lanes_of(from_scalar)[3], 0.5, 1e-6));
}

#[test]
fn a_curve_parameter_for_each_lane() {
    let progress = vector_of([0.25, 0.5, 0.5, 0.75]);
    let curve = vector_of([1.0, 0.0, -2.0, 4.0]);
    let eased = lanes_of(progress.ease_in_curve(curve));
    let t = [0.25f32, 0.5, 0.5, 0.75];
    let c = [1.0f32, 0.0, -2.0, 4.0];
    for i in 0..4 {
        let alone = lanes_of(f32x4::splat(Single(t[i])).ease_in_curve(Single(c[i])));
        assert_eq!(eased[i].to_bits(), alone[0].to_bits());
        let scalar = Single(t[i]).ease_in_curve(Single(c[i])).0;
        assert!(close32(eased[i], scalar, 1e-6));
    }
    // The lane with parameter 0 is the progress itself.
    assert_eq!(eased[1], 0.5);
    let out = lanes_of(progress.ease_out_curve(curve));
    let two_sided = lanes_of(progress.ease_in_out_curve(curve));
    for i in 0..4 {
        assert!(close32(out[i], Single(t[i]).ease_out_curve(Single(c[i])).0, 1e-6));
        assert!(close32(two_sided[i], Single(t[i]).ease_in_out_curve(Single(c[i])).0, 1e-6));
    }
}

/// Every curve without a parameter, by name, on scalars and on eight lanes.
#[allow(clippy::type_complexity)]
fn curves() -> Vec<(&'static str, fn(f32) -> f32, fn(Simd<Single, 8>) -> Simd<Single, 8>)> {
    vec![
        ("ease_in_quad", |t| Single(t).ease_in_quad().0, |v| v.ease_in_quad()),
        ("ease_out_quad", |t| Single(t).ease_out_quad().0, |v| v.ease_out_quad()),
        ("ease_in_out_quad", |t| Single(t).ease_in_out_quad().0, |v| v.ease_in_out_quad()),
        ("ease_in_cubic", |t| Single(t).ease_in_cubic().0, |v| v.ease_in_cubic()),
        ("ease_out_cubic", |t| Single(t).ease_out_cubic().0, |v| v.ease_out_cubic()),
        ("ease_in_out_cubic", |t| Single(t).ease_in_out_cubic().0, |v| v.ease_in_out_cubic()),
        ("ease_in_quart", |t| Single(t).ease_in_quart().0, |v| v.ease_in_quart()),
        ("ease_out_quart", |t| Single(t).ease_out_quart().0, |v| v.ease_out_quart()),
        ("ease_in_out_quart", |t| Single(t).ease_in_out_quart().0, |v| v.ease_in_out_quart()),
        ("ease_in_quint", |t| Single(t).ease_in_quint().0, |v| v.ease_in_quint()),
        ("ease_out_quint", |t| Single(t).ease_out_quint().0, |v| v.ease_out_quint()),
        ("ease_in_out_quint", |t| Single(t).ease_in_out_quint().0, |v| v.ease_in_out_quint()),
        ("ease_in_sine", |t| Single(t).ease_in_sine().0, |v| v.ease_in_sine()),
        ("ease_out_sine", |t| Single(t).ease_out_sine().0, |v| v.ease_out_sine()),
        ("ease_in_out_sine", |t| Single(t).ease_in_out_sine().0, |v| v.ease_in_out_sine()),
        ("ease_in_circ", |t| Single(t).ease_in_circ().0, |v| v.ease_in_circ()),
        ("ease_out_circ", |t| Single(t).ease_out_circ().0, |v| v.ease_out_circ()),
        ("ease_in_out_circ", |t| Single(t).ease_in_out_circ().0, |v| v.ease_in_out_circ()),
        ("ease_in_back", |t| Single(t).ease_in_back().0, |v| v.ease_in_back()),
        ("ease_out_back", |t| Single(t).ease_out_back().0, |v| v.ease_out_back()),
        ("ease_in_out_back", |t| Single(t).ease_in_out_back().0, |v| v.ease_in_out_back()),
        ("ease_in_bounce", |t| Single(t).ease_in_bounce().0, |v| v.ease_in_bounce()),
        ("ease_out_bounce", |t| Single(t).ease_out_bounce().0, |v| v.ease_out_bounce()),
        ("ease_in_out_bounce", |t| Single(t).ease_in_out_bounce().0, |v| v.ease_in_out_bounce()),
        ("ease_in_expo", |t| Single(t).ease_in_expo().0, |v| v.ease_in_expo()),
        ("ease_out_expo", |t| Single(t).ease_out_expo().0, |v| v.ease_out_expo()),
        ("ease_in_out_expo", |t| Single(t).ease_in_out_expo().0, |v| v.ease_in_out_expo()),
        ("ease_in_elastic", |t| Single(t).ease_in_elastic().0, |v| v.ease_in_elastic()),
        ("ease_out_elastic", |t| Single(t).ease_out_elastic().0, |v| v.ease_out_elastic()),
        ("ease_in_out_elastic", |t| Single(t).ease_in_out_elastic().0, |v| v.ease_in_out_elastic()),
    ]
}

#[test]
fn each_lane_is_eased_alone() {
    // The lanes fall into different branches of the piecewise curves.
    let progress = [0.0f32, 0.05, 0.3, 0.45, 0.5, 0.8, 0.93, 1.0];
    for (name, scalar, vector) in curves() {
        let eased = lanes_of(vector(vector_of(progress)));
        for i in 0..8 {
            let expected = scalar(progress[i]);
            let lane = eased[i];
            assert!(close32(lane, expected, 1e-6), "{name} lane {i}: {lane} {expected}");
            let alone = lanes_of(vector(Simd::splat(Single(progress[i]))));
            assert_eq!(eased[i].to_bits(), alone[0].to_bits(), "{name} lane {i}");
        }
    }
}

#[test]
fn sine_and_bounce_lanes_are_the_scalar_values() {
    let progress = [0.0f32, 0.05, 0.3, 0.45, 0.5, 0.8, 0.93, 1.0];
    let v = vector_of(progress);
    let eased = [
        lanes_of(v.ease_in_sine()),
        lanes_of(v.ease_out_sine()),
        lanes_of(v.ease_in_out_sine()),
        lanes_of(v.ease_in_bounce()),
        lanes_of(v.ease_out_bounce()),
        lanes_of(v.ease_in_out_bounce()),
    ];
    for i in 0..8 {
        let t = Single(progress[i]);
        let alone = [
            t.ease_in_sine().0,
            t.ease_out_sine().0,
            t.ease_in_out_sine().0,
            t.ease_in_bounce().0,
            t.ease_out_bounce().0,
            t.ease_in_out_bounce().0,
        ];
        for k in 0..6 {
            assert_eq!(eased[k][i].to_bits(), alone[k].to_bits(), "curve {k} lane {i}");
        }
    }
}

#[test]
fn vector_curve_identity_is_exact() {
    let progress = vector_of([0.0, 0.3, -7.5, f32::INFINITY]);
    for curve in [0.0f32, 0.000_999, -0.000_5] {
        let eased = lanes_of(progress.ease_in_curve(Single(curve)));
        assert_eq!(eased.map(f32::to_bits), lanes_of(progress).map(f32::to_bits));
    }
    // Lane by lane: only the lanes whose parameter is near 0 are left alone.
    let curve = vector_of([0.0, 1.0, 0.0005, 0.001]);
    let eased = lanes_of(vector_of([0.25; 4]).ease_in_curve(curve));
    assert_eq!(eased[0], 0.25);
    assert_ne!(eased[1], 0.25);
    assert_eq!(eased[2], 0.25);
    assert_ne!(eased[3], 0.25);
}

#[test]
fn vector_ends_are_exact() {
    let ends = vector_of([0.0, 1.0, -0.0, 1.0]);
    let zero = 0.0f32.to_bits();
    let one = 1.0f32.to_bits();
    let exact = [
        ends.ease_in_out_expo(),
        ends.ease_in_elastic(),
        ends.ease_out_elastic(),
        ends.ease_in_out_elastic(),
    ];
    for eased in exact {
        let bits = lanes_of(eased).map(f32::to_bits);
        assert_eq!(bits, [zero, one, zero, one]);
    }
    assert_eq!(lanes_of(ends.ease_in_expo())[0].to_bits(), zero);
    assert_eq!(lanes_of(ends.ease_in_expo())[2].to_bits(), zero);
    assert_eq!(lanes_of(ends.ease_out_expo())[1].to_bits(), one);
    assert_eq!(lanes_of(ends.ease_out_expo())[3].to_bits(), one);
}

#[test]
fn vector_powers_are_product_chains() {
    let x = [0.3f32, 0.7, 1.5, -2.0];
    let v = vector_of(x);
    let quad = lanes_of(v.ease_in_quad());
    let cubic = lanes_of(v.ease_in_cubic());
    let quart = lanes_of(v.ease_in_quart());
    let quint = lanes_of(v.ease_in_quint());
    for i in 0..4 {
        let square = x[i] * x[i];
        assert_eq!(quad[i], square);
        assert_eq!(cubic[i], x[i] * square);
        assert_eq!(quart[i], square * square);
        assert_eq!(quint[i], x[i] * (square * square));
    }
    let out = lanes_of(v.ease_out_cubic());
    for i in 0..4 {
        let back = 1.0 - x[i];
        assert_eq!(out[i], 1.0 - back * (back * back));
    }
}

#[test]
fn vector_powers_of_two_go_through_exp_and_ln() {
    let x = [0.2f32, 0.4, 0.6, 0.8];
    let eased = lanes_of(vector_of(x).ease_in_expo());
    let ln2 = 2.0f32.ln();
    for i in 0..4 {
        let exponent = 10.0f32.mul_add(x[i], -10.0);
        assert_eq!(eased[i], (exponent * ln2).exp());
    }
    let bent = lanes_of(vector_of(x).ease_in_curve(Single(1.0)));
    for i in 0..4 {
        let grow = 1.0f32.exp();
        let a = 1.0 / (1.0 - grow);
        assert_eq!(bent[i], a - a * (x[i] * grow.ln()).exp());
    }
}

#[test]
fn vectors_of_binary64() {
    let points = [0.0f64, 0.1, 0.2, 0.3, 0.4, 0.5, 0.6, 0.7, 0.8, 0.9, 1.0];
    for &x in &points {
        let v: Simd<Double, 2> = Simd::from_array([Double(x), Double(1.0 - x)]);
        let [a, b] = v.ease_in_out_back().to_array();
        assert!(close64(a.0, Double(x).ease_in_out_back().0, 1e-12));
        assert!(close64(b.0, Double(1.0 - x).ease_in_out_back().0, 1e-12));
        let [a, b] = v.ease_out_elastic().to_array();
        assert!(close64(a.0, Double(x).ease_out_elastic().0, 1e-12));
        assert!(close64(b.0, Double(1.0 - x).ease_out_elastic().0, 1e-12));
        let [a, _] = v.ease_in_out_curve(Double(-2.0)).to_array();
        assert!(close64(a.0, Double(x).ease_in_out_curve(Double(-2.0)).0, 1e-12));
    }
}

#[test]
fn splat_and_arrays() {
    let v: Simd<Single, 3> = Simd::splat(Single(0.25));
    assert_eq!(lanes_of(v), [0.25, 0.25, 0.25]);
    let w = vector_of([0.1, 0.2, 0.3, 0.4, 0.5]);
    assert_eq!(lanes_of(w), [0.1, 0.2, 0.3, 0.4, 0.5]);
    let one_lane: Simd<Single, 1> = Simd::splat(Single(0.5));
    assert_eq!(lanes_of(one_lane.ease_in_quad()), [0.25]);
    let no_lane: Simd<Single, 0> = Simd::from_array([]);
    assert_eq!(lanes_of(no_lane.ease_in_out_bounce()), []);
}

#[test]
fn masks_select_lane_by_lane() {
    let a = vector_of([1.0, 5.0, f32::NAN, -0.0]);
    let b = vector_of([2.0, 4.0, 3.0, 0.0]);
    let less = a.simd_lt(b);
    assert_eq!(less.to_array(), [true, false, false, false]);
    assert_eq!(
        lanes_of(less.select(a, b)).map(f32::to_bits),
        [1.0f32, 4.0, 3.0, 0.0].map(f32::to_bits)
    );
    let equal = a.simd_eq(b);
    assert_eq!(equal.to_array(), [false, false, false, true]);
    assert_eq!(
        lanes_of(equal.select(a, b)).map(f32::to_bits),
        [2.0f32, 4.0, 3.0, -0.0].map(f32::to_bits)
    );
    let chosen = Mask::from_array([true, true, false, false]);
    assert_eq!(lanes_of(chosen.select(b, b.neg())), [2.0, 4.0, -3.0, -0.0]);
    assert_eq!(lanes_of(b.neg()), [-2.0, -4.0, -3.0, -0.0]);
    assert_eq!(lanes_of(b.neg().abs()), [2.0, 4.0, 3.0, 0.0]);
    assert_eq!(lanes_of(b.ln())[0], 2.0f32.ln());
}
