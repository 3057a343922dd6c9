//! The generic vector algebra and integrators run on floating-point scalars.
//!
//! Floating-point numbers obey the scalar laws only up to rounding, so these
//! implementations are for running the code, not for proofs: the law items are
//! empty and nothing checks them.
use quartz::integrate::one_d::trapezoid_integrator::{Integrator, TrapezoidIntegrator};
use quartz::math::scalar::Scalar;
use quartz::spatial::direction::Direction;
use quartz::spatial::position::Position;
use quartz::spatial::vector_3d::{SpatialVector, Vector3D};

#[derive(Debug, Clone, Copy, PartialEq)]
struct F32(f32);

#[derive(Debug, Clone, Copy, PartialEq)]
struct F64(f64);

impl Scalar for F32 {
    fn zero_spec() -> Self {
        F32(0.0)
    }
    fn half_spec() -> Self {
        F32(0.5)
    }
    fn from_u64_spec(n: u64) -> Self {
        F32(n as f32)
    }
    fn add_spec(self, rhs: Self) -> Self {
        F32(self.0 + rhs.0)
    }
    fn sub_spec(self, rhs: Self) -> Self {
        F32(self.0 - rhs.0)
    }
    fn mul_spec(self, rhs: Self) -> Self {
        F32(self.0 * rhs.0)
    }
    fn div_spec(self, rhs: Self) -> Self {
        F32(self.0 / rhs.0)
    }
    fn sqrt_spec(self) -> Self {
        F32(self.0.sqrt())
    }
    fn inv_spec(self) -> Self {
        F32(1.0 / self.0)
    }
    fn eq_spec(self, rhs: Self) -> bool {
        self.0 == rhs.0
    }
    fn zero() -> Self {
        Self::zero_spec()
    }
    fn half() -> Self {
        Self::half_spec()
    }
    fn from_u64(n: u64) -> Self {
        Self::from_u64_spec(n)
    }
    fn add(self, rhs: Self) -> Self {
        self.add_spec(rhs)
    }
    fn sub(self, rhs: Self) -> Self {
        self.sub_spec(rhs)
    }
    fn mul(self, rhs: Self) -> Self {
        self.mul_spec(rhs)
    }
    fn div(self, rhs: Self) -> Self {
        self.div_spec(rhs)
    }
    fn sqrt(self) -> Self {
        self.sqrt_spec()
    }
    fn inv(self) -> Self {
        self.inv_spec()
    }
    fn equals(self, rhs: Self) -> bool {
        self.eq_spec(rhs)
    }
    fn lemma_add_commutative(_: Self, _: Self) {}
    fn lemma_add_associative(_: Self, _: Self, _: Self) {}
    fn lemma_add_zero(_: Self) {}
    fn lemma_sub_self(_: Self) {}
    fn lemma_sub_antisymmetric(_: Self, _: Self) {}
    fn lemma_add_sub_cancel(_: Self, _: Self) {}
    fn lemma_mul_commutative(_: Self, _: Self) {}
    fn lemma_mul_distributive(_: Self, _: Self, _: Self) {}
    fn lemma_mul_zero(_: Self) {}
    fn lemma_sqrt_zero() {}
    fn lemma_zero_equals_zero() {}
}

impl Scalar for F64 {
    fn zero_spec() -> Self {
        F64(0.0)
    }
    fn half_spec() -> Self {
        F64(0.5)
    }
    fn from_u64_spec(n: u64) -> Self {
        F64(n as f64)
    }
    fn add_spec(self, rhs: Self) -> Self {
        F64(self.0 + rhs.0)
    }
    fn sub_spec(self, rhs: Self) -> Self {
        F64(self.0 - rhs.0)
    }
    fn mul_spec(self, rhs: Self) -> Self {
        F64(self.0 * rhs.0)
    }
    fn div_spec(self, rhs: Self) -> Self {
        F64(self.0 / rhs.0)
    }
    fn sqrt_spec(self) -> Self {
        F64(self.0.sqrt())
    }
    fn inv_spec(self) -> Self {
        F64(1.0 / self.0)
    }
    fn eq_spec(self, rhs: Self) -> bool {
        self.0 == rhs.0
    }
    fn zero() -> Self {
        Self::zero_spec()
    }
    fn half() -> Self {
        Self::half_spec()
    }
    fn from_u64(n: u64) -> Self {
        Self::from_u64_spec(n)
    }
    fn add(self, rhs: Self) -> Self {
        self.add_spec(rhs)
    }
    fn sub(self, rhs: Self) -> Self {
        self.sub_spec(rhs)
    }
    fn mul(self, rhs: Self) -> Self {
        self.mul_spec(rhs)
    }
    fn div(self, rhs: Self) -> Self {
        self.div_spec(rhs)
    }
    fn sqrt(self) -> Self {
        self.sqrt_spec()
    }
    fn inv(self) -> Self {
        self.inv_spec()
    }
    fn equals(self, rhs: Self) -> bool {
        self.eq_spec(rhs)
    }
    fn lemma_add_commutative(_: Self, _: Self) {}
    fn lemma_add_associative(_: Self, _: Self, _: Self) {}
    fn lemma_add_zero(_: Self) {}
    fn lemma_sub_self(_: Self) {}
    fn lemma_sub_antisymmetric(_: Self, _: Self) {}
    fn lemma_add_sub_cancel(_: Self, _: Self) {}
    fn lemma_mul_commutative(_: Self, _: Self) {}
    fn lemma_mul_distributive(_: Self, _: Self, _: Self) {}
    fn lemma_mul_zero(_: Self) {}
    fn lemma_sqrt_zero() {}
    fn lemma_zero_equals_zero() {}
}

type F32Vector3D = Vector3D<F32>;
type F64Vector3D = Vector3D<F64>;
type Dir = Direction<F64, F64Vector3D>;
type Pos = Position<F64, F64Vector3D>;

fn v32(x: f32, y: f32, z: f32) -> F32Vector3D {
    Vector3D { x: F32(x), y: F32(y), z: F32(z) }
}

fn v64(x: f64, y: f64, z: f64) -> F64Vector3D {
    Vector3D { x: F64(x), y: F64(y), z: F64(z) }
}

fn approx_eq_32(v1: &F32Vector3D, v2: &F32Vector3D, thres: f32) -> bool {
    let close = |a: f32, b: f32| if a == 0.0 { b == 0.0 } else { ((a - b) / a).abs() <= thres };
    close(v1.x.0, v2.x.0) && close(v1.y.0, v2.y.0) && close(v1.z.0, v2.z.0)
}

fn approx_eq(v1: &F64Vector3D, v2: &F64Vector3D, thres: f64) -> bool {
    let close = |a: f64, b: f64| if a == 0.0 { b == 0.0 } else { ((a - b) / a).abs() <= thres };
    close(v1.x.0, v2.x.0) && close(v1.y.0, v2.y.0) && close(v1.z.0, v2.z.0)
}

// f32 vectors

#[test]
fn f32_vector_d3_create_vector() {
    let v1 = Vector3D::new(F32(1.0), F32(1.0), F32(1.0));
    let v2 = v32(1.0, 1.0, 1.0);
    assert_eq!(v1, v2);
}

#[test]
fn f32_vector_d3_populate_vector() {
    let v1 = Vector3D::new(F32(1.0), F32(2.0), F32(3.0));
    let mut v2 = v32(9.0, 9.0, 9.0);
    v2.x = F32(1.0);
    v2.y = F32(2.0);
    v2.z = F32(3.0);
    assert_eq!(v1, v2);
}

#[test]
fn f32_vector_d3_scale_vector() {
    let mut v = v32(1.0, 2.0, 3.0);
    v.scale(F32(5.0));
    assert_eq!(v, v32(5.0, 10.0, 15.0));
}

#[test]
fn f32_vector_d3_dot_vectors() {
    let v1 = v32(1.0, 2.0, 3.0);
    let v2 = v32(0.0, 0.0, 0.0);
    assert_eq!(v1.dot(&v2), F32(0.0));
    let v3 = v32(1.0, 1.0, 1.0);
    assert_eq!(v1.dot(&v3), F32(6.0));
    let v4 = v32(1.0, 2.0, 3.0);
    assert_eq!(v1.dot(&v4), F32(14.0));
}

#[test]
fn f32_vector_d3_cross_vectors() {
    let v1 = v32(1.0, 2.0, 3.0);
    let v2 = v32(0.0, 0.0, 0.0);
    assert_eq!(v1.cross(&v2), Vector3D::new(F32(0.0), F32(0.0), F32(0.0)));
    let v3 = v32(1.0, 0.0, 0.0);
    let v4 = v32(0.0, 1.0, 0.0);
    assert_eq!(v3.cross(&v4), v32(0.0, 0.0, 1.0));
    let v5 = v32(1.0, 1.0, 1.0);
    assert_eq!(v1.cross(&v5), v32(-1.0, 2.0, -1.0));
}

#[test]
fn f32_vector_d3_length_vectors() {
    assert_eq!(v32(0.0, 0.0, 0.0).length(), F32(0.0));
    assert_eq!(v32(1.0, 0.0, 0.0).length(), F32(1.0));
    assert_eq!(v32(1.0, 1.0, 1.0).length(), F32(3.0_f32.sqrt()));
    assert_eq!(v32(1.0, 2.0, 3.0).length(), F32(14.0_f32.sqrt()));
}

#[test]
fn f32_vector_d3_normalize_vectors() {
    let mut v1 = v32(1.0, 0.0, 0.0);
    assert!(v1.normalize().is_ok());
    assert_eq!(v1, v32(1.0, 0.0, 0.0));
    let mut v2 = v32(1.0, 1.0, 1.0);
    assert!(v2.normalize().is_ok());
    let third = (1.0 / 3.0_f32).sqrt();
    assert!(approx_eq_32(&v2, &v32(third, third, third), 0.000000001));
    let mut v3 = v32(1.0, 2.0, 3.0);
    assert!(v3.normalize().is_ok());
    let root = 14.0_f32.sqrt();
    assert!(approx_eq_32(&v3, &v32(1.0 / root, 2.0 / root, 3.0 / root), 0.0000000001));
}

// f64 vectors

#[test]
fn create_f64_vector() {
    let v1 = F64Vector3D::zero();
    let v2 = v64(1.0, 1.0, 1.0);
    assert_eq!(v1, v64(0.0, 0.0, 0.0));
    assert_eq!(v2, Vector3D::new(F64(1.0), F64(1.0), F64(1.0)));
}

#[test]
fn populate_f64_vector() {
    let mut v1 = F64Vector3D::zero();
    v1.x = F64(1.0);
    v1.y = F64(2.0);
    v1.z = F64(3.0);
    let mut v2 = v64(9.0, 9.0, 9.0);
    v2.x = F64(1.0);
    v2.y = F64(2.0);
    v2.z = F64(3.0);
    assert_eq!(v1, v2);
}

#[test]
fn scale_f64_vector() {
    let mut v = v64(1.0, 2.0, 3.0);
    v.scale(F64(5.0));
    assert_eq!(v, v64(5.0, 10.0, 15.0));
}

#[test]
fn dot_f64_vectors() {
    let v1 = v64(1.0, 2.0, 3.0);
    let v2 = v64(0.0, 0.0, 0.0);
    assert_eq!(v1.dot(&v2), F64(0.0));
    let v3 = v64(1.0, 1.0, 1.0);
    assert_eq!(v1.dot(&v3), F64(6.0));
    let v4 = v64(1.0, 2.0, 3.0);
    assert_eq!(v1.dot(&v4), F64(14.0));
}

#[test]
fn cross_f64_vectors() {
    let v1 = v64(1.0, 2.0, 3.0);
    let v2 = v64(0.0, 0.0, 0.0);
    assert_eq!(v1.cross(&v2), F64Vector3D::zero());
    let v3 = v64(1.0, 0.0, 0.0);
    let v4 = v64(0.0, 1.0, 0.0);
    assert_eq!(v3.cross(&v4), v64(0.0, 0.0, 1.0));
    let v5 = v64(1.0, 1.0, 1.0);
    assert_eq!(v1.cross(&v5), v64(-1.0, 2.0, -1.0));
}

#[test]
fn length_f64_vectors() {
    assert_eq!(v64(0.0, 0.0, 0.0).length(), F64(0.0));
    assert_eq!(v64(1.0, 0.0, 0.0).length(), F64(1.0));
    assert_eq!(v64(1.0, 1.0, 1.0).length(), F64(3.0_f64.sqrt()));
    assert_eq!(v64(1.0, 2.0, 3.0).length(), F64(14.0_f64.sqrt()));
}

#[test]
fn normalize_f64_vectors() {
    let mut v1 = v64(1.0, 0.0, 0.0);
    assert!(v1.normalize().is_ok());
    assert_eq!(v1, v64(1.0, 0.0, 0.0));
    let mut v2 = v64(1.0, 1.0, 1.0);
    assert!(v2.normalize().is_ok());
    let third = (1.0 / 3.0_f64).sqrt();
    assert!(approx_eq(&v2, &v64(third, third, third), 0.000000001));
    let mut v3 = v64(1.0, 2.0, 3.0);
    assert!(v3.normalize().is_ok());
    let root = 14.0_f64.sqrt();
    assert!(approx_eq(&v3, &v64(1.0 / root, 2.0 / root, 3.0 / root), 0.0000000001));
}

// directions

#[test]
fn test_direction_create_vector() {
    let v1 = Dir::new(Vector3D::new(F64(1.0), F64(1.0), F64(1.0)));
    let v2 = Dir::new(v64(1.0, 1.0, 1.0));
    assert_eq!(v1, v2);
}

#[test]
fn test_direction_populate_vector() {
    let v1 = Dir::new(Vector3D::new(F64(1.0), F64(2.0), F64(3.0)));
    let mut v2 = v64(9.0, 9.0, 9.0);
    v2.x = F64(1.0);
    v2.y = F64(2.0);
    v2.z = F64(3.0);
    assert_eq!(v1, Dir::new(v2));
}

#[test]
fn test_direction_scale_vector() {
    let mut v = Dir::new(v64(1.0, 2.0, 3.0));
    v.scale(F64(5.0));
    assert_eq!(v, Dir::new(v64(5.0, 10.0, 15.0)));
}

#[test]
fn test_direction_dot_vectors() {
    let v1 = Dir::new(v64(1.0, 2.0, 3.0));
    let v2 = Dir::zero();
    assert_eq!(v1.dot(&v2), F64(0.0));
    let v3 = Dir::new(v64(1.0, 1.0, 1.0));
    assert_eq!(v1.dot(&v3), F64(6.0));
    let v4 = Dir::new(v64(1.0, 2.0, 3.0));
    assert_eq!(v1.dot(&v4), F64(14.0));
}

#[test]
fn test_direction_cross_vectors() {
    let v1 = Dir::new(v64(1.0, 2.0, 3.0));
    let v2 = Dir::zero();
    assert_eq!(v1.cross(&v2), Dir::zero());
    let v3 = Dir::new(v64(1.0, 0.0, 0.0));
    let v4 = Dir::new(v64(0.0, 1.0, 0.0));
    assert_eq!(v3.cross(&v4), Dir::new(v64(0.0, 0.0, 1.0)));
    let v5 = Dir::new(v64(1.0, 1.0, 1.0));
    assert_eq!(v1.cross(&v5), Dir::new(v64(-1.0, 2.0, -1.0)));
}

#[test]
fn test_direction_length_vectors() {
    let v1 = Dir::zero();
    assert_eq!(v1.length(), F64(0.0));
    let v2 = Dir::new(v64(1.0, 0.0, 0.0));
    assert_eq!(v2.length(), F64(1.0));
    let v3 = Dir::new(v64(1.0, 1.0, 1.0));
    assert_eq!(v3.length(), F64(3.0_f64.sqrt()));
    let v4 = Dir::new(v64(1.0, 2.0, 3.0));
    assert_eq!(v4.length(), F64(14.0_f64.sqrt()));
}

// positions

#[test]
fn test_position_create_vector() {
    let v1 = Pos::new(Vector3D::new(F64(1.0), F64(1.0), F64(1.0)));
    let v2 = Pos::new(v64(1.0, 1.0, 1.0));
    assert_eq!(v1, v2);
}

#[test]
fn test_position_populate_vector() {
    let v1 = Pos::new(Vector3D::new(F64(1.0), F64(2.0), F64(3.0)));
    let mut v2 = v64(9.0, 9.0, 9.0);
    v2.x = F64(1.0);
    v2.y = F64(2.0);
    v2.z = F64(3.0);
    assert_eq!(v1, Pos::new(v2));
}

#[test]
fn test_position_scale_vector() {
    let mut v = Pos::new(v64(1.0, 2.0, 3.0));
    v.scale(F64(5.0));
    assert_eq!(v, Pos::new(v64(5.0, 10.0, 15.0)));
}

#[test]
fn test_position_dot_vectors() {
    let v1 = Pos::new(v64(1.0, 2.0, 3.0));
    let v2 = Pos::zero();
    assert_eq!(v1.dot(&v2), F64(0.0));
    let v3 = Pos::new(v64(1.0, 1.0, 1.0));
    assert_eq!(v1.dot(&v3), F64(6.0));
    let v4 = Pos::new(v64(1.0, 2.0, 3.0));
    assert_eq!(v1.dot(&v4), F64(14.0));
}

#[test]
fn test_position_cross_vectors() {
    let v1 = Pos::new(v64(1.0, 2.0, 3.0));
    let v2 = Pos::zero();
    assert_eq!(v1.cross(&v2), Pos::zero());
    let v3 = Pos::new(v64(1.0, 0.0, 0.0));
    let v4 = Pos::new(v64(0.0, 1.0, 0.0));
    assert_eq!(v3.cross(&v4), Pos::new(v64(0.0, 0.0, 1.0)));
    let v5 = Pos::new(v64(1.0, 1.0, 1.0));
    assert_eq!(v1.cross(&v5), Pos::new(v64(-1.0, 2.0, -1.0)));
}

#[test]
fn test_position_length_vectors() {
    let v1 = Pos::zero();
    assert_eq!(v1.length(), F64(0.0));
    let v2 = Pos::new(v64(1.0, 0.0, 0.0));
    assert_eq!(v2.length(), F64(1.0));
    let v3 = Pos::new(v64(1.0, 1.0, 1.0));
    assert_eq!(v3.length(), F64(3.0_f64.sqrt()));
    let v4 = Pos::new(v64(1.0, 2.0, 3.0));
    assert_eq!(v4.length(), F64(14.0_f64.sqrt()));
}

#[test]
fn test_direction_normalize_vectors() {
    let mut v0 = Dir::new(F64Vector3D::zero());
    assert!(v0.normalize().is_err());
    let mut v1 = Dir::new(v64(1.0, 0.0, 0.0));
    assert!(v1.normalize().is_ok());
    assert_eq!(v1, Dir::new(v64(1.0, 0.0, 0.0)));
    let mut v2 = Dir::new(v64(1.0, 1.0, 1.0));
    assert!(v2.normalize().is_ok());
    let third = 1.0 / 3.0_f64.sqrt();
    assert!(approx_eq(&v2.v, &Dir::new(v64(third, third, third)).v, 0.000000001));
    let mut v3 = Dir::new(v64(1.0, 2.0, 3.0));
    assert!(v3.normalize().is_ok());
    let root = 14.0_f64.sqrt();
    assert!(approx_eq(&v3.v, &Dir::new(v64(1.0 / root, 2.0 / root, 3.0 / root)).v, 0.0000000001));
}

#[test]
fn test_position_normalize_vectors() {
    let mut v1 = Pos::new(v64(1.0, 0.0, 0.0));
    assert!(v1.normalize().is_ok());
    assert_eq!(v1, Pos::new(v64(1.0, 0.0, 0.0)));
    let mut v2 = Pos::new(v64(1.0, 1.0, 1.0));
    assert!(v2.normalize().is_ok());
    let third = 1.0 / 3.0_f64.sqrt();
    assert!(approx_eq(&v2.v, &Pos::new(v64(third, third, third)).v, 0.000000001));
    let mut v3 = Pos::new(v64(1.0, 2.0, 3.0));
    assert!(v3.normalize().is_ok());
    let root = 14.0_f64.sqrt();
    assert!(approx_eq(&v3.v, &Pos::new(v64(1.0 / root, 2.0 / root, 3.0 / root)).v, 0.0000000001));
}

// integration

fn linear(x: F64) -> F64 {
    F64(2_f64 * x.0 + 3_f64)
}

#[test]
fn test_linear() {
    assert_eq!(
        TrapezoidIntegrator::<F64>::integrate_func(linear, F64(2.0_f64), F64(5.0_f64), 20),
        F64((5 * 5 + 5 * 3 - 2 * 2 - 2 * 3) as f64)
    );
}

type T64 = TrapezoidIntegrator<F64>;

#[test]
fn linear_integral_is_exact_for_several_step_counts() {
    for steps in [1u64, 3, 6, 20] {
        assert_eq!(T64::integrate_func(linear, F64(2.0), F64(5.0), steps), F64(30.0));
    }
}

#[test]
fn float_degenerate_inputs_give_zero() {
    assert_eq!(T64::integrate_func(linear, F64(2.0), F64(5.0), 0), F64(0.0));
    assert_eq!(T64::integrate_data(vec![], F64(0.5)), F64(0.0));
    assert_eq!(T64::integrate_func_time_series(linear, vec![]), F64(0.0));
    assert_eq!(T64::integrate_data_time_series(vec![], vec![F64(1.0)]), F64(0.0));
}

#[test]
fn float_data_formulas() {
    let vals = vec![F64(2.0), F64(4.0), F64(6.0)];
    assert_eq!(T64::integrate_data(vals, F64(0.5)), F64(4.0));
    assert_eq!(T64::integrate_data(vec![F64(3.0)], F64(2.0)), F64(6.0));
    let times = vec![F64(0.0), F64(1.0), F64(3.0)];
    let vals = vec![F64(1.0), F64(2.0), F64(4.0)];
    assert_eq!(T64::integrate_data_time_series(times, vals), F64(7.5));
}

#[test]
fn float_time_series_truncates_to_shorter() {
    let times = vec![F64(0.0), F64(1.0), F64(3.0)];
    let vals = vec![F64(1.0), F64(2.0)];
    assert_eq!(T64::integrate_data_time_series(times, vals), F64(1.5));
    let times = vec![F64(0.0), F64(1.0)];
    let vals = vec![F64(1.0), F64(2.0), F64(4.0)];
    assert_eq!(T64::integrate_data_time_series(times, vals), F64(1.5));
}

#[test]
fn float_function_time_series() {
    let times = vec![F64(2.0), F64(3.0), F64(5.0)];
    assert_eq!(T64::integrate_func_time_series(linear, times), F64(30.0));
    assert_eq!(T64::integrate_func_time_series(linear, vec![F64(4.0)]), F64(0.0));
}

fn wave(x: F64) -> F64 {
    F64((x.0 * 1.7).sin() + x.0 * x.0)
}

#[test]
fn float_function_and_sampled_data_agree() {
    let (a, b) = (0.3_f64, 2.9_f64);
    for steps in [1u64, 2, 7, 50] {
        let dx = (b - a) / steps as f64;
        let mut vals = Vec::new();
        for i in 0..=steps {
            let t = if i == 0 { a } else if i == steps { b } else { a + dx * i as f64 };
            vals.push(wave(F64(t)));
        }
        let from_func = T64::integrate_func(wave, F64(a), F64(b), steps);
        let from_data = T64::integrate_data(vals, F64(dx));
        assert_eq!(from_func, from_data);
    }
}

#[test]
fn float_normalized_vector_has_unit_length() {
    for (x, y, z) in [(1.0, 2.0, 3.0), (-0.5, 7.0, 0.25), (1e-3, 0.0, 0.0)] {
        let mut u = v64(x, y, z);
        assert!(u.normalize().is_ok());
        assert!((u.length().0 - 1.0).abs() < 1e-12);
    }
    let mut z = F64Vector3D::zero();
    assert!(z.normalize().is_err());
    assert_eq!(z, F64Vector3D::zero());
}

#[test]
fn float_affine_round_trip() {
    let p = Pos::new(v64(1.5, -2.0, 3.25));
    let d = Dir::new(v64(0.1, 0.2, 0.3));
    let back = p.add_direction(&d).sub_direction(&d);
    assert!(approx_eq(&back.v, &p.v, 1e-12));
    let q = Pos::new(v64(0.5, 0.0, 1.0));
    let between: Dir = p.sub_position(&q);
    assert_eq!(between, Dir::new(v64(1.0, -2.0, 2.25)));
}
