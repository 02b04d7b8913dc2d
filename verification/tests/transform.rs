use simulation_engine::{Real, Scalar, Transform, Vector3D};

#[derive(Copy, Clone, Debug, PartialEq)]
struct F(f32);

impl Scalar for F {
    fn zero() -> Self {
        F(0.0)
    }
    fn one() -> Self {
        F(1.0)
    }
    fn add(self, rhs: Self) -> Self {
        F(self.0 + rhs.0)
    }
    fn mul(self, rhs: Self) -> Self {
        F(self.0 * rhs.0)
    }
    fn neg(self) -> Self {
        F(-self.0)
    }
}

impl Real for F {
    fn from_i32(value: i32) -> Self {
        F(value as f32)
    }
    fn pi() -> Self {
        F(std::f32::consts::PI)
    }
    fn div(self, rhs: Self) -> Self {
        F(self.0 / rhs.0)
    }
    fn rem_euclid(self, rhs: Self) -> Self {
        F(self.0.rem_euclid(rhs.0))
    }
    fn sin(self) -> Self {
        F(self.0.sin())
    }
    fn cos(self) -> Self {
        F(self.0.cos())
    }
    fn ceil(self) -> Self {
        F(self.0.ceil())
    }
    fn floor(self) -> Self {
        F(self.0.floor())
    }
    fn lt(self, rhs: Self) -> bool {
        self.0 < rhs.0
    }
    fn same(self, rhs: Self) -> bool {
        self.0 == rhs.0
    }
    fn to_i32(self) -> i32 {
        self.0 as i32
    }
}

fn triple(v: Vector3D<F>) -> (f32, f32, f32) {
    (v.x.0, v.y.0, v.z.0)
}

#[test]
fn new_transform_is_unposed() {
    let t: Transform<F> = Transform::new();
    assert_eq!(triple(t.position), (0.0, 0.0, 0.0));
    assert_eq!(triple(t.rotation), (0.0, 0.0, 0.0));
    assert_eq!(triple(t.scale), (1.0, 1.0, 1.0));
}

#[test]
fn setters_are_absolute() {
    let mut t: Transform<F> = Transform::new();
    t.set_position(F(1.0), F(2.0), F(3.0));
    t.set_rotation(F(400.0), F(-5.0), F(6.0));
    t.set_scale(F(7.0), F(8.0), F(9.0));
    assert_eq!(triple(t.position), (1.0, 2.0, 3.0));
    assert_eq!(triple(t.rotation), (400.0, -5.0, 6.0));
    assert_eq!(triple(t.scale), (7.0, 8.0, 9.0));
}

#[test]
fn translate_is_relative() {
    let mut t: Transform<F> = Transform::new();
    t.translate(F(1.0), F(2.0), F(3.0));
    t.translate(F(0.5), F(-2.0), F(10.0));
    assert_eq!(triple(t.position), (1.5, 0.0, 13.0));
    t.translate_x(F(1.0));
    t.translate_y(F(1.0));
    t.translate_z(F(1.0));
    assert_eq!(triple(t.position), (2.5, 1.0, 14.0));
    assert_eq!(triple(t.rotation), (0.0, 0.0, 0.0));
    assert_eq!(triple(t.scale), (1.0, 1.0, 1.0));
}

#[test]
fn scale_grows_the_scale() {
    let mut t: Transform<F> = Transform::new();
    t.scale(F(1.0), F(2.0), F(3.0));
    assert_eq!(triple(t.scale), (2.0, 3.0, 4.0));
    t.scale_x(F(-1.0));
    t.scale_y(F(-1.0));
    t.scale_z(F(-1.0));
    assert_eq!(triple(t.scale), (1.0, 2.0, 3.0));
}

#[test]
fn rotate_wraps_each_axis_into_a_single_turn() {
    let mut t: Transform<F> = Transform::new();
    t.rotate(F(370.0), F(-10.0), F(360.0));
    assert_eq!(triple(t.rotation), (10.0, 350.0, 0.0));
    t.rotate(F(350.0), F(10.0), F(725.0));
    assert_eq!(triple(t.rotation), (0.0, 0.0, 5.0));
    t.rotate_x(F(-1081.0));
    assert_eq!(triple(t.rotation), (359.0, 0.0, 5.0));
}

#[test]
fn rotate_2d_turns_about_z_only() {
    let mut t: Transform<F> = Transform::new();
    t.rotate_2d(F(45.0));
    t.rotate_2d(F(330.0));
    assert_eq!(triple(t.rotation), (0.0, 0.0, 15.0));
}

#[test]
fn rotation_stays_within_a_single_turn_whatever_the_turns() {
    let mut t: Transform<F> = Transform::new();
    let mut seed: u32 = 12345;
    for step in 0..2000 {
        seed = seed.wrapping_mul(1664525).wrapping_add(1013904223);
        let amount = ((seed >> 8) as f32 / 16777216.0 - 0.5) * 4000.0;
        match step % 4 {
            0 => t.rotate_x(F(amount)),
            1 => t.rotate_y(F(amount)),
            2 => t.rotate_z(F(amount)),
            _ => t.rotate(F(amount), F(-amount), F(amount * 0.5)),
        }
        for angle in [t.rotation.x.0, t.rotation.y.0, t.rotation.z.0] {
            assert!(angle >= 0.0 && angle < 360.0, "angle {} after step {}", angle, step);
        }
    }
}

#[test]
fn rotation_by_edge_amounts_is_wrapped() {
    for amount in [-1.0e-12f32, 1.0e30, -1.0e30, 359.99997, 360.0, -360.0, 0.0, -0.0] {
        let mut t: Transform<F> = Transform::new();
        t.rotate(F(amount), F(amount), F(amount));
        for angle in [t.rotation.x.0, t.rotation.y.0, t.rotation.z.0] {
            assert!(angle >= 0.0 && angle < 360.0, "angle {} after turning by {}", angle, amount);
        }
    }
}

#[test]
fn rotation_by_something_that_is_no_number_is_zero() {
    let mut t: Transform<F> = Transform::new();
    t.rotate(F(f32::NAN), F(f32::INFINITY), F(f32::NEG_INFINITY));
    assert_eq!(triple(t.rotation), (0.0, 0.0, 0.0));
}
