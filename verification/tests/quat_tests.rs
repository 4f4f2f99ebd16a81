use quat_kernel::{Quat, Vec3, ONE_BITS, TWO_BITS};

fn b(v: f32) -> u32 {
    v.to_bits()
}

fn f(v: u32) -> f32 {
    f32::from_bits(v)
}

fn quat(x: f32, y: f32, z: f32, w: f32) -> Quat {
    Quat::new(b(x), b(y), b(z), b(w))
}

fn vec3(x: f32, y: f32, z: f32) -> Vec3 {
    Vec3::new(b(x), b(y), b(z))
}

fn approx(a: f32, e: f32, tol: f32) -> bool {
    (a - e).abs() <= tol
}

fn norm4(q: Quat) -> f32 {
    let (x, y, z, w) = (f(q.x), f(q.y), f(q.z), f(q.w));
    (x * x + y * y + z * z + w * w).sqrt()
}

fn norm3(v: Vec3) -> f32 {
    let (x, y, z) = (f(v.x), f(v.y), f(v.z));
    (x * x + y * y + z * z).sqrt()
}

#[test]
fn identity_is_0001() {
    let q = Quat::identity();
    assert_eq!(q.x, 0);
    assert_eq!(q.y, 0);
    assert_eq!(q.z, 0);
    assert_eq!(q.w, b(1.0));
    assert_eq!(ONE_BITS, b(1.0));
    assert_eq!(TWO_BITS, b(2.0));
}

#[test]
fn w_returns_fourth_lane() {
    let q = quat(0.1, 0.2, 0.3, 0.4);
    assert_eq!(q.w(), b(0.4));
    assert_eq!(Quat::identity().w(), b(1.0));
    let odd = Quat::new(7, 0x8000_0000, 0xFFFF_FFFF, 0x7FC0_0001);
    assert_eq!(odd.w(), 0x7FC0_0001);
}

#[test]
fn array_round_trip_bit_for_bit() {
    // Includes a negative zero and a NaN pattern: the trip must keep bits.
    let q = Quat::new(b(-0.0), 0x7FC0_0001, b(3.5), b(-1.25e-40));
    let a = q.to_array();
    assert_eq!(a, [b(-0.0), 0x7FC0_0001, b(3.5), b(-1.25e-40)]);
    let q2 = Quat::from_array(a);
    assert_eq!(q2, q);
}

#[test]
fn tuple_round_trip_bit_for_bit() {
    let q = Quat::new(1, 2, 3, 0xFF80_0000);
    let t = q.to_tuple();
    assert_eq!(t, (1, 2, 3, 0xFF80_0000));
    assert_eq!(Quat::from_tuple(t), q);
}

#[test]
fn vec4_round_trip_bit_for_bit() {
    let q = quat(0.5, -0.5, 0.25, -0.25);
    let v = q.to_vec4();
    assert_eq!((v.x, v.y, v.z, v.w), (q.x, q.y, q.z, q.w));
    assert_eq!(Quat::from_vec4(v), q);
}

#[test]
fn slice_round_trip_keeps_tail() {
    let q = quat(0.36, 0.48, 0.6, 0.8);
    let mut buf: [u32; 6] = [111, 222, 333, 444, 555, 666];
    q.write_to_slice_unaligned(&mut buf);
    assert_eq!(&buf[..4], &[b(0.36), b(0.48), b(0.6), b(0.8)]);
    assert_eq!(buf[4], 555);
    assert_eq!(buf[5], 666);
    let q2 = Quat::from_slice_unaligned(&buf);
    assert_eq!(q2, q);
}

#[test]
fn from_slice_reads_only_first_four() {
    let lanes = [b(1.0), b(2.0), b(3.0), b(4.0), 0xDEAD_BEEF];
    let q = Quat::from_slice_unaligned(&lanes);
    assert_eq!(q, quat(1.0, 2.0, 3.0, 4.0));
}

#[test]
fn mul_quat_matches_textbook_formula() {
    // q1 = i, q2 = j, both unit; i j = k.
    let q1 = quat(1.0, 0.0, 0.0, 0.0);
    let q2 = quat(0.0, 1.0, 0.0, 0.0);
    let r = q1.mul_quat(q2);

    // The explicit scalar formula on the same components.
    let (x1, y1, z1, w1) = (1.0f32, 0.0f32, 0.0f32, 0.0f32);
    let (x2, y2, z2, w2) = (0.0f32, 1.0f32, 0.0f32, 0.0f32);
    let ex = w1 * x2 + x1 * w2 + y1 * z2 - z1 * y2;
    let ey = w1 * y2 + y1 * w2 + z1 * x2 - x1 * z2;
    let ez = w1 * z2 + z1 * w2 + x1 * y2 - y1 * x2;
    let ew = w1 * w2 - x1 * x2 - y1 * y2 - z1 * z2;
    assert_eq!((ex, ey, ez, ew), (0.0, 0.0, 1.0, 0.0));

    assert_eq!(f(r.x), ex);
    assert_eq!(f(r.y), ey);
    assert_eq!(f(r.z), ez);
    assert_eq!(f(r.w), ew);
}

#[test]
fn mul_quat_square_of_half_half() {
    // (0.5, 0.5, 0.5, 0.5) squared is (0.5, 0.5, 0.5, -0.5), exactly.
    let q = quat(0.5, 0.5, 0.5, 0.5);
    let r = q.mul_quat(q);
    assert_eq!(f(r.x), 0.5);
    assert_eq!(f(r.y), 0.5);
    assert_eq!(f(r.z), 0.5);
    assert_eq!(f(r.w), -0.5);
}

#[test]
fn identity_law_on_unit_quaternions() {
    let n = (30.0f32).sqrt();
    let samples = [
        quat(1.0 / n, 2.0 / n, 3.0 / n, 4.0 / n),
        quat(0.5, 0.5, 0.5, 0.5),
        quat(0.0, 0.0, 1.0, 0.0),
        Quat::identity(),
    ];
    let id = Quat::identity();
    for q in samples {
        let r1 = q.mul_quat(id);
        let r2 = id.mul_quat(q);
        for (r, e) in [
            (r1.x, q.x),
            (r1.y, q.y),
            (r1.z, q.z),
            (r1.w, q.w),
            (r2.x, q.x),
            (r2.y, q.y),
            (r2.z, q.z),
            (r2.w, q.w),
        ] {
            assert!(approx(f(r), f(e), 1e-6), "{} vs {}", f(r), f(e));
        }
        assert!(approx(norm4(r1), 1.0, 1e-6));
    }
}

#[test]
fn rotation_preserves_length() {
    let n = (30.0f32).sqrt();
    let qs = [
        quat(1.0 / n, 2.0 / n, 3.0 / n, 4.0 / n),
        quat(0.5, -0.5, 0.5, -0.5),
        quat(0.0, 0.0, 1.0, 0.0),
    ];
    let vs = [vec3(1.0, 2.0, 3.0), vec3(-4.5, 0.25, 7.0), vec3(0.0, 0.0, 9.0)];
    for q in qs {
        for v in vs {
            let r = q.mul_vec3(v);
            assert!(
                approx(norm3(r), norm3(v), 1e-4),
                "{} vs {}",
                norm3(r),
                norm3(v)
            );
        }
    }
}

#[test]
fn identity_rotates_nothing() {
    let id = Quat::identity();
    let v = vec3(1.0, -2.5, 3.25);
    let r = id.mul_vec3(v);
    assert_eq!(f(r.x), 1.0);
    assert_eq!(f(r.y), -2.5);
    assert_eq!(f(r.z), 3.25);
}

#[test]
fn half_turn_about_z_flips_x() {
    // (0, 0, 1, 0) is a 180 degree turn about z.
    let q = quat(0.0, 0.0, 1.0, 0.0);
    let r = q.mul_vec3(vec3(1.0, 0.0, 0.0));
    assert!(approx(f(r.x), -1.0, 1e-6));
    assert!(approx(f(r.y), 0.0, 1e-6));
    assert!(approx(f(r.z), 0.0, 1e-6));
}

#[test]
fn quarter_turn_about_z() {
    // A 90 degree turn about z sends x to y.
    let h = (0.5f32).sqrt();
    let q = quat(0.0, 0.0, h, h);
    let r = q.mul_vec3(vec3(1.0, 0.0, 0.0));
    assert!(approx(f(r.x), 0.0, 1e-6));
    assert!(approx(f(r.y), 1.0, 1e-6));
    assert!(approx(f(r.z), 0.0, 1e-6));
}

#[test]
fn composition_then_rotation_agrees() {
    // Two quarter turns about z compose to the half turn about z.
    let h = (0.5f32).sqrt();
    let quarter = quat(0.0, 0.0, h, h);
    let half = quarter.mul_quat(quarter);
    assert!(approx(f(half.x), 0.0, 1e-6));
    assert!(approx(f(half.y), 0.0, 1e-6));
    assert!(approx(f(half.z), 1.0, 1e-6));
    assert!(approx(f(half.w), 0.0, 1e-6));
    let v = vec3(3.0, -4.0, 5.0);
    let once = half.mul_vec3(v);
    let twice = quarter.mul_vec3(quarter.mul_vec3(v));
    assert!(approx(f(once.x), f(twice.x), 1e-5));
    assert!(approx(f(once.y), f(twice.y), 1e-5));
    assert!(approx(f(once.z), f(twice.z), 1e-5));
}

#[test]
fn new_stores_lanes_in_order() {
    let q = Quat::new(10, 20, 30, 40);
    assert_eq!((q.x, q.y, q.z, q.w), (10, 20, 30, 40));
    assert_eq!(q.to_array(), [10, 20, 30, 40]);
}
