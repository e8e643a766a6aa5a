use lalg::{Vec2, Vec3, Vec4};

#[test]
fn dot_is_the_sum_of_the_products() {
    assert_eq!(Vec2::dot(&Vec2([1.0f32, 2.0]), &Vec2([3.0, 4.0])), 11.0);
    assert_eq!(Vec3::dot(&Vec3([1.0f32, 2.0, 3.0]), &Vec3([4.0, 5.0, 6.0])), 32.0);
    assert_eq!(
        Vec4::dot(&Vec4([1.0f32, 2.0, 3.0, 4.0]), &Vec4([5.0, 6.0, 7.0, 8.0])),
        70.0
    );
}

#[test]
fn dot_sums_from_the_first_product_to_the_last() {
    // (1e8 + 1) is not a single-precision number: the order of the sum shows.
    let a = Vec3([1.0e8f32, 1.0, -1.0e8]);
    let b = Vec3([1.0f32, 1.0, 1.0]);
    assert_eq!(Vec3::dot(&a, &b), (1.0e8f32 + 1.0) + -1.0e8);
    assert_eq!(Vec3::dot(&a, &b), 0.0);
    let c = Vec3([1.0e8f32, -1.0e8, 1.0]);
    assert_eq!(Vec3::dot(&c, &b), 1.0);
}

#[test]
fn len_sq_is_the_dot_product_with_itself() {
    let a = Vec2([0.1f32, -7.25]);
    let b = Vec3([0.3f32, 1.0e-3, 123.456]);
    let c = Vec4([1.5f32, -2.25, 3.0e7, 0.7]);
    assert_eq!(a.len_sq(), Vec2::dot(&a, &a));
    assert_eq!(b.len_sq(), Vec3::dot(&b, &b));
    assert_eq!(c.len_sq(), Vec4::dot(&c, &c));
    assert_eq!(Vec2([3.0f32, 4.0]).len_sq(), 25.0);
    assert_eq!(Vec3([1.0f32, 2.0, 2.0]).len_sq(), 9.0);
    assert_eq!(Vec4([1.0f32, 1.0, 1.0, 1.0]).len_sq(), 4.0);
}

#[test]
fn accessors_return_the_stored_components() {
    let a = Vec2([1.0f32, 2.0]);
    assert_eq!((a.x(), a.y()), (1.0, 2.0));
    let b = Vec3([3.0f32, 4.0, 5.0]);
    assert_eq!((b.x(), b.y(), b.z()), (3.0, 4.0, 5.0));
    let c = Vec4([6.0f32, 7.0, 8.0, 9.0]);
    assert_eq!((c.x(), c.y(), c.z(), c.w()), (6.0, 7.0, 8.0, 9.0));
}

#[test]
fn swizzles_select_and_reorder() {
    let v = Vec3([1.0f32, 2.0, 3.0]);
    assert_eq!(v.xy(), Vec2([1.0, 2.0]));
    assert_eq!(v.yz(), Vec2([2.0, 3.0]));
    assert_eq!(v.xz(), Vec2([1.0, 3.0]));
    assert_eq!(v.yx(), Vec2([2.0, 1.0]));
    assert_eq!(v.zy(), Vec2([3.0, 2.0]));
    assert_eq!(v.zx(), Vec2([3.0, 1.0]));
    assert_eq!(Vec4([1.0f32, 2.0, 3.0, 4.0]).xyz(), Vec3([1.0, 2.0, 3.0]));
}

#[test]
fn vectors_wrap_arrays_as_they_are() {
    assert_eq!(Vec2::from([1.0f32, 2.0]), Vec2([1.0, 2.0]));
    assert_eq!(Vec3::from([1.0f32, 2.0, 3.0]), Vec3([1.0, 2.0, 3.0]));
    assert_eq!(Vec4::from([1.0f32, 2.0, 3.0, 4.0]), Vec4([1.0, 2.0, 3.0, 4.0]));
    let v: Vec3<f32> = [f32::NAN, f32::INFINITY, -0.0].into();
    assert!(v.x().is_nan());
    assert_eq!(v.y(), f32::INFINITY);
    assert!(v.z() == 0.0 && v.z().is_sign_negative());
}

#[test]
fn vectors_are_copied_freely() {
    let a = Vec4([1.0f32, 2.0, 3.0, 4.0]);
    let b = a;
    let c = a.clone();
    assert_eq!(a, b);
    assert_eq!(a, c);
    let d = Vec2([1.0f32, 2.0]);
    let e = d;
    assert_eq!(d.clone(), e);
    let f = Vec3([1.0f32, 2.0, 3.0]);
    let g = f;
    assert_eq!(f.clone(), g);
}

#[test]
fn equality_is_exact_and_component_wise() {
    assert_ne!(Vec2([1.0f32, 2.0]), Vec2([1.0, 2.000_000_2]));
    assert_ne!(Vec3([1.0f32, 2.0, 3.0]), Vec3([1.0, 2.0, -3.0]));
    assert_eq!(Vec2([0.0f32, 1.0]), Vec2([-0.0, 1.0]));
    assert_ne!(Vec2([f32::NAN, 1.0]), Vec2([f32::NAN, 1.0]));
}

#[test]
fn cross_of_x_and_y_is_z() {
    assert_eq!(
        Vec3::cross(&Vec3([1.0f32, 0.0, 0.0]), &Vec3([0.0, 1.0, 0.0])),
        Vec3([0.0, 0.0, 1.0])
    );
}

#[test]
fn cross_follows_the_right_hand_rule() {
    let x = Vec3([1.0f32, 0.0, 0.0]);
    let y = Vec3([0.0f32, 1.0, 0.0]);
    let z = Vec3([0.0f32, 0.0, 1.0]);
    assert_eq!(Vec3::cross(&y, &z), x);
    assert_eq!(Vec3::cross(&z, &x), y);
    assert_eq!(Vec3::cross(&y, &x), Vec3([0.0, 0.0, -1.0]));
    assert_eq!(
        Vec3::cross(&Vec3([1.0f32, 2.0, 3.0]), &Vec3([4.0, 5.0, 6.0])),
        Vec3([-3.0, 6.0, -3.0])
    );
}

#[test]
fn cross_is_orthogonal_to_its_operands() {
    let a = Vec3([0.3f32, -1.7, 2.9]);
    let b = Vec3([-4.1f32, 0.25, 1.1]);
    let c = Vec3::cross(&a, &b);
    assert!(Vec3::dot(&c, &a).abs() < 1.0e-5);
    assert!(Vec3::dot(&c, &b).abs() < 1.0e-5);
    let p = Vec3([1.0f32, 2.0, 3.0]);
    let q = Vec3([-2.0f32, 0.5, 4.0]);
    let r = Vec3::cross(&p, &q);
    assert_eq!(Vec3::dot(&r, &p), 0.0);
    assert_eq!(Vec3::dot(&r, &q), 0.0);
}

#[test]
fn cross_changes_sign_with_the_order() {
    let a = Vec3([0.3f32, -1.7, 2.9]);
    let b = Vec3([-4.1f32, 0.25, 1.1]);
    let ab = Vec3::cross(&a, &b);
    let ba = Vec3::cross(&b, &a);
    assert_eq!(ab, Vec3([-ba.x(), -ba.y(), -ba.z()]));
}

#[test]
fn normalizing_the_zero_vector_gives_no_finite_component() {
    let v = Vec3([0.0f32, 0.0, 0.0]);
    let n = v / v.len_sq().sqrt();
    assert!(!n.x().is_finite() && !n.y().is_finite() && !n.z().is_finite());
    let w = Vec2([0.0f32, 0.0]);
    let m = &w / w.len_sq().sqrt();
    assert!(!m.x().is_finite() && !m.y().is_finite());
}

#[test]
fn normalizing_divides_by_the_length() {
    let v = Vec3([3.0f32, 0.0, 4.0]);
    assert_eq!(v / v.len_sq().sqrt(), Vec3([0.6, 0.0, 0.8]));
    let w = Vec2([0.0f32, -2.0]);
    assert_eq!(w / w.len_sq().sqrt(), Vec2([0.0, -1.0]));
}

#[test]
fn double_precision_is_a_scalar_too() {
    let a = Vec3([1.0f64, 2.0, 3.0]);
    let b = Vec3([4.0f64, 5.0, 6.0]);
    assert_eq!(Vec3::dot(&a, &b), 32.0);
    assert_eq!(Vec3::cross(&a, &b), Vec3([-3.0, 6.0, -3.0]));
    assert_eq!(a + b, Vec3([5.0, 7.0, 9.0]));
}
