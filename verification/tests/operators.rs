use lalg::{Mat4x4, Vec2, Vec3, Vec4};

fn counting() -> Mat4x4<f32> {
    Mat4x4([
        0.0, 1.0, 2.0, 3.0, 4.0, 5.0, 6.0, 7.0, 8.0, 9.0, 10.0, 11.0, 12.0, 13.0, 14.0, 15.0,
    ])
}

#[test]
fn vectors_add_component_wise() {
    assert_eq!(Vec2([1.0f32, 2.0]) + Vec2([10.0, 20.0]), Vec2([11.0, 22.0]));
    assert_eq!(
        Vec3([1.0f32, 2.0, 3.0]) + Vec3([10.0, 20.0, 30.0]),
        Vec3([11.0, 22.0, 33.0])
    );
    assert_eq!(
        Vec4([1.0f32, 2.0, 3.0, 4.0]) + Vec4([10.0, 20.0, 30.0, 40.0]),
        Vec4([11.0, 22.0, 33.0, 44.0])
    );
}

#[test]
fn vectors_subtract_component_wise() {
    assert_eq!(Vec2([1.0f32, 2.0]) - Vec2([10.0, 20.0]), Vec2([-9.0, -18.0]));
    assert_eq!(
        Vec3([1.0f32, 2.0, 3.0]) - Vec3([10.0, 20.0, 30.0]),
        Vec3([-9.0, -18.0, -27.0])
    );
    assert_eq!(
        Vec4([1.0f32, 2.0, 3.0, 4.0]) - Vec4([10.0, 20.0, 30.0, 40.0]),
        Vec4([-9.0, -18.0, -27.0, -36.0])
    );
}

#[test]
fn vectors_scale_by_a_scalar() {
    assert_eq!(Vec2([1.0f32, 2.0]) * 3.0, Vec2([3.0, 6.0]));
    assert_eq!(Vec3([1.0f32, 2.0, 3.0]) * 3.0, Vec3([3.0, 6.0, 9.0]));
    assert_eq!(Vec4([1.0f32, 2.0, 3.0, 4.0]) * 3.0, Vec4([3.0, 6.0, 9.0, 12.0]));
}

#[test]
fn vectors_divide_by_a_scalar() {
    assert_eq!(Vec2([1.0f32, 2.0]) / 4.0, Vec2([0.25, 0.5]));
    assert_eq!(Vec3([1.0f32, 2.0, 3.0]) / 4.0, Vec3([0.25, 0.5, 0.75]));
    assert_eq!(Vec4([1.0f32, 2.0, 3.0, 4.0]) / 4.0, Vec4([0.25, 0.5, 0.75, 1.0]));
}

#[test]
fn division_by_zero_is_silent() {
    let v = Vec4([1.0f32, -1.0, 0.0, 2.0]) / 0.0;
    assert_eq!(v.x(), f32::INFINITY);
    assert_eq!(v.y(), f32::NEG_INFINITY);
    assert!(v.z().is_nan());
    assert_eq!(v.w(), f32::INFINITY);
}

#[test]
fn vector_operators_take_values_and_references() {
    let a = Vec3([1.0f32, 2.0, 3.0]);
    let b = Vec3([0.5f32, 0.25, 0.125]);
    let sum = Vec3([1.5f32, 2.25, 3.125]);
    assert_eq!(a + b, sum);
    assert_eq!(&a + b, sum);
    assert_eq!(a + &b, sum);
    assert_eq!(&a + &b, sum);
    let difference = Vec3([0.5f32, 1.75, 2.875]);
    assert_eq!(a - b, difference);
    assert_eq!(&a - b, difference);
    assert_eq!(a - &b, difference);
    assert_eq!(&a - &b, difference);
    let k = 2.0f32;
    let doubled = Vec3([2.0f32, 4.0, 6.0]);
    assert_eq!(a * k, doubled);
    assert_eq!(&a * k, doubled);
    assert_eq!(a * &k, doubled);
    assert_eq!(&a * &k, doubled);
    let halved = Vec3([0.5f32, 1.0, 1.5]);
    assert_eq!(a / k, halved);
    assert_eq!(&a / k, halved);
    assert_eq!(a / &k, halved);
    assert_eq!(&a / &k, halved);
}

#[test]
fn short_and_long_vectors_take_references_too() {
    let a = Vec2([1.0f32, 2.0]);
    let b = Vec2([3.0f32, 5.0]);
    assert_eq!(&a + &b, Vec2([4.0, 7.0]));
    assert_eq!(&a - b, Vec2([-2.0, -3.0]));
    assert_eq!(a * &4.0, Vec2([4.0, 8.0]));
    assert_eq!(&a / 2.0, Vec2([0.5, 1.0]));
    let c = Vec4([1.0f32, 2.0, 3.0, 4.0]);
    let d = Vec4([4.0f32, 3.0, 2.0, 1.0]);
    assert_eq!(&c + d, Vec4([5.0, 5.0, 5.0, 5.0]));
    assert_eq!(c - &d, Vec4([-3.0, -1.0, 1.0, 3.0]));
    assert_eq!(&c * &2.0, Vec4([2.0, 4.0, 6.0, 8.0]));
    assert_eq!(c / &2.0, Vec4([0.5, 1.0, 1.5, 2.0]));
}

#[test]
fn scale_by_two_doubles_x_y_and_z() {
    assert_eq!(
        Mat4x4::scale(2.0f32) * Vec4([1.0, 2.0, 3.0, 1.0]),
        Vec4([2.0, 4.0, 6.0, 1.0])
    );
}

#[test]
fn identity_times_a_vector_is_the_vector() {
    let v = Vec4([0.1f32, -2.5, 3.0e9, 1.0e-20]);
    assert_eq!(Mat4x4::identity() * v, v);
    assert_eq!(v * Mat4x4::identity(), v);
}

#[test]
fn identity_does_not_absorb_an_infinity() {
    let v = Mat4x4::identity() * Vec4([f32::INFINITY, 1.0, 2.0, 3.0]);
    assert_eq!(v.x(), f32::INFINITY);
    assert!(v.y().is_nan() && v.z().is_nan() && v.w().is_nan());
}

#[test]
fn matrix_times_column_uses_the_rows() {
    let m = counting();
    let v = Vec4([1.0f32, 10.0, 100.0, 1000.0]);
    assert_eq!(&m * v, Vec4([3210.0, 7654.0, 12098.0, 16542.0]));
    for i in 0..4 {
        assert_eq!((&m * &v).0[i], Vec4::dot(&m.row(i as i32), &v));
    }
}

#[test]
fn row_times_matrix_uses_the_columns() {
    let m = counting();
    let v = Vec4([1.0f32, 10.0, 100.0, 1000.0]);
    assert_eq!(v * &m, Vec4([12840.0, 13951.0, 15062.0, 16173.0]));
    for i in 0..4 {
        assert_eq!((&v * &m).0[i], Vec4::dot(&v, &m.col(i as i32)));
    }
    assert_eq!(v * &m, m.transposed() * v);
}

#[test]
fn matrix_and_vector_products_take_values_and_references() {
    let m = Mat4x4::scale(3.0f32);
    let v = Vec4([1.0f32, 2.0, 3.0, 4.0]);
    let w = Vec4([3.0f32, 6.0, 9.0, 4.0]);
    assert_eq!(m.clone() * v, w);
    assert_eq!(&m * v, w);
    assert_eq!(m.clone() * &v, w);
    assert_eq!(&m * &v, w);
    assert_eq!(v * m.clone(), w);
    assert_eq!(&v * m.clone(), w);
    assert_eq!(v * &m, w);
    assert_eq!(&v * &m, w);
}

#[test]
fn matrices_add_and_subtract_element_wise() {
    let m = counting();
    let one = Mat4x4([1.0f32; 16]);
    let mut up = [0.0f32; 16];
    let mut down = [0.0f32; 16];
    for i in 0..16 {
        up[i] = i as f32 + 1.0;
        down[i] = i as f32 - 1.0;
    }
    assert_eq!(m.clone() + one.clone(), Mat4x4(up));
    assert_eq!(&m + one.clone(), Mat4x4(up));
    assert_eq!(m.clone() + &one, Mat4x4(up));
    assert_eq!(&m + &one, Mat4x4(up));
    assert_eq!(m.clone() - one.clone(), Mat4x4(down));
    assert_eq!(&m - one.clone(), Mat4x4(down));
    assert_eq!(m.clone() - &one, Mat4x4(down));
    assert_eq!(&m - &one, Mat4x4(down));
}

#[test]
fn matrix_product_is_rows_times_columns() {
    let a = counting();
    let b = Mat4x4([
        1.0f32, 0.0, 2.0, 0.0, 0.0, 1.0, 0.0, 2.0, 3.0, 0.0, 1.0, 0.0, 0.0, 3.0, 0.0, 1.0,
    ]);
    let p = Mat4x4([
        6.0f32, 10.0, 2.0, 5.0, 22.0, 26.0, 14.0, 17.0, 38.0, 42.0, 26.0, 29.0, 54.0, 58.0, 38.0,
        41.0,
    ]);
    assert_eq!(a.clone() * b.clone(), p);
    assert_eq!(&a * b.clone(), p);
    assert_eq!(a.clone() * &b, p);
    assert_eq!(&a * &b, p);
    for y in 0..4 {
        for x in 0..4 {
            assert_eq!(p.0[(y * 4 + x) as usize], Vec4::dot(&a.row(y), &b.col(x)));
        }
    }
}

#[test]
fn matrix_product_with_the_identity() {
    let a = counting();
    assert_eq!(&a * Mat4x4::identity(), a);
    assert_eq!(Mat4x4::identity() * &a, a);
}

#[test]
fn matrix_product_does_not_commute() {
    let a = Mat4x4::translate(&Vec3([1.0f32, 2.0, 3.0]));
    let b = Mat4x4::scale(2.0f32);
    assert_ne!(&a * &b, &b * &a);
    assert_eq!((&a * &b).row(3), Vec4([2.0, 4.0, 6.0, 1.0]));
    assert_eq!((&b * &a).row(3), Vec4([1.0, 2.0, 3.0, 1.0]));
}

#[test]
fn transpose_of_a_product() {
    let a = Mat4x4([
        0.5f32, -1.25, 3.0, 0.1, 7.0, 0.3, -0.7, 2.0, 1.0e3, 4.0, -9.5, 0.25, 6.0, -2.0, 0.9, 1.0,
    ]);
    let b = Mat4x4([
        1.5f32, 0.2, -3.0, 4.0, 0.7, -8.0, 0.01, 2.5, -1.0, 1.0, 12.0, 0.6, 3.3, -0.4, 5.0, -6.0,
    ]);
    assert_eq!((&a * &b).transposed(), b.transposed() * a.transposed());
}
