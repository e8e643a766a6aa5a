use lalg::{collect_mat, Mat2x2, Mat4x4, Vec3, Vec4};

fn counting() -> Mat4x4<f32> {
    Mat4x4([
        0.0, 1.0, 2.0, 3.0, 4.0, 5.0, 6.0, 7.0, 8.0, 9.0, 10.0, 11.0, 12.0, 13.0, 14.0, 15.0,
    ])
}

#[test]
fn det_of_one_two_three_four() {
    assert_eq!(Mat2x2([1.0f32, 2.0, 3.0, 4.0]).det(), -2.0);
    assert_eq!(Mat2x2([1.0f32, 2.0, 3.0, 4.0]).det(), 1.0 * 4.0 - 2.0 * 3.0);
}

#[test]
fn det_is_zero_for_equal_rows() {
    assert_eq!(Mat2x2([2.0f32, 5.0, 2.0, 5.0]).det(), 0.0);
    let m = Mat2x2([1.0f32, 0.0, 0.0, 1.0]);
    let n = m;
    assert_eq!(m.clone().det(), 1.0);
    assert_eq!(m, n);
}

#[test]
fn identity_has_ones_on_the_diagonal() {
    assert_eq!(
        Mat4x4::<f32>::identity(),
        Mat4x4([
            1.0, 0.0, 0.0, 0.0, 0.0, 1.0, 0.0, 0.0, 0.0, 0.0, 1.0, 0.0, 0.0, 0.0, 0.0, 1.0
        ])
    );
}

#[test]
fn scale_leaves_w_alone() {
    assert_eq!(
        Mat4x4::scale(2.5f32),
        Mat4x4([
            2.5, 0.0, 0.0, 0.0, 0.0, 2.5, 0.0, 0.0, 0.0, 0.0, 2.5, 0.0, 0.0, 0.0, 0.0, 1.0
        ])
    );
}

#[test]
fn rotations_place_cosine_and_sine() {
    let (c, s) = (0.6f32, 0.8f32);
    assert_eq!(
        Mat4x4::rot_x(c, s),
        Mat4x4([1.0, 0.0, 0.0, 0.0, 0.0, c, s, 0.0, 0.0, -s, c, 0.0, 0.0, 0.0, 0.0, 1.0])
    );
    assert_eq!(
        Mat4x4::rot_y(c, s),
        Mat4x4([c, 0.0, -s, 0.0, 0.0, 1.0, 0.0, 0.0, s, 0.0, c, 0.0, 0.0, 0.0, 0.0, 1.0])
    );
    assert_eq!(
        Mat4x4::rot_z(c, s),
        Mat4x4([c, s, 0.0, 0.0, -s, c, 0.0, 0.0, 0.0, 0.0, 1.0, 0.0, 0.0, 0.0, 0.0, 1.0])
    );
}

#[test]
fn a_quarter_turn_about_z_takes_x_to_y() {
    let angle = std::f32::consts::FRAC_PI_2;
    let m = Mat4x4::rot_z(angle.cos(), angle.sin());
    let v = Vec4([1.0f32, 0.0, 0.0, 1.0]) * &m;
    assert!((v.x() - 0.0).abs() < 1.0e-6);
    assert!((v.y() - 1.0).abs() < 1.0e-6);
    assert_eq!(v.z(), 0.0);
    assert_eq!(v.w(), 1.0);
}

#[test]
fn a_zero_angle_rotation_is_the_identity() {
    let (c, s) = (0.0f32.cos(), 0.0f32.sin());
    assert_eq!(Mat4x4::rot_x(c, s), Mat4x4::identity());
    assert_eq!(Mat4x4::rot_y(c, s), Mat4x4::identity());
    assert_eq!(Mat4x4::rot_z(c, s), Mat4x4::identity());
}

#[test]
fn translate_fills_the_last_row() {
    let m = Mat4x4::translate(&Vec3([7.0f32, 8.0, 9.0]));
    assert_eq!(
        m,
        Mat4x4([1.0, 0.0, 0.0, 0.0, 0.0, 1.0, 0.0, 0.0, 0.0, 0.0, 1.0, 0.0, 7.0, 8.0, 9.0, 1.0])
    );
    assert_eq!(m.row(3).xyz(), Vec3([7.0, 8.0, 9.0]));
    assert_eq!(Vec4([1.0f32, 2.0, 3.0, 1.0]) * m, Vec4([8.0, 10.0, 12.0, 1.0]));
}

#[test]
fn perspective_for_a_right_angle() {
    // tan(45 degrees) is 1: f = 1, a = 1/2, c = (3 + 1) / (1 - 3), d = 2 * 3 / (1 - 3)
    assert_eq!(
        Mat4x4::proj_perspective(2.0f32, 1.0, 1.0, 3.0),
        Mat4x4([
            0.5, 0.0, 0.0, 0.0, 0.0, 1.0, 0.0, 0.0, 0.0, 0.0, -2.0, -1.0, 0.0, 0.0, -3.0, 0.0
        ])
    );
}

#[test]
fn perspective_divides_by_the_tangent_and_the_aspect() {
    let m = Mat4x4::proj_perspective(4.0f32, 0.5, 0.5, 100.5);
    assert_eq!(m.0[0], 0.5);
    assert_eq!(m.0[5], 2.0);
    assert_eq!(m.0[10], 101.0 / -100.0);
    assert_eq!(m.0[11], -1.0);
    assert_eq!(m.0[14], 2.0 * (100.5 * 0.5) / -100.0);
    assert_eq!(m.0[15], 0.0);
}

#[test]
fn perspective_does_not_guard_degenerate_parameters() {
    let same = Mat4x4::proj_perspective(1.0f32, 1.0, 2.0, 2.0);
    assert!(same.0[10].is_infinite());
    assert!(same.0[14].is_infinite());
    let flat = Mat4x4::proj_perspective(0.0f32, 1.0, 1.0, 2.0);
    assert!(flat.0[0].is_infinite());
    assert_eq!(flat.0[5], 1.0);
}

#[test]
fn rows_are_contiguous() {
    let m = counting();
    assert_eq!(m.row(0), Vec4([0.0, 1.0, 2.0, 3.0]));
    assert_eq!(m.row(1), Vec4([4.0, 5.0, 6.0, 7.0]));
    assert_eq!(m.row(2), Vec4([8.0, 9.0, 10.0, 11.0]));
    assert_eq!(m.row(3), Vec4([12.0, 13.0, 14.0, 15.0]));
}

#[test]
fn columns_stride_by_four() {
    let m = counting();
    assert_eq!(m.col(0), Vec4([0.0, 4.0, 8.0, 12.0]));
    assert_eq!(m.col(1), Vec4([1.0, 5.0, 9.0, 13.0]));
    assert_eq!(m.col(2), Vec4([2.0, 6.0, 10.0, 14.0]));
    assert_eq!(m.col(3), Vec4([3.0, 7.0, 11.0, 15.0]));
}

#[test]
fn basis_vectors_are_the_first_rows_cut_short() {
    let m = counting();
    assert_eq!(m.x(), Vec3([0.0, 1.0, 2.0]));
    assert_eq!(m.y(), Vec3([4.0, 5.0, 6.0]));
    assert_eq!(m.z(), Vec3([8.0, 9.0, 10.0]));
}

#[test]
fn transposed_exchanges_rows_and_columns() {
    let m = counting();
    let t = m.transposed();
    assert_eq!(
        t,
        Mat4x4([
            0.0, 4.0, 8.0, 12.0, 1.0, 5.0, 9.0, 13.0, 2.0, 6.0, 10.0, 14.0, 3.0, 7.0, 11.0, 15.0
        ])
    );
    for i in 0..4 {
        assert_eq!(t.row(i), m.col(i));
        assert_eq!(t.col(i), m.row(i));
    }
    assert_eq!(t.transposed(), m);
}

#[test]
fn identity_is_its_own_transpose() {
    assert_eq!(Mat4x4::<f32>::identity().transposed(), Mat4x4::identity());
}

#[test]
fn identity_rows_and_columns_are_unit_vectors() {
    let m = Mat4x4::<f32>::identity();
    let units = [
        Vec4([1.0f32, 0.0, 0.0, 0.0]),
        Vec4([0.0, 1.0, 0.0, 0.0]),
        Vec4([0.0, 0.0, 1.0, 0.0]),
        Vec4([0.0, 0.0, 0.0, 1.0]),
    ];
    for i in 0..4 {
        assert_eq!(m.row(i as i32), units[i]);
        assert_eq!(m.col(i as i32), units[i]);
    }
}

#[test]
fn collect_mat_takes_sixteen_items_in_row_major_order() {
    let mut items = (0..20).map(|i| i as f32);
    let m = collect_mat(&mut items);
    assert_eq!(m, counting());
    assert_eq!(items.next(), Some(16.0));
    assert_eq!(items.count(), 3);
}

#[test]
fn collect_mat_takes_exactly_what_is_there() {
    let source = [2.0f32; 16];
    let mut items = source.iter().copied();
    let m = collect_mat(&mut items);
    assert_eq!(m, Mat4x4([2.0; 16]));
    assert_eq!(items.next(), None);
}

#[test]
fn matrices_are_cloned() {
    let m = counting();
    let n = m.clone();
    assert_eq!(m, n);
    assert_ne!(m, Mat4x4::identity());
}

#[test]
fn half_angle_of_a_right_angle_is_an_eighth_turn() {
    let pi = std::f32::consts::PI;
    assert_eq!(Mat4x4::half_angle(90.0f32, pi), 90.0f32 / 180.0 * pi * 0.5);
    assert_eq!(Mat4x4::half_angle(90.0f32, pi), std::f32::consts::FRAC_PI_4);
    assert_eq!(Mat4x4::half_angle(360.0f64, 1.0), 1.0);
    assert_eq!(Mat4x4::half_angle(0.0f32, pi), 0.0);
}

#[test]
fn perspective_from_degrees() {
    let pi = std::f32::consts::PI;
    let t = Mat4x4::half_angle(60.0f32, pi).tan();
    let m = Mat4x4::proj_perspective(1.5f32, t, 0.1, 50.0);
    let f = 1.0 / (60.0f32 / 180.0 * pi * 0.5).tan();
    assert_eq!(m.0[0], f / 1.5);
    assert_eq!(m.0[5], f);
    assert_eq!(m.0[10], (50.0f32 + 0.1) / (0.1 - 50.0));
    assert_eq!(m.0[14], 2.0 * (50.0f32 * 0.1) / (0.1 - 50.0));
    assert!((f - 3.0f32.sqrt()).abs() < 1.0e-6);
}
