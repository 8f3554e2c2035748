use linalg::matrices::{Mat3, Mat4};
use linalg::tables::UNIT;
use linalg::vectors::{Vec2, Vec3, Vec4};
use linalg::Angle;

#[test]
fn mat3_identity() {
    assert_eq!(
        Mat3::<i32>::identity(),
        Mat3(Vec3(1, 0, 0), Vec3(0, 1, 0), Vec3(0, 0, 1))
    );
}

#[test]
fn mat3_scaling() {
    assert_eq!(
        Mat3::new_2d_homogeneous_scaling_mat(Vec2(2u8, 3u8)),
        Mat3(Vec3(2, 0, 0), Vec3(0, 3, 0), Vec3(0, 0, 1))
    );
}

#[test]
fn mat3_translation() {
    assert_eq!(
        Mat3::new_2d_homogeneous_translation_mat(Vec2(5i32, -7)),
        Mat3(Vec3(1, 0, 0), Vec3(0, 1, 0), Vec3(5, -7, 1))
    );
}

#[test]
fn mat3_rotation() {
    assert_eq!(
        Mat3::new_2d_homogeneous_rotation_mat(Angle(0)),
        Mat3(Vec3(UNIT, 0, 0), Vec3(0, UNIT, 0), Vec3(0, 0, UNIT))
    );
    assert_eq!(
        Mat3::new_2d_homogeneous_rotation_mat(Angle(64)),
        Mat3(Vec3(0, -UNIT, 0), Vec3(UNIT, 0, 0), Vec3(0, 0, UNIT))
    );
    assert_eq!(
        Mat3::new_2d_homogeneous_rotation_mat(Angle(1)),
        Mat3(
            Vec3(536709216, -13175472, 0),
            Vec3(13175472, 536709216, 0),
            Vec3(0, 0, UNIT)
        )
    );
    for b in 0..=255u8 {
        let (s, c) = (Angle(b).sinf(), Angle(b).cosf());
        assert_eq!(
            Mat3::new_2d_homogeneous_rotation_mat(Angle(b)),
            Mat3(Vec3(c, -s, 0), Vec3(s, c, 0), Vec3(0, 0, UNIT))
        );
    }
}

#[test]
fn mat3_applied_to_a_point() {
    let move_by = Mat3::new_2d_homogeneous_translation_mat(Vec2(5i32, -7));
    assert_eq!(move_by * Vec2(1, 1), Vec3(6, -6, 1));
    let scale_by = Mat3::new_2d_homogeneous_scaling_mat(Vec2(2i32, 3));
    assert_eq!(scale_by * Vec2(4, 5), Vec3(8, 15, 1));
    let m = Mat3(Vec3(1i32, 2, 3), Vec3(4, 5, 6), Vec3(7, 8, 9));
    assert_eq!(m * Vec2(10, 100), Vec3(417, 528, 639));
}

#[test]
fn mat3_applied_to_a_vector() {
    let m = Mat3(Vec3(1i32, 2, 3), Vec3(4, 5, 6), Vec3(7, 8, 9));
    assert_eq!(m * Vec3(1, 0, 0), Vec3(1, 2, 3));
    assert_eq!(m * Vec3(0, 1, 0), Vec3(4, 5, 6));
    assert_eq!(m * Vec3(10, 100, 1000), Vec3(7410, 8520, 9630));
    assert_eq!(Mat3::<i32>::identity() * Vec3(3, 4, 5), Vec3(3, 4, 5));
}

#[test]
fn mat3_product() {
    let a = Mat3(Vec3(1i32, 2, 3), Vec3(4, 5, 6), Vec3(7, 8, 9));
    let b = Mat3(Vec3(1i32, 10, 100), Vec3(2, 20, 200), Vec3(3, 30, 300));
    // first column: a.0 * 1 + a.1 * 10 + a.2 * 100
    // second column: a.1 * 2 + a.1 * 20 + a.2 * 200
    // third column: a.2 * 3 + a.1 * 30 + a.2 * 300
    assert_eq!(
        a * b,
        Mat3(
            Vec3(741, 852, 963),
            Vec3(1488, 1710, 1932),
            Vec3(2241, 2574, 2907)
        )
    );
}

#[test]
fn mat3_product_in_place() {
    let mut a = Mat3(Vec3(1i32, 2, 3), Vec3(4, 5, 6), Vec3(7, 8, 9));
    let b = Mat3(Vec3(1i32, 10, 100), Vec3(2, 20, 200), Vec3(3, 30, 300));
    a.mul_assign(b);
    // the third column is blended from the second as already replaced:
    // a.2 * 3 + (1488, 1710, 1932) * 30 + a.2 * 300
    assert_eq!(
        a,
        Mat3(
            Vec3(741, 852, 963),
            Vec3(1488, 1710, 1932),
            Vec3(46761, 53724, 60687)
        )
    );
}

#[test]
fn mat3_into_array() {
    let m = Mat3(Vec3(1u8, 2, 3), Vec3(4, 5, 6), Vec3(7, 8, 9));
    assert_eq!(m.into_array(), [1, 2, 3, 4, 5, 6, 7, 8, 9]);
}

#[test]
fn mat4_identity() {
    assert_eq!(
        Mat4::<u8>::identity(),
        Mat4(
            Vec4(1, 0, 0, 0),
            Vec4(0, 1, 0, 0),
            Vec4(0, 0, 1, 0),
            Vec4(0, 0, 0, 1)
        )
    );
}

#[test]
fn mat4_orthogonal_projection() {
    // every axis from -1 to 1: scale 2 / 2, offset -0 / 2
    assert_eq!(
        Mat4::new_orthogonal_projection_mat((-1i32, 1), (-1, 1), (-1, 1)),
        Mat4(
            Vec4(1, 0, 0, 0),
            Vec4(0, 1, 0, 0),
            Vec4(0, 0, -1, 0),
            Vec4(0, 0, 0, 1)
        )
    );
    // 2 / (2 - 0), 2 / (1 - 0), -2 / (-1 - 1); -(2 + 0) / 2, -(1 + 0) / 1, -(-1 + 1) / -2
    assert_eq!(
        Mat4::new_orthogonal_projection_mat((0i32, 2), (0, 1), (1, -1)),
        Mat4(
            Vec4(1, 0, 0, 0),
            Vec4(0, 2, 0, 0),
            Vec4(0, 0, 1, 0),
            Vec4(-1, -1, 0, 1)
        )
    );
    // integer division rounds towards zero: 2 / 3, -7 / 3
    assert_eq!(
        Mat4::new_orthogonal_projection_mat((2i16, 5), (0, 1), (0, 1)),
        Mat4(
            Vec4(0, 0, 0, 0),
            Vec4(0, 2, 0, 0),
            Vec4(0, 0, -2, 0),
            Vec4(-2, -1, -1, 1)
        )
    );
}

#[test]
fn mat4_applied_to_a_point() {
    let m = Mat4(
        Vec4(1i32, 2, 3, 4),
        Vec4(5, 6, 7, 8),
        Vec4(9, 10, 11, 12),
        Vec4(13, 14, 15, 16),
    );
    assert_eq!(m * Vec3(10, 100, 1000), Vec4(9523, 10634, 11745, 12856));
}

#[test]
fn mat4_applied_to_a_vector() {
    let m = Mat4(
        Vec4(1i32, 2, 3, 4),
        Vec4(5, 6, 7, 8),
        Vec4(9, 10, 11, 12),
        Vec4(13, 14, 15, 16),
    );
    assert_eq!(m * Vec4(1, 10, 100, 1000), Vec4(13951, 15062, 16173, 17284));
    assert_eq!(Mat4::<i32>::identity() * Vec4(3, 4, 5, 6), Vec4(3, 4, 5, 6));
}

#[test]
fn mat4_product() {
    let a = Mat4(
        Vec4(1i32, 2, 3, 4),
        Vec4(5, 6, 7, 8),
        Vec4(9, 10, 11, 12),
        Vec4(13, 14, 15, 16),
    );
    let b = Mat4(
        Vec4(1i32, 0, 0, 0),
        Vec4(1, 1, 0, 0),
        Vec4(1, 0, 1, 0),
        Vec4(1, 0, 0, 1),
    );
    // column j: a.j * b.j.0 + a.1 * b.j.1 + a.2 * b.j.2 + a.3 * b.j.3
    assert_eq!(
        a * b,
        Mat4(
            Vec4(1, 2, 3, 4),
            Vec4(10, 12, 14, 16),
            Vec4(18, 20, 22, 24),
            Vec4(26, 28, 30, 32)
        )
    );
}

#[test]
fn mat4_product_in_place() {
    let mut a = Mat4(
        Vec4(1i32, 2, 3, 4),
        Vec4(5, 6, 7, 8),
        Vec4(9, 10, 11, 12),
        Vec4(13, 14, 15, 16),
    );
    let b = Mat4(
        Vec4(1i32, 0, 0, 0),
        Vec4(1, 1, 0, 0),
        Vec4(1, 1, 1, 0),
        Vec4(1, 1, 1, 1),
    );
    a.mul_assign(b);
    // second column: a.1 + a.1; third: a.2 + new second + a.2;
    // fourth: a.3 + new second + new third + a.3
    assert_eq!(
        a,
        Mat4(
            Vec4(1, 2, 3, 4),
            Vec4(10, 12, 14, 16),
            Vec4(28, 32, 36, 40),
            Vec4(64, 72, 80, 88)
        )
    );
}

#[test]
fn mat4_into_array() {
    let m = Mat4(
        Vec4(1u8, 2, 3, 4),
        Vec4(5, 6, 7, 8),
        Vec4(9, 10, 11, 12),
        Vec4(13, 14, 15, 16),
    );
    assert_eq!(
        m.into_array(),
        [1, 2, 3, 4, 5, 6, 7, 8, 9, 10, 11, 12, 13, 14, 15, 16]
    );
}

#[test]
fn matrices_default_to_zero_and_clone() {
    assert_eq!(
        Mat3::<u8>::default(),
        Mat3(Vec3(0, 0, 0), Vec3(0, 0, 0), Vec3(0, 0, 0))
    );
    let m = Mat3(Vec3(1u8, 2, 3), Vec3(4, 5, 6), Vec3(7, 8, 9));
    assert_eq!(m.clone(), m);
}
