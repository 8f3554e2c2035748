use linalg::vectors::{Vec2, Vec3, Vec4};
use linalg::Angle;

#[test]
fn test() {
    assert_eq!(Vec2::ivec2_distance(Vec2(1, 0), Vec2(-1, 0)), 2u32)
}

#[test]
fn vec2_components() {
    let v = Vec2(3u8, 4u8);
    assert_eq!(v.x(), 3);
    assert_eq!(v.y(), 4);
}

#[test]
fn vec2_components_can_be_written() {
    let mut v = Vec2(3i32, 4i32);
    *v.x_mut() = 10;
    assert_eq!(v, Vec2(10, 4));
    *v.y_mut() += 1;
    assert_eq!(v, Vec2(10, 5));
}

#[test]
fn vec2_dot_and_squared_magnitude() {
    assert_eq!(Vec2::dot(Vec2(1u8, 2u8), Vec2(3u8, 4u8)), 11);
    assert_eq!(Vec2::dot(Vec2(1i32, -2), Vec2(3, 4)), -5);
    assert_eq!(Vec2(3u32, 4u32).squared_magnitude(), 25);
    assert_eq!(Vec2(-3i16, 4i16).squared_magnitude(), 25);
}

#[test]
fn vec2_unsigned_magnitude() {
    assert_eq!(Vec2(3u32, 4u32).uvec2_magnitude(), 5);
    assert_eq!(Vec2(0u8, 0u8).uvec2_magnitude(), 0);
    assert_eq!(Vec2(1u8, 1u8).uvec2_magnitude(), 1);
    assert_eq!(Vec2(2u16, 2u16).uvec2_magnitude(), 2);
    assert_eq!(Vec2(100u16, 100u16).uvec2_magnitude(), 141);
}

#[test]
fn vec2_unsigned_distance() {
    // b lies beyond a in both components: b - a
    assert_eq!(Vec2::uvec2_distance(Vec2(1u32, 1), Vec2(4, 5)), 5);
    // otherwise: a - b
    assert_eq!(Vec2::uvec2_distance(Vec2(4u32, 5), Vec2(1, 1)), 5);
    assert_eq!(Vec2::uvec2_distance(Vec2(4u8, 5), Vec2(4, 5)), 0);
    assert_eq!(Vec2::uvec2_distance(Vec2(7u16, 5), Vec2(7, 2)), 3);
}

#[test]
fn vec2_signed_magnitude_and_distance() {
    assert_eq!(Vec2(-3i32, 4i32).ivec2_magnitude(), 5u32);
    assert_eq!(Vec2(-3i8, -4i8).ivec2_magnitude(), 5u8);
    assert_eq!(Vec2::ivec2_distance(Vec2(-1i16, -1), Vec2(2, 3)), 5u16);
    assert_eq!(Vec2::ivec2_distance(Vec2(5i32, 5), Vec2(5, 5)), 0u32);
    assert_eq!(Vec2::ivec2_distance(Vec2(0i32, 0), Vec2(1000, 1000)), 1414u32);
}

#[test]
fn vec2_arithmetic() {
    assert_eq!(-Vec2(1i32, -2), Vec2(-1, 2));
    assert_eq!(Vec2(1u8, 2) + Vec2(3, 4), Vec2(4, 6));
    assert_eq!(Vec2(5i16, 2) - Vec2(3, 4), Vec2(2, -2));
    assert_eq!(Vec2(5u32, 2) * 3, Vec2(15, 6));
    assert_eq!(Vec2(15u32, 7) / 3, Vec2(5, 2));
    assert_eq!(3u8 * Vec2(3u8, 4), Vec2(9, 12));
    assert_eq!(-2i32 * Vec2(3i32, 4), Vec2(-6, -8));
}

#[test]
fn vec2_assigning_arithmetic() {
    let mut v = Vec2(1i32, 2);
    v.add_assign(Vec2(10, 20));
    assert_eq!(v, Vec2(11, 22));
    v.sub_assign(Vec2(1, 2));
    assert_eq!(v, Vec2(10, 20));
    v.mul_assign(3);
    assert_eq!(v, Vec2(30, 60));
    v.div_assign(4);
    assert_eq!(v, Vec2(7, 15));
}

#[test]
fn vec2_widens_bytes() {
    assert_eq!(Vec2::<u16>::from(Vec2(255u8, 7u8)), Vec2(255u16, 7u16));
}

#[test]
fn vec2_from_an_angle_is_cosine_and_sine() {
    assert_eq!(Vec2::<i32>::from(Angle(0)), Vec2(536870912, 0));
    assert_eq!(Vec2::<i32>::from(Angle(64)), Vec2(0, 536870912));
    assert_eq!(Vec2::<i32>::from(Angle(128)), Vec2(-536870912, 0));
    assert_eq!(Vec2::<i32>::from(Angle(1)), Vec2(536709216, 13175472));
    for b in 0..=255u8 {
        assert_eq!(Vec2::<i32>::from(Angle(b)), Vec2(Angle(b).cosf(), Angle(b).sinf()));
    }
}

#[test]
fn vec2_of_angles() {
    assert_eq!(Vec2(Angle(200), Angle(1)) + Vec2(Angle(100), Angle(2)), Vec2(Angle(44), Angle(3)));
    assert_eq!(Vec2(Angle(3), Angle(4)) * Angle(100), Vec2(Angle(44), Angle(144)));
}

#[test]
fn vec3_components() {
    let mut v = Vec3(1u8, 2, 3);
    assert_eq!((v.x(), v.y(), v.z()), (1, 2, 3));
    *v.x_mut() = 7;
    *v.y_mut() = 8;
    *v.z_mut() = 9;
    assert_eq!(v, Vec3(7, 8, 9));
}

#[test]
fn vec3_swizzles() {
    let v = Vec3(1i32, 2, 3);
    assert_eq!(v.xy(), Vec2(1, 2));
    assert_eq!(v.yz(), Vec2(2, 3));
    assert_eq!(v.xz(), Vec2(1, 3));
}

#[test]
fn vec3_arithmetic() {
    assert_eq!(-Vec3(1i8, -2, 3), Vec3(-1, 2, -3));
    assert_eq!(Vec3(1u8, 2, 3) + Vec3(3, 4, 5), Vec3(4, 6, 8));
    assert_eq!(Vec3(5i16, 2, 0) - Vec3(3, 4, 5), Vec3(2, -2, -5));
    assert_eq!(Vec3(5u32, 2, 1) * 3, Vec3(15, 6, 3));
    assert_eq!(Vec3(15u32, 7, 2) / 3, Vec3(5, 2, 0));
    assert_eq!(3u16 * Vec3(3u16, 4, 5), Vec3(9, 12, 15));
    let mut v = Vec3(1i32, 2, 3);
    v.add_assign(Vec3(1, 1, 1));
    v.mul_assign(4);
    v.sub_assign(Vec3(0, 2, 4));
    v.div_assign(2);
    assert_eq!(v, Vec3(4, 5, 6));
}

#[test]
fn vec4_components() {
    let mut v = Vec4(1u8, 2, 3, 4);
    assert_eq!((v.x(), v.y(), v.z(), v.w()), (1, 2, 3, 4));
    *v.x_mut() = 6;
    *v.y_mut() = 7;
    *v.z_mut() = 8;
    *v.w_mut() = 9;
    assert_eq!(v, Vec4(6, 7, 8, 9));
}

#[test]
fn vec4_swizzles() {
    let v = Vec4(1i32, 2, 3, 4);
    assert_eq!(v.xy(), Vec2(1, 2));
    assert_eq!(v.xz(), Vec2(1, 3));
    assert_eq!(v.xw(), Vec2(1, 4));
    assert_eq!(v.yz(), Vec2(2, 3));
    assert_eq!(v.yw(), Vec2(2, 4));
    assert_eq!(v.zw(), Vec2(3, 4));
    assert_eq!(v.xyz(), Vec3(1, 2, 3));
    assert_eq!(v.xyw(), Vec3(1, 2, 4));
    assert_eq!(v.xzw(), Vec3(1, 3, 4));
    assert_eq!(v.yzw(), Vec3(2, 3, 4));
}

#[test]
fn vec4_arithmetic() {
    assert_eq!(-Vec4(1i32, -2, 3, -4), Vec4(-1, 2, -3, 4));
    assert_eq!(Vec4(1u8, 2, 3, 4) + Vec4(3, 4, 5, 6), Vec4(4, 6, 8, 10));
    assert_eq!(Vec4(5i16, 2, 0, 1) - Vec4(3, 4, 5, 6), Vec4(2, -2, -5, -5));
    assert_eq!(Vec4(5u32, 2, 1, 0) * 3, Vec4(15, 6, 3, 0));
    assert_eq!(Vec4(15u32, 7, 2, 9) / 3, Vec4(5, 2, 0, 3));
    assert_eq!(3i8 * Vec4(3i8, 4, 5, -6), Vec4(9, 12, 15, -18));
    let mut v = Vec4(1u32, 2, 3, 4);
    v.add_assign(Vec4(1, 1, 1, 1));
    v.mul_assign(4);
    v.sub_assign(Vec4(0, 2, 4, 6));
    v.div_assign(2);
    assert_eq!(v, Vec4(4, 5, 6, 7));
}

#[test]
fn vectors_default_to_zero_and_clone() {
    assert_eq!(Vec2::<u8>::default(), Vec2(0, 0));
    assert_eq!(Vec3::<i16>::default(), Vec3(0, 0, 0));
    assert_eq!(Vec4::<u32>::default(), Vec4(0, 0, 0, 0));
    let v = Vec3(1u8, 2, 3);
    assert_eq!(v.clone(), v);
}
