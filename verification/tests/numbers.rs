use linalg::traits::{isqrt16, isqrt32, isqrt8, One, Signed, Sqrt, Zero};

#[test]
fn square_roots_of_squares() {
    assert_eq!(isqrt8(0), 0);
    assert_eq!(isqrt8(1), 1);
    assert_eq!(isqrt8(4), 2);
    assert_eq!(isqrt8(9), 3);
    assert_eq!(isqrt8(225), 15);
    assert_eq!(isqrt16(256), 16);
    assert_eq!(isqrt16(65025), 255);
    assert_eq!(isqrt32(65536), 256);
    assert_eq!(isqrt32(4294836225), 65535);
}

#[test]
fn square_roots_round_down() {
    assert_eq!(isqrt8(2), 1);
    assert_eq!(isqrt8(3), 1);
    assert_eq!(isqrt8(5), 2);
    assert_eq!(isqrt8(8), 2);
    assert_eq!(isqrt8(24), 4);
    assert_eq!(isqrt8(26), 5);
    assert_eq!(isqrt8(255), 15);
    assert_eq!(isqrt16(65535), 255);
    assert_eq!(isqrt32(1000000), 1000);
    assert_eq!(isqrt32(999999), 999);
    assert_eq!(isqrt32(u32::MAX), 65535);
}

#[test]
fn every_byte_has_its_square_root() {
    for x in 0..=255u8 {
        let r = isqrt8(x) as u32;
        assert!(r * r <= x as u32 && (x as u32) < (r + 1) * (r + 1), "x = {}", x);
    }
}

#[test]
fn every_u16_has_its_square_root() {
    for x in 0..=65535u16 {
        let r = isqrt16(x) as u32;
        assert!(r * r <= x as u32 && (x as u32) < (r + 1) * (r + 1), "x = {}", x);
    }
}

#[test]
fn u32_square_roots_round_down() {
    let mut x: u64 = 0;
    while x <= u32::MAX as u64 {
        let r = isqrt32(x as u32) as u64;
        assert!(r * r <= x && x < (r + 1) * (r + 1), "x = {}", x);
        x += 65521;
    }
    for r in [1u64, 2, 3, 255, 256, 4095, 4096, 46340, 46341, 65535] {
        assert_eq!(isqrt32((r * r) as u32) as u64, r);
        assert_eq!(isqrt32((r * r - 1) as u32) as u64, r - 1);
    }
}

#[test]
fn sqrt_trait_is_the_integer_square_root() {
    assert_eq!(Sqrt::sqrt(26u8), 5);
    assert_eq!(Sqrt::sqrt(1000u16), 31);
    assert_eq!(Sqrt::sqrt(123456789u32), 11111);
}

#[test]
fn zeros_and_ones() {
    assert_eq!(<u8 as Zero>::zero(), 0);
    assert_eq!(<u16 as Zero>::zero(), 0);
    assert_eq!(<u32 as Zero>::zero(), 0);
    assert_eq!(<i8 as Zero>::zero(), 0);
    assert_eq!(<i16 as Zero>::zero(), 0);
    assert_eq!(<i32 as Zero>::zero(), 0);
    assert_eq!(<u8 as One>::one(), 1);
    assert_eq!(<u16 as One>::one(), 1);
    assert_eq!(<u32 as One>::one(), 1);
    assert_eq!(<i8 as One>::one(), 1);
    assert_eq!(<i16 as One>::one(), 1);
    assert_eq!(<i32 as One>::one(), 1);
}

#[test]
fn signed_values_carry_over_to_unsigned() {
    assert_eq!(Signed::into_unsigned(0i8), 0u8);
    assert_eq!(Signed::into_unsigned(127i8), 127u8);
    assert_eq!(Signed::into_unsigned(32767i16), 32767u16);
    assert_eq!(Signed::into_unsigned(4i32), 4u32);
    assert_eq!(Signed::into_unsigned(i32::MAX), 2147483647u32);
}
