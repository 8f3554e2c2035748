use linalg::angle::Angle;
use linalg::tables::{BYTE_TO_RAD, QUARTER_WAVE, UNIT};
use linalg::traits::Trigonometry;

/// The single-precision sines of the first quarter turn, one per step.
const SINES: [f32; 65] = [
    0.0, 0.024541229, 0.049067676, 0.07356457, 0.09801714,
    0.12241068, 0.14673047, 0.1709619, 0.19509032, 0.21910124,
    0.2429802, 0.26671278, 0.29028466, 0.31368175, 0.33688986,
    0.35989505, 0.38268346, 0.40524134, 0.42755508, 0.44961134,
    0.47139674, 0.49289823, 0.51410276, 0.53499764, 0.55557024,
    0.5758082, 0.5956993, 0.61523163, 0.63439333, 0.65317285,
    0.671559, 0.68954057, 0.70710677, 0.7242471, 0.7409512,
    0.7572089, 0.77301043, 0.7883464, 0.8032075, 0.8175848,
    0.83146966, 0.8448536, 0.85772866, 0.87008697, 0.8819213,
    0.8932243, 0.9039893, 0.9142098, 0.9238795, 0.9329928,
    0.94154406, 0.9495282, 0.95694035, 0.96377605, 0.97003126,
    0.9757021, 0.9807853, 0.98527765, 0.9891765, 0.99247956,
    0.9951847, 0.99729043, 0.99879545, 0.9996988, 1.0,
];

fn to_f32(fixed: i32) -> f32 {
    fixed as f32 / UNIT as f32
}

fn sine(angle: Angle) -> f32 {
    to_f32(angle.sinf())
}

fn cosine(angle: Angle) -> f32 {
    to_f32(angle.cosf())
}

fn radians(angle: Angle) -> f32 {
    angle.radians() as f32 / UNIT as f32
}

fn from_radians(radians: f32) -> Angle {
    Angle::from_steps((radians * (255.0 / std::f32::consts::FRAC_PI_2)) as i32)
}

#[test]
fn unit_is_two_to_the_29() {
    assert_eq!(UNIT, 1 << 29);
    assert_eq!(to_f32(UNIT), 1.0);
}

#[test]
fn table_holds_the_single_precision_sines() {
    for i in 0..65 {
        assert_eq!(to_f32(QUARTER_WAVE[i]), SINES[i], "entry {}", i);
        assert_eq!(QUARTER_WAVE[i] as i64, (SINES[i] as f64 * (1u64 << 29) as f64) as i64);
    }
}

#[test]
fn table_follows_the_sine() {
    for i in 0..65 {
        let exact = (i as f64 / 256.0 * 2.0 * std::f64::consts::PI).sin();
        let held = QUARTER_WAVE[i] as f64 / UNIT as f64;
        assert!((held - exact).abs() < 1e-7, "entry {}", i);
    }
}

#[test]
fn sine_in_each_quadrant() {
    // first quarter: the table forwards
    assert_eq!(Angle(0).sinf(), 0);
    assert_eq!(Angle(1).sinf(), 13175472);
    assert_eq!(Angle(63).sinf(), 536709216);
    // second quarter: the table backwards
    assert_eq!(Angle(64).sinf(), 536870912);
    assert_eq!(Angle(65).sinf(), 536709216);
    assert_eq!(Angle(127).sinf(), 13175472);
    // third quarter: forwards, negated
    assert_eq!(Angle(128).sinf(), 0);
    assert_eq!(Angle(129).sinf(), -13175472);
    assert_eq!(Angle(191).sinf(), -536709216);
    // fourth quarter: backwards, negated
    assert_eq!(Angle(192).sinf(), -536870912);
    assert_eq!(Angle(193).sinf(), -536709216);
    assert_eq!(Angle(255).sinf(), -13175472);
}

#[test]
fn cosine_in_each_quadrant() {
    assert_eq!(Angle(0).cosf(), 536870912);
    assert_eq!(Angle(1).cosf(), 536709216);
    assert_eq!(Angle(63).cosf(), 13175472);
    assert_eq!(Angle(64).cosf(), 0);
    assert_eq!(Angle(65).cosf(), -13175472);
    assert_eq!(Angle(127).cosf(), -536709216);
    assert_eq!(Angle(128).cosf(), -536870912);
    assert_eq!(Angle(129).cosf(), -536709216);
    assert_eq!(Angle(191).cosf(), -13175472);
    assert_eq!(Angle(192).cosf(), 0);
    assert_eq!(Angle(193).cosf(), 13175472);
    assert_eq!(Angle(255).cosf(), 536709216);
}

#[test]
fn sine_and_cosine_follow_the_quadrant_formulas() {
    for b in 0..=255u8 {
        let low = (b & 0x3F) as usize;
        let (s, c) = match b & 0xC0 {
            0x00 => (QUARTER_WAVE[low], QUARTER_WAVE[64 - b as usize]),
            0x40 => (QUARTER_WAVE[64 - low], -QUARTER_WAVE[low]),
            0x80 => (-QUARTER_WAVE[low], -QUARTER_WAVE[64 - low]),
            _ => (-QUARTER_WAVE[64 - low], QUARTER_WAVE[low]),
        };
        assert_eq!(Angle(b).sinf(), s, "sine of {}", b);
        assert_eq!(Angle(b).cosf(), c, "cosine of {}", b);
    }
}

#[test]
fn sine_and_cosine_match_single_precision_values() {
    assert_eq!(sine(Angle(7)), 0.1709619);
    assert_eq!(sine(Angle(32)), 0.70710677);
    assert_eq!(cosine(Angle(32)), 0.70710677);
    assert_eq!(sine(Angle(96)), 0.70710677);
    assert_eq!(cosine(Angle(96)), -0.70710677);
    assert_eq!(sine(Angle(200)), -0.9807853);
    assert_eq!(cosine(Angle(200)), 0.19509032);
}

#[test]
fn sine_and_cosine_follow_the_real_functions() {
    for b in 0..=255u8 {
        let theta = b as f64 / 256.0 * 2.0 * std::f64::consts::PI;
        assert!((sine(Angle(b)) as f64 - theta.sin()).abs() < 1e-6, "sine of {}", b);
        assert!((cosine(Angle(b)) as f64 - theta.cos()).abs() < 1e-6, "cosine of {}", b);
    }
}

#[test]
fn squares_of_sine_and_cosine_sum_to_one() {
    for b in 0..=255u8 {
        let s = sine(Angle(b));
        let c = cosine(Angle(b));
        assert!((s * s + c * c - 1.0).abs() < 1e-5, "angle {}", b);
    }
}

#[test]
fn squares_sum_to_one_in_exact_arithmetic() {
    let one = UNIT as i128 * UNIT as i128;
    for b in 0..=255u8 {
        let s = Angle(b).sinf() as i128;
        let c = Angle(b).cosf() as i128;
        let d = s * s + c * c - one;
        assert!(100000 * d.abs() <= one, "angle {}", b);
    }
}

#[test]
fn table_follows_the_addition_formula() {
    let unit = UNIT as i128;
    let (sin_step, cos_step) = (QUARTER_WAVE[1] as i128, QUARTER_WAVE[63] as i128);
    for i in 0..64 {
        let (s, c) = (QUARTER_WAVE[i] as i128, QUARTER_WAVE[64 - i] as i128);
        let e = QUARTER_WAVE[i + 1] as i128 * unit - (s * cos_step + c * sin_step);
        assert!(10000000 * e.abs() <= unit * unit, "entry {}", i);
    }
}

#[test]
fn zero_angle() {
    assert_eq!(sine(Angle(0)), 0.0);
    assert_eq!(cosine(Angle(0)), 1.0);
}

#[test]
fn quarter_turn() {
    assert!((sine(Angle(64)) - 1.0).abs() < 1e-6);
    assert!(cosine(Angle(64)).abs() < 1e-6);
}

#[test]
fn half_turn() {
    assert!(sine(Angle(128)).abs() < 1e-6);
    assert!((cosine(Angle(128)) + 1.0).abs() < 1e-6);
}

#[test]
fn three_quarter_turn() {
    assert!((sine(Angle(192)) + 1.0).abs() < 1e-6);
    assert!(cosine(Angle(192)).abs() < 1e-6);
}

#[test]
fn sine_rises_in_the_first_quadrant() {
    for b1 in 0..=63u8 {
        for b2 in (b1 + 1)..=63u8 {
            assert!(sine(Angle(b1)) <= sine(Angle(b2)));
            assert!(Angle(b1).sinf() < Angle(b2).sinf());
        }
    }
}

#[test]
fn cosine_is_sine_a_quarter_turn_on() {
    for b in 0..=255u8 {
        assert_eq!(Angle(b).cosf(), (Angle(b) + Angle(64)).sinf());
    }
}

#[test]
fn sine_and_cosine_stay_within_one() {
    for b in 0..=255u8 {
        assert!(-UNIT <= Angle(b).sinf() && Angle(b).sinf() <= UNIT);
        assert!(-UNIT <= Angle(b).cosf() && Angle(b).cosf() <= UNIT);
    }
}

#[test]
fn trigonometry_trait_gives_the_same_values() {
    for b in 0..=255u8 {
        assert_eq!(Trigonometry::sin(Angle(b)), Angle(b).sinf());
        assert_eq!(Trigonometry::cos(Angle(b)), Angle(b).cosf());
    }
}

#[test]
fn radians_of_the_cardinal_angles() {
    assert_eq!(radians(Angle(0)), 0.0);
    assert_eq!(radians(Angle(32)), std::f32::consts::FRAC_PI_4);
    assert_eq!(radians(Angle(64)), std::f32::consts::FRAC_PI_2);
    assert_eq!(radians(Angle(128)), std::f32::consts::PI);
    assert_eq!(radians(Angle(192)), 1.5 * std::f32::consts::PI);
}

#[test]
fn radians_in_fixed_point() {
    assert_eq!(Angle(0).radians(), 0);
    assert_eq!(Angle(1).radians(), 13176795);
    assert_eq!(Angle(64).radians(), 843314880);
    assert_eq!(Angle(128).radians(), 1686629760);
    assert_eq!(Angle(255).radians(), 3360082688);
}

#[test]
fn radians_are_the_rounded_fraction_of_the_turn() {
    for b in 0..=255u8 {
        let exact = b as f64 / 256.0 * 2.0 * std::f64::consts::PI;
        assert_eq!(radians(Angle(b)), exact as f32, "angle {}", b);
        assert_eq!(Angle(b).radians(), BYTE_TO_RAD[b as usize]);
    }
}

#[test]
fn radians_are_accurate_in_exact_arithmetic() {
    // pi lies between these two, in units of 2^-29
    let (pi_low, pi_high) = (1686629713i128, 1686629714i128);
    for b in 0..=255u8 {
        let r = 128 * Angle(b).radians() as i128;
        assert!(b as i128 * pi_low - 16384 <= r && r <= b as i128 * pi_high + 16384);
    }
}

#[test]
fn radians_rise_with_the_angle() {
    for b in 0..255u8 {
        assert!(Angle(b).radians() < Angle(b + 1).radians());
    }
}

#[test]
fn from_steps_wraps() {
    assert_eq!(Angle::from_steps(0), Angle(0));
    assert_eq!(Angle::from_steps(255), Angle(255));
    assert_eq!(Angle::from_steps(256), Angle(0));
    assert_eq!(Angle::from_steps(300), Angle(44));
    assert_eq!(Angle::from_steps(-1), Angle(255));
    assert_eq!(Angle::from_steps(-256), Angle(0));
    assert_eq!(Angle::from_steps(-300), Angle(212));
    assert_eq!(Angle::from_steps(i32::MAX), Angle(255));
    assert_eq!(Angle::from_steps(i32::MIN), Angle(0));
}

#[test]
fn from_steps_is_the_step_count_modulo_256() {
    for steps in -1000..1000i32 {
        assert_eq!(Angle::from_steps(steps).0 as i32, steps.rem_euclid(256));
    }
}

#[test]
fn from_radians_scales_a_quarter_turn_to_255() {
    assert_eq!(from_radians(0.0), Angle(0));
    assert_eq!(from_radians(std::f32::consts::FRAC_PI_2), Angle(255));
    assert_eq!(from_radians(-0.01), Angle(255));
    // beyond the byte the count wraps silently
    assert_eq!(from_radians(2.0 * std::f32::consts::FRAC_PI_2), Angle(254));
    assert_eq!(from_radians(100.0).0 as i32, ((100.0f32 * (255.0 / std::f32::consts::FRAC_PI_2)) as i32).rem_euclid(256));
}

#[test]
fn radian_round_trip() {
    // The table counts 2 pi / 256 per step and the way back counts
    // 255 steps per quarter turn, so a step comes back about four-fold:
    // only these two bytes come back as themselves.
    assert_eq!(from_radians(radians(Angle(0))), Angle(0));
    assert_eq!(from_radians(radians(Angle(86))), Angle(86));
    let same: Vec<u8> = (0..=255u8).filter(|&b| from_radians(radians(Angle(b))) == Angle(b)).collect();
    assert_eq!(same, vec![0, 86]);
    assert_eq!(from_radians(radians(Angle(1))), Angle(3));
    assert_eq!(from_radians(radians(Angle(64))), Angle(255));
    assert_eq!(from_radians(radians(Angle(128))), Angle(254));
}
