//! The binary angle: one byte for a full turn, with wraparound arithmetic.

use core::cmp::Ordering;
use core::ops::{Add, Div, Mul, Neg, Rem, Sub};
use vstd::prelude::*;
use vstd::std_specs::ops::{AddSpec, NegSpec};

use crate::tables::{
    lemma_byte_to_rad_accurate, lemma_quarter_wave_bounds, lemma_quarter_wave_on_unit_circle,
    lemma_quarter_wave_rising, near_radians, near_unit, BYTE_TO_RAD, QUARTER_WAVE, UNIT,
};

verus! {

/// An angle as a fraction of a full turn: `Angle(v)` is `v / 256` of a turn,
/// so `Angle(64)` is a quarter turn and `Angle(128)` a half turn.
///
/// Every byte is a valid angle, and all arithmetic is modulo 256.
#[derive(Clone, Copy, Hash, Debug)]
pub struct Angle(pub u8);

impl View for Angle {
    type V = int;

    /// The step count, in `0..256`.
    open spec fn view(&self) -> int {
        self.0 as int
    }
}

impl Angle {
    /// The angle that an unbounded step count lands on.
    pub open spec fn wrap(steps: int) -> Angle {
        Angle((steps % 256) as u8)
    }

    /// The angle that a signed step count lands on: the count modulo 256.
    /// Counts outside one turn wrap silently.
    pub fn from_steps(steps: i32) -> (r: Angle)
        ensures
            r == Angle::wrap(steps as int),
    {
        let low: i32 = steps & 0xFF;
        proof {
            lemma_low_byte(steps);
        }
        Angle(low as u8)
    }
}

/// The low byte of a signed integer is the integer modulo 256.
proof fn lemma_low_byte(n: i32)
    ensures
        0 <= (n & 0xFF) < 256,
        (n & 0xFF) as int == n as int % 256,
{
    assert(0 <= (n & 0xFF) < 256) by (bit_vector);
    assert((n & 0xFF) == n % 256) by (bit_vector);
}

impl Default for Angle {
    fn default() -> (r: Self)
        ensures
            r == Angle(0),
    {
        Angle(0)
    }
}

impl vstd::std_specs::cmp::PartialEqSpecImpl for Angle {
    open spec fn obeys_eq_spec() -> bool {
        true
    }

    open spec fn eq_spec(&self, other: &Angle) -> bool {
        self.0 == other.0
    }
}

impl PartialEq for Angle {
    fn eq(&self, other: &Self) -> (r: bool) {
        self.0 == other.0
    }
}

impl vstd::std_specs::cmp::PartialOrdSpecImpl for Angle {
    open spec fn obeys_partial_cmp_spec() -> bool {
        true
    }

    /// Angles order as their bytes do, not by distance round the circle.
    open spec fn partial_cmp_spec(&self, other: &Angle) -> Option<Ordering> {
        if self.0 < other.0 {
            Some(Ordering::Less)
        } else if self.0 > other.0 {
            Some(Ordering::Greater)
        } else {
            Some(Ordering::Equal)
        }
    }
}

impl PartialOrd for Angle {
    fn ge(&self, other: &Self) -> (r: bool) {
        self.0 >= other.0
    }

    fn gt(&self, other: &Self) -> (r: bool) {
        self.0 > other.0
    }

    fn le(&self, other: &Self) -> (r: bool) {
        self.0 <= other.0
    }

    fn lt(&self, other: &Self) -> (r: bool) {
        self.0 < other.0
    }

    fn partial_cmp(&self, other: &Self) -> (r: Option<Ordering>) {
        if self.eq(other) {
            Some(Ordering::Equal)
        } else if self.gt(other) {
            Some(Ordering::Greater)
        } else {
            Some(Ordering::Less)
        }
    }
}

impl vstd::std_specs::ops::NegSpecImpl for Angle {
    open spec fn obeys_neg_spec() -> bool {
        true
    }

    open spec fn neg_req(self) -> bool {
        true
    }

    open spec fn neg_spec(self) -> Angle {
        Angle::wrap(-self@)
    }
}

impl Neg for Angle {
    type Output = Self;

    fn neg(self) -> (r: Self) {
        Angle(0u8.wrapping_sub(self.0))
    }
}

impl vstd::std_specs::ops::AddSpecImpl for Angle {
    open spec fn obeys_add_spec() -> bool {
        true
    }

    open spec fn add_req(self, rhs: Angle) -> bool {
        true
    }

    open spec fn add_spec(self, rhs: Angle) -> Angle {
        Angle::wrap(self@ + rhs@)
    }
}

impl Add for Angle {
    type Output = Self;

    fn add(self, rhs: Self) -> (r: Self) {
        Angle(self.0.wrapping_add(rhs.0))
    }
}

impl vstd::std_specs::ops::SubSpecImpl for Angle {
    open spec fn obeys_sub_spec() -> bool {
        true
    }

    open spec fn sub_req(self, rhs: Angle) -> bool {
        true
    }

    open spec fn sub_spec(self, rhs: Angle) -> Angle {
        Angle::wrap(self@ - rhs@)
    }
}

impl Sub for Angle {
    type Output = Self;

    fn sub(self, rhs: Self) -> (r: Self) {
        Angle(self.0.wrapping_sub(rhs.0))
    }
}

impl vstd::std_specs::ops::MulSpecImpl for Angle {
    open spec fn obeys_mul_spec() -> bool {
        true
    }

    open spec fn mul_req(self, rhs: Angle) -> bool {
        true
    }

    open spec fn mul_spec(self, rhs: Angle) -> Angle {
        Angle::wrap(self@ * rhs@)
    }
}

impl Mul for Angle {
    type Output = Self;

    fn mul(self, rhs: Self) -> (r: Self) {
        Angle(self.0.wrapping_mul(rhs.0))
    }
}

impl vstd::std_specs::ops::DivSpecImpl for Angle {
    open spec fn obeys_div_spec() -> bool {
        true
    }

    /// Division by the zero angle is not defined.
    open spec fn div_req(self, rhs: Angle) -> bool {
        rhs@ != 0
    }

    open spec fn div_spec(self, rhs: Angle) -> Angle {
        Angle((self@ / rhs@) as u8)
    }
}

impl Div for Angle {
    type Output = Self;

    fn div(self, rhs: Self) -> (r: Self) {
        Angle(self.0 / rhs.0)
    }
}

impl vstd::std_specs::ops::RemSpecImpl for Angle {
    open spec fn obeys_rem_spec() -> bool {
        true
    }

    /// The remainder by the zero angle is not defined.
    open spec fn rem_req(self, rhs: Angle) -> bool {
        rhs@ != 0
    }

    open spec fn rem_spec(self, rhs: Angle) -> Angle {
        Angle((self@ % rhs@) as u8)
    }
}

impl Rem for Angle {
    type Output = Self;

    fn rem(self, rhs: Self) -> (r: Self) {
        Angle(self.0 % rhs.0)
    }
}

impl Angle {
    /// `self += rhs`, modulo a full turn.
    pub fn add_assign(&mut self, rhs: Self)
        ensures
            *final(self) == Angle::wrap(old(self)@ + rhs@),
    {
        self.0 = self.0.wrapping_add(rhs.0)
    }

    /// `self -= rhs`, modulo a full turn.
    pub fn sub_assign(&mut self, rhs: Self)
        ensures
            *final(self) == Angle::wrap(old(self)@ - rhs@),
    {
        self.0 = self.0.wrapping_sub(rhs.0)
    }

    /// `self *= rhs`, modulo 256.
    pub fn mul_assign(&mut self, rhs: Self)
        ensures
            *final(self) == Angle::wrap(old(self)@ * rhs@),
    {
        self.0 = self.0.wrapping_mul(rhs.0)
    }

    /// `self /= rhs`, the integer quotient of the bytes.
    pub fn div_assign(&mut self, rhs: Self)
        requires
            rhs@ != 0,
        ensures
            final(self)@ == old(self)@ / rhs@,
    {
        self.0 = self.0 / rhs.0
    }

    /// `self %= rhs`, the integer remainder of the bytes.
    pub fn rem_assign(&mut self, rhs: Self)
        requires
            rhs@ != 0,
        ensures
            final(self)@ == old(self)@ % rhs@,
    {
        self.0 %= rhs.0
    }
}

/// Negation is the additive inverse on the circle: an angle plus the angle
/// `256 - b` steps round is the zero angle, and that angle is its negation.
pub proof fn lemma_additive_inverse(b: u8)
    ensures
        Angle(b).add_spec(Angle(((256 - b) % 256) as u8)) == Angle(0),
        Angle(b).neg_spec() == Angle(((256 - b) % 256) as u8),
        Angle(b).add_spec(Angle(b).neg_spec()) == Angle(0),
{
}

impl Angle {
    /// Which quarter of the turn the angle lies in, `0..4`.
    pub open spec fn quadrant(self) -> int {
        self@ / 64
    }

    /// How far into its quarter the angle lies, `0..64`.
    pub open spec fn offset(self) -> int {
        self@ % 64
    }

    /// The sine in units of `2^-29`: the quarter-wave table read forwards or
    /// backwards, negated in the second half of the turn.
    pub open spec fn sin_spec(self) -> int {
        let p = self.offset();
        if self.quadrant() == 0 {
            QUARTER_WAVE[p] as int
        } else if self.quadrant() == 1 {
            QUARTER_WAVE[64 - p] as int
        } else if self.quadrant() == 2 {
            -(QUARTER_WAVE[p] as int)
        } else {
            -(QUARTER_WAVE[64 - p] as int)
        }
    }

    /// The cosine in units of `2^-29`: the sine a quarter turn on.
    pub open spec fn cos_spec(self) -> int {
        let p = self.offset();
        if self.quadrant() == 0 {
            QUARTER_WAVE[64 - p] as int
        } else if self.quadrant() == 1 {
            -(QUARTER_WAVE[p] as int)
        } else if self.quadrant() == 2 {
            -(QUARTER_WAVE[64 - p] as int)
        } else {
            QUARTER_WAVE[p] as int
        }
    }

    /// The angle in radians, in units of `2^-29`.
    pub open spec fn radians_spec(self) -> int {
        BYTE_TO_RAD[self@] as int
    }

    /// Sine of the angle as a fixed-point number: `UNIT` stands for `1.0`.
    pub fn sinf(self) -> (r: i32)
        ensures
            r == self.sin_spec(),
            -UNIT <= r <= UNIT,
    {
        let low: u8 = self.0 & 0x3F;
        let quarter: u8 = self.0 & 0xC0;
        proof {
            lemma_byte_split(self.0);
            lemma_quarter_wave_bounds(low as int);
            lemma_quarter_wave_bounds(64 - low);
        }
        match quarter {
            0x00 => QUARTER_WAVE[low as usize],
            0x40 => QUARTER_WAVE[(0x40 - low) as usize],
            0x80 => -QUARTER_WAVE[low as usize],
            _ => -QUARTER_WAVE[(0x40 - low) as usize],
        }
    }

    /// Cosine of the angle as a fixed-point number: `UNIT` stands for `1.0`.
    ///
    /// In the first quarter the whole byte is the offset, so the table is
    /// indexed by `64 - byte` there.
    pub fn cosf(self) -> (r: i32)
        ensures
            r == self.cos_spec(),
            -UNIT <= r <= UNIT,
    {
        let low: u8 = self.0 & 0x3F;
        let quarter: u8 = self.0 & 0xC0;
        proof {
            lemma_byte_split(self.0);
            lemma_quarter_wave_bounds(low as int);
            lemma_quarter_wave_bounds(64 - low);
        }
        match quarter {
            0x00 => QUARTER_WAVE[(0x40 - self.0) as usize],
            0x40 => -QUARTER_WAVE[low as usize],
            0x80 => -QUARTER_WAVE[(0x40 - low) as usize],
            _ => QUARTER_WAVE[low as usize],
        }
    }

    /// The angle in radians as a fixed-point number, in units of `2^-29`:
    /// one table lookup, so the result takes one of 256 values.
    pub fn radians(self) -> (r: u32)
        ensures
            r == self.radians_spec(),
            near_radians(self@, r as int),
    {
        proof {
            lemma_byte_to_rad_accurate(self@);
        }
        BYTE_TO_RAD[self.0 as usize]
    }
}

/// The two masks of the quadrant split cut a byte into `byte / 64` and
/// `byte % 64`.
proof fn lemma_byte_split(b: u8)
    ensures
        (b & 0x3F) as int == b as int % 64,
        (b & 0xC0) as int == 64 * (b as int / 64),
{
    assert(b & 0x3F == b % 64) by (bit_vector);
    assert(b & 0xC0 == 64 * (b / 64)) by (bit_vector);
}

/// Sine and cosine of every angle lie on the unit circle: the sum of their
/// squares is within `10^-5` of one, in exact arithmetic on the fixed-point
/// values.
pub proof fn lemma_sine_cosine_on_unit_circle(a: Angle)
    ensures
        near_unit(a.sin_spec(), a.cos_spec()),
{
    lemma_quarter_wave_on_unit_circle(a.offset());
    let s = QUARTER_WAVE[a.offset()] as int;
    let c = QUARTER_WAVE[64 - a.offset()] as int;
    assert((-s) * (-s) == s * s) by (nonlinear_arith);
    assert((-c) * (-c) == c * c) by (nonlinear_arith);
}

/// Within the first quarter of the turn the sine rises with the angle.
pub proof fn lemma_sine_rising_in_first_quadrant(a: Angle, b: Angle)
    requires
        a@ < b@ <= 63,
    ensures
        a.sin_spec() < b.sin_spec(),
{
    lemma_quarter_wave_rising(a@, b@);
}

/// The cosine of an angle is the sine of the angle a quarter turn on.
pub proof fn lemma_cosine_is_shifted_sine(a: Angle)
    ensures
        a.cos_spec() == a.add_spec(Angle(64)).sin_spec(),
{
    let on = a.add_spec(Angle(64));
    assert(on@ == if a@ < 192 { a@ + 64 } else { a@ - 192 });
    assert(on.offset() == a.offset());
    assert(on.quadrant() == if a.quadrant() == 3 { 0 } else { a.quadrant() + 1 });
}

} // verus!
