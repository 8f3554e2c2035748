//! The numeric capabilities that vectors and matrices are generic over, and
//! the integer square root.

use core::ops::{Add, Div, Mul, Neg, Sub};
use vstd::prelude::*;

use crate::angle::Angle;
use crate::tables::UNIT;

verus! {

/// A scalar that vectors and matrices can be built from: it can be copied,
/// compared, added, subtracted, multiplied and divided, and has a zero and a
/// one.
pub trait Number<Rhs = Self, Output = Self>:
    Copy
    + Sized
    + PartialEq
    + PartialOrd
    + Add<Rhs, Output = Output>
    + Sub<Rhs, Output = Output>
    + Mul<Rhs, Output = Output>
    + Div<Rhs, Output = Output>
    + Zero
    + One
{
}

/// A type with an additive identity.
pub trait Zero: Sized {
    /// The zero of the type.
    spec fn zero_spec() -> Self;

    fn zero() -> (r: Self)
        ensures
            r == Self::zero_spec(),
    ;
}

/// A type with a multiplicative identity.
pub trait One: Sized {
    /// The one of the type.
    spec fn one_spec() -> Self;

    fn one() -> (r: Self)
        ensures
            r == Self::one_spec(),
    ;
}

/// A number with a negation, paired with the unsigned type that holds its
/// non-negative values.
pub trait Signed<Output = Self>: Neg<Output = Output> + Number {
    type Unsigned;

    /// Whether the value is one of the unsigned type's.
    spec fn unsigned_req(self) -> bool;

    /// The same value in the unsigned type.
    spec fn unsigned_spec(self) -> Self::Unsigned;

    /// Carries a non-negative value over to the unsigned type, unchanged.
    fn into_unsigned(self) -> (r: Self::Unsigned)
        requires
            self.unsigned_req(),
        ensures
            r == self.unsigned_spec(),
    ;
}

/// A number without a sign, paired with its signed counterpart.
pub trait Unsigned: Number {
    type Signed;
}

/// A whole number.
pub trait Integer: Number {
}

/// A number with a fractional part.
pub trait Float: Number {
}

/// An angle-like number with a sine and a cosine, both as fixed-point
/// integers for which `UNIT` stands for `1.0`.
pub trait Trigonometry<Rhs = Self, Output = Self>: Neg + Number {
    /// The sine, in units of `2^-29`.
    spec fn sin_spec(self) -> int;

    /// The cosine, in units of `2^-29`.
    spec fn cos_spec(self) -> int;

    fn sin(self) -> (r: i32)
        ensures
            r == self.sin_spec(),
            -UNIT <= r <= UNIT,
    ;

    fn cos(self) -> (r: i32)
        ensures
            r == self.cos_spec(),
            -UNIT <= r <= UNIT,
    ;
}

/// A number with a square root of its own type.
pub trait Sqrt: Sized {
    /// What `sqrt` returns.
    spec fn sqrt_spec(self) -> Self;

    fn sqrt(self) -> (r: Self)
        ensures
            r == self.sqrt_spec(),
    ;
}

/// Whether `r` is the integer square root of `x`: the largest integer whose
/// square does not exceed `x`.
pub open spec fn is_isqrt(x: int, r: int) -> bool {
    0 <= r && r * r <= x < (r + 1) * (r + 1)
}

/// The integer square root of `x`.
pub open spec fn isqrt(x: nat) -> nat {
    choose|r: nat| is_isqrt(x as int, r as int)
}

/// A number has at most one integer square root.
pub proof fn lemma_isqrt_unique(x: int, r1: int, r2: int)
    by (nonlinear_arith)
    requires
        is_isqrt(x, r1),
        is_isqrt(x, r2),
    ensures
        r1 == r2,
{
    if r1 < r2 {
        assert((r1 + 1) * (r1 + 1) <= r2 * r2);
    } else if r2 < r1 {
        assert((r2 + 1) * (r2 + 1) <= r1 * r1);
    }
}

/// Every natural number has an integer square root, and `isqrt` is it.
pub proof fn lemma_isqrt_is_root(x: nat)
    ensures
        is_isqrt(x as int, isqrt(x) as int),
    decreases x,
{
    if x == 0 {
        assert(is_isqrt(0, 0));
    } else {
        lemma_isqrt_is_root((x - 1) as nat);
        let r = isqrt((x - 1) as nat);
        if (r + 1) * (r + 1) <= x {
            assert(is_isqrt(x as int, (r + 1) as int)) by (nonlinear_arith)
                requires
                    0 <= r,
                    r * r <= x - 1 < (r + 1) * (r + 1),
                    (r + 1) * (r + 1) <= x,
            ;
        } else {
            assert(is_isqrt(x as int, r as int));
        }
    }
}

/// Whatever satisfies `is_isqrt` is the integer square root.
pub proof fn lemma_isqrt_is(x: nat, r: nat)
    requires
        is_isqrt(x as int, r as int),
    ensures
        isqrt(x) == r,
{
    lemma_isqrt_unique(x as int, r as int, isqrt(x) as int);
}

/// The integer square root of a number is no larger than the number, so it
/// fits wherever the number does.
pub proof fn lemma_isqrt_fits(x: nat, max: nat)
    requires
        x <= max,
    ensures
        isqrt(x) <= max,
{
    lemma_isqrt_is_root(x);
    let r = isqrt(x);
    assert(r <= r * r) by (nonlinear_arith)
        requires
            0 <= r,
    ;
}

/// One step of the digit recurrence. With `n * n + v == x` and the root known
/// to lie below `n + 2 * b`, comparing `v` against `(2 * n + b) * b` decides
/// whether the bit `b` belongs to the root.
proof fn lemma_digit_step(x: int, n: int, v: int, b: int)
    by (nonlinear_arith)
    requires
        0 <= n,
        0 < b,
        0 <= v,
        n * n + v == x,
        x < (n + 2 * b) * (n + 2 * b),
    ensures
        v >= (2 * n + b) * b ==> (n + b) * (n + b) + (v - (2 * n + b) * b) == x,
        v >= (2 * n + b) * b ==> x < (n + b + b) * (n + b + b),
        v < (2 * n + b) * b ==> x < (n + b) * (n + b),
{
}

/// In 8 bits, shifting by `k` multiplies by the bit `1 << k`, as long
/// as the partial root and twice the bit stay within `2^4`.
proof fn lemma_shifts8(n: u8, k: u8)
    by (bit_vector)
    requires
        k < 4,
        n + 2 * (1u8 << k) <= 16,
    ensures
        0 < (1u8 << k) <= 8,
        (n << 1u8) == 2 * n,
        ((((n << 1u8) + (1u8 << k)) as u8) << k) == (2 * n + (1u8 << k)) * (1u8 << k),
{
}

/// Each bit is twice the bit below it.
proof fn lemma_bit_halves8(k: u8)
    by (bit_vector)
    requires
        k < 4,
    ensures
        k > 0 ==> (1u8 << k) == 2 * (1u8 << ((k - 1) as u8)),
        k == 0 ==> (1u8 << k) == 1,
{
}

/// Integer square root of a `u8`, found bit by bit from the top: each
/// round tries the next lower bit of the root and keeps it if the square
/// still fits under `x`.
pub fn isqrt8(x: u8) -> (r: u8)
    ensures
        r * r <= x < (r + 1) * (r + 1),
        r == isqrt(x as nat),
{
    let mut v: u8 = x;
    let mut b_shft: u8 = 4;  // half the bit width
    let mut n_hat: u8 = 0;
    let ghost mut above: int = 16;  // twice the next bit to try

    assert(1u8 << 3u8 == 8) by (bit_vector);

    while b_shft != 0
        invariant
            b_shft <= 4,
            b_shft > 0 ==> above == 2 * (1u8 << ((b_shft - 1) as u8)),
            b_shft == 0 ==> above == 1,
            n_hat + above <= 16,
            n_hat * n_hat + v == x,
            x < (n_hat + above) * (n_hat + above),
        decreases b_shft,
    {
        b_shft -= 1;
        let b: u8 = 1u8 << b_shft;
        proof {
            lemma_shifts8(n_hat, b_shft);
            lemma_bit_halves8(b_shft);
            lemma_digit_step(x as int, n_hat as int, v as int, b as int);
        }
        let temp: u8 = ((n_hat << 1u8) + b) << b_shft;
        if v >= temp {
            n_hat += b;
            v -= temp;
        }
        proof {
            above = b as int;
        }
    }

    proof {
        lemma_isqrt_is(x as nat, n_hat as nat);
    }
    n_hat
}

/// In 16 bits, shifting by `k` multiplies by the bit `1 << k`, as long
/// as the partial root and twice the bit stay within `2^8`.
proof fn lemma_shifts16(n: u16, k: u16)
    by (bit_vector)
    requires
        k < 8,
        n + 2 * (1u16 << k) <= 256,
    ensures
        0 < (1u16 << k) <= 128,
        (n << 1u16) == 2 * n,
        ((((n << 1u16) + (1u16 << k)) as u16) << k) == (2 * n + (1u16 << k)) * (1u16 << k),
{
}

/// Each bit is twice the bit below it.
proof fn lemma_bit_halves16(k: u16)
    by (bit_vector)
    requires
        k < 8,
    ensures
        k > 0 ==> (1u16 << k) == 2 * (1u16 << ((k - 1) as u16)),
        k == 0 ==> (1u16 << k) == 1,
{
}

/// Integer square root of a `u16`, found bit by bit from the top: each
/// round tries the next lower bit of the root and keeps it if the square
/// still fits under `x`.
pub fn isqrt16(x: u16) -> (r: u16)
    ensures
        r * r <= x < (r + 1) * (r + 1),
        r == isqrt(x as nat),
{
    let mut v: u16 = x;
    let mut b_shft: u16 = 8;  // half the bit width
    let mut n_hat: u16 = 0;
    let ghost mut above: int = 256;  // twice the next bit to try

    assert(1u16 << 7u16 == 128) by (bit_vector);

    while b_shft != 0
        invariant
            b_shft <= 8,
            b_shft > 0 ==> above == 2 * (1u16 << ((b_shft - 1) as u16)),
            b_shft == 0 ==> above == 1,
            n_hat + above <= 256,
            n_hat * n_hat + v == x,
            x < (n_hat + above) * (n_hat + above),
        decreases b_shft,
    {
        b_shft -= 1;
        let b: u16 = 1u16 << b_shft;
        proof {
            lemma_shifts16(n_hat, b_shft);
            lemma_bit_halves16(b_shft);
            lemma_digit_step(x as int, n_hat as int, v as int, b as int);
        }
        let temp: u16 = ((n_hat << 1u16) + b) << b_shft;
        if v >= temp {
            n_hat += b;
            v -= temp;
        }
        proof {
            above = b as int;
        }
    }

    proof {
        lemma_isqrt_is(x as nat, n_hat as nat);
    }
    n_hat
}

/// In 32 bits, shifting by `k` multiplies by the bit `1 << k`, as long
/// as the partial root and twice the bit stay within `2^16`.
proof fn lemma_shifts32(n: u32, k: u32)
    by (bit_vector)
    requires
        k < 16,
        n + 2 * (1u32 << k) <= 65536,
    ensures
        0 < (1u32 << k) <= 32768,
        (n << 1u32) == 2 * n,
        ((((n << 1u32) + (1u32 << k)) as u32) << k) == (2 * n + (1u32 << k)) * (1u32 << k),
{
}

/// Each bit is twice the bit below it.
proof fn lemma_bit_halves32(k: u32)
    by (bit_vector)
    requires
        k < 16,
    ensures
        k > 0 ==> (1u32 << k) == 2 * (1u32 << ((k - 1) as u32)),
        k == 0 ==> (1u32 << k) == 1,
{
}

/// Integer square root of a `u32`, found bit by bit from the top: each
/// round tries the next lower bit of the root and keeps it if the square
/// still fits under `x`.
pub fn isqrt32(x: u32) -> (r: u32)
    ensures
        r * r <= x < (r + 1) * (r + 1),
        r == isqrt(x as nat),
{
    let mut v: u32 = x;
    let mut b_shft: u32 = 16;  // half the bit width
    let mut n_hat: u32 = 0;
    let ghost mut above: int = 65536;  // twice the next bit to try

    assert(1u32 << 15u32 == 32768) by (bit_vector);

    while b_shft != 0
        invariant
            b_shft <= 16,
            b_shft > 0 ==> above == 2 * (1u32 << ((b_shft - 1) as u32)),
            b_shft == 0 ==> above == 1,
            n_hat + above <= 65536,
            n_hat * n_hat + v == x,
            x < (n_hat + above) * (n_hat + above),
        decreases b_shft,
    {
        b_shft -= 1;
        let b: u32 = 1u32 << b_shft;
        proof {
            lemma_shifts32(n_hat, b_shft);
            lemma_bit_halves32(b_shft);
            lemma_digit_step(x as int, n_hat as int, v as int, b as int);
        }
        let temp: u32 = ((n_hat << 1u32) + b) << b_shft;
        if v >= temp {
            n_hat += b;
            v -= temp;
        }
        proof {
            above = b as int;
        }
    }

    proof {
        lemma_isqrt_is(x as nat, n_hat as nat);
    }
    n_hat
}

impl<T, Rhs, Output> Number<Rhs, Output> for T where
    T: Copy
        + Sized
        + PartialEq
        + PartialOrd
        + Add<Rhs, Output = Output>
        + Sub<Rhs, Output = Output>
        + Mul<Rhs, Output = Output>
        + Div<Rhs, Output = Output>
        + Zero
        + One,
{
}

impl Signed for i8 {
    type Unsigned = u8;

    open spec fn unsigned_req(self) -> bool {
        self >= 0
    }

    open spec fn unsigned_spec(self) -> u8 {
        self as u8
    }

    fn into_unsigned(self) -> (r: u8) {
        self as u8
    }
}

impl Signed for i16 {
    type Unsigned = u16;

    open spec fn unsigned_req(self) -> bool {
        self >= 0
    }

    open spec fn unsigned_spec(self) -> u16 {
        self as u16
    }

    fn into_unsigned(self) -> (r: u16) {
        self as u16
    }
}

impl Signed for i32 {
    type Unsigned = u32;

    open spec fn unsigned_req(self) -> bool {
        self >= 0
    }

    open spec fn unsigned_spec(self) -> u32 {
        self as u32
    }

    fn into_unsigned(self) -> (r: u32) {
        self as u32
    }
}

impl Unsigned for u8 {
    type Signed = i8;
}

impl Unsigned for u16 {
    type Signed = i16;
}

impl Unsigned for u32 {
    type Signed = i32;
}

impl Integer for u8 {
}

impl Integer for u16 {
}

impl Integer for u32 {
}

impl Integer for i8 {
}

impl Integer for i16 {
}

impl Integer for i32 {
}

impl Zero for u8 {
    open spec fn zero_spec() -> u8 {
        0u8
    }

    fn zero() -> (r: u8) {
        0u8
    }
}

impl Zero for u16 {
    open spec fn zero_spec() -> u16 {
        0u16
    }

    fn zero() -> (r: u16) {
        0u16
    }
}

impl Zero for u32 {
    open spec fn zero_spec() -> u32 {
        0u32
    }

    fn zero() -> (r: u32) {
        0u32
    }
}

impl Zero for i8 {
    open spec fn zero_spec() -> i8 {
        0i8
    }

    fn zero() -> (r: i8) {
        0i8
    }
}

impl Zero for i16 {
    open spec fn zero_spec() -> i16 {
        0i16
    }

    fn zero() -> (r: i16) {
        0i16
    }
}

impl Zero for i32 {
    open spec fn zero_spec() -> i32 {
        0i32
    }

    fn zero() -> (r: i32) {
        0i32
    }
}

impl Zero for Angle {
    open spec fn zero_spec() -> Angle {
        Angle(0u8)
    }

    fn zero() -> (r: Angle) {
        Angle(0u8)
    }
}

impl One for u8 {
    open spec fn one_spec() -> u8 {
        1u8
    }

    fn one() -> (r: u8) {
        1u8
    }
}

impl One for u16 {
    open spec fn one_spec() -> u16 {
        1u16
    }

    fn one() -> (r: u16) {
        1u16
    }
}

impl One for u32 {
    open spec fn one_spec() -> u32 {
        1u32
    }

    fn one() -> (r: u32) {
        1u32
    }
}

impl One for i8 {
    open spec fn one_spec() -> i8 {
        1i8
    }

    fn one() -> (r: i8) {
        1i8
    }
}

impl One for i16 {
    open spec fn one_spec() -> i16 {
        1i16
    }

    fn one() -> (r: i16) {
        1i16
    }
}

impl One for i32 {
    open spec fn one_spec() -> i32 {
        1i32
    }

    fn one() -> (r: i32) {
        1i32
    }
}

/// The one of the angles is the half turn.
impl One for Angle {
    open spec fn one_spec() -> Angle {
        Angle(128u8)
    }

    fn one() -> (r: Angle) {
        Angle(128u8)
    }
}

impl Sqrt for u8 {
    open spec fn sqrt_spec(self) -> u8 {
        isqrt(self as nat) as u8
    }

    fn sqrt(self) -> (r: u8) {
        isqrt8(self)
    }
}

impl Sqrt for u16 {
    open spec fn sqrt_spec(self) -> u16 {
        isqrt(self as nat) as u16
    }

    fn sqrt(self) -> (r: u16) {
        isqrt16(self)
    }
}

impl Sqrt for u32 {
    open spec fn sqrt_spec(self) -> u32 {
        isqrt(self as nat) as u32
    }

    fn sqrt(self) -> (r: u32) {
        isqrt32(self)
    }
}

impl Trigonometry for Angle {
    open spec fn sin_spec(self) -> int {
        Angle::sin_spec(self)
    }

    open spec fn cos_spec(self) -> int {
        Angle::cos_spec(self)
    }

    fn sin(self) -> (r: i32) {
        self.sinf()
    }

    fn cos(self) -> (r: i32) {
        self.cosf()
    }
}

} // verus!
