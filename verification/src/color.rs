//! Colors as they are written: three bytes a pixel.
//!
//! A channel of a color is turned into a byte in three steps: it is
//! gamma-encoded, by the square root, which the caller takes; the result is
//! moved into the range from zero to `0.999`; and that is scaled by 256 and
//! cut to its integer part.

use vstd::prelude::*;
use vstd::arithmetic::power2::pow2;
use vstd::arithmetic::power2::lemma2_to64;
use vstd::arithmetic::power2::lemma2_to64_rest;
use vstd::arithmetic::power2::lemma_pow2_strictly_increases;
use vstd::arithmetic::div_mod::lemma_basic_div;
use vstd::string::StringExecFns;
use crate::interval::Interval;
use crate::scalar::Scalar;
use crate::scalar::FRACTION_SPAN;
use crate::text::decimal;
use crate::text::push_decimal;
use crate::vec3::Color;

verus! {

/// The bits of `0.999`, the brightest a channel is written.
pub const BRIGHTEST_BITS: u64 = 0x3FEF_F7CE_D916_872B;

/// A pixel as it is written.
#[derive(Clone, Copy, Debug, PartialEq, Eq, Structural)]
pub struct Rgb {
    pub r: u8,
    pub g: u8,
    pub b: u8,
}

/// The range of the channels that are written: from zero to `0.999`.
pub open spec fn intensity() -> Interval {
    Interval { min: Scalar::zero(), max: Scalar { bits: BRIGHTEST_BITS } }
}

/// Whether a channel is gamma-encoded by its square root: it is above
/// zero. Any other channel is encoded as zero.
pub open spec fn spec_is_lit(linear: Scalar) -> bool {
    linear.gt(Scalar::zero())
}

/// The byte of a gamma-encoded channel: the integer part of 256 times the
/// channel moved into the range of `intensity`; zero for a NaN.
pub open spec fn spec_quantize(encoded: Scalar) -> int {
    let c = intensity().clamp(encoded);
    if c.is_nan() {
        0
    } else {
        c.scaled_floor(8)
    }
}

/// The line of a pixel: its three bytes in base ten, with a space between
/// them and a line feed after them.
pub open spec fn pixel_line(pixel: Rgb) -> Seq<char> {
    decimal(pixel.r as nat) + seq![' '] + decimal(pixel.g as nat) + seq![' '] + decimal(pixel.b as nat)
        + seq!['\n']
}

/// Whether a channel is gamma-encoded by its square root.
#[verifier::when_used_as_spec(spec_is_lit)]
pub fn is_lit(linear: Scalar) -> (r: bool)
    ensures
        r == spec_is_lit(linear),
{
    linear.gt(Scalar::zero())
}

/// A byte is never above 255: the brightest channel, `0.999`, scales to
/// `255.744`.
pub proof fn lemma_quantize_is_byte(encoded: Scalar)
    ensures
        0 <= spec_quantize(encoded) <= 255,
        spec_quantize(Scalar::zero()) == 0,
        spec_quantize(Scalar::one()) == 255,
        spec_quantize(Scalar { bits: 0x3FE0_0000_0000_0000 }) == 128,
{
    lemma_quantize_cases(encoded);
    lemma_quantize_cases(Scalar::zero());
    lemma_quantize_cases(Scalar::one());
    lemma_quantize_cases(Scalar { bits: 0x3FE0_0000_0000_0000 });
}

/// A brighter channel is never written as a lower byte.
pub proof fn lemma_quantize_is_monotone(darker: Scalar, brighter: Scalar)
    requires
        darker.le(brighter),
    ensures
        spec_quantize(darker) <= spec_quantize(brighter),
{
    lemma_quantize_cases(darker);
    lemma_quantize_cases(brighter);
    let a = intensity().clamp(darker);
    let b = intensity().clamp(brighter);
    assert(a.le(b));
    assert(0 <= a.magnitude() <= b.magnitude());
    let span = FRACTION_SPAN as int;
    assert(a.magnitude() == a.exponent_field() * span + a.fraction_field());
    assert(b.magnitude() == b.exponent_field() * span + b.fraction_field());
    assert(a.exponent_field() <= b.exponent_field());
}

/// The byte of a channel by the exponent field of the clamped channel:
/// zero below `2^-8`, and the significand shifted down above.
proof fn lemma_quantize_cases(encoded: Scalar)
    ensures
        ({
            let c = intensity().clamp(encoded);
            let e = c.exponent_field();
            let sig = (FRACTION_SPAN + c.fraction_field()) as int;
            &&& !c.is_nan() ==> 0 <= e <= 1022
            &&& !c.is_nan() && e < 1015 ==> spec_quantize(encoded) == 0
            &&& !c.is_nan() && e == 1015 ==> spec_quantize(encoded) == sig / 0x10_0000_0000_0000
            &&& !c.is_nan() && e == 1016 ==> spec_quantize(encoded) == sig / 0x8_0000_0000_0000
            &&& !c.is_nan() && e == 1017 ==> spec_quantize(encoded) == sig / 0x4_0000_0000_0000
            &&& !c.is_nan() && e == 1018 ==> spec_quantize(encoded) == sig / 0x2_0000_0000_0000
            &&& !c.is_nan() && e == 1019 ==> spec_quantize(encoded) == sig / 0x1_0000_0000_0000
            &&& !c.is_nan() && e == 1020 ==> spec_quantize(encoded) == sig / 0x8000_0000_0000
            &&& !c.is_nan() && e == 1021 ==> spec_quantize(encoded) == sig / 0x4000_0000_0000
            &&& !c.is_nan() && e == 1022 ==> spec_quantize(encoded) == sig / 0x2000_0000_0000
            &&& c.is_nan() ==> spec_quantize(encoded) == 0
        }),
{
    let c = intensity().clamp(encoded);
    if !c.is_nan() {
        let e = c.exponent_field();
        let m = c.fraction_field();
        assert(c.le(Scalar { bits: BRIGHTEST_BITS }));
        assert(c.ge(Scalar::zero()));
        assert(0 <= c.magnitude() <= BRIGHTEST_BITS);
        assert(0 <= e <= 1022);
        assert(0 <= m < FRACTION_SPAN);
        lemma2_to64();
        lemma2_to64_rest();
        if e == 0 {
            assert(c.scaled_floor(8) == m / (pow2(1066) as int));
            lemma_pow2_strictly_increases(52, 1066);
            lemma_basic_div(m, pow2(1066) as int);
        } else if e < 1015 {
            let shift = (1067 - e) as nat;
            assert(c.scaled_floor(8) == (FRACTION_SPAN + m) / (pow2(shift) as int));
            if shift > 53 {
                lemma_pow2_strictly_increases(53, shift);
            }
            lemma_basic_div(FRACTION_SPAN + m, pow2(shift) as int);
        } else {
            let shift = (1067 - e) as nat;
            assert(c.scaled_floor(8) == (FRACTION_SPAN + m) / (pow2(shift) as int));
        }
    }
}

/// The byte of a gamma-encoded channel.
pub fn quantize(encoded: Scalar) -> (byte: u8)
    ensures
        byte == spec_quantize(encoded),
{
    let range = Interval::new(Scalar::zero(), Scalar::from_bits(BRIGHTEST_BITS));
    let c = range.clamp(encoded);
    proof {
        lemma_quantize_cases(encoded);
        lemma_quantize_is_byte(encoded);
    }
    if c.is_nan() {
        return 0;
    }
    let magnitude: u64 = c.magnitude_bits();
    let e: u64 = magnitude / FRACTION_SPAN;
    let sig: u64 = FRACTION_SPAN + magnitude % FRACTION_SPAN;
    let scaled: u64 = if e < 1015 {
        0
    } else if e == 1015 {
        sig / 0x10_0000_0000_0000
    } else if e == 1016 {
        sig / 0x8_0000_0000_0000
    } else if e == 1017 {
        sig / 0x4_0000_0000_0000
    } else if e == 1018 {
        sig / 0x2_0000_0000_0000
    } else if e == 1019 {
        sig / 0x1_0000_0000_0000
    } else if e == 1020 {
        sig / 0x8000_0000_0000
    } else if e == 1021 {
        sig / 0x4000_0000_0000
    } else {
        sig / 0x2000_0000_0000
    };
    scaled as u8
}

impl Rgb {
    /// The pixel of a gamma-encoded color.
    pub open spec fn spec_of(encoded: Color) -> Rgb {
        Rgb {
            r: spec_quantize(encoded.x) as u8,
            g: spec_quantize(encoded.y) as u8,
            b: spec_quantize(encoded.z) as u8,
        }
    }

    /// The pixel of a gamma-encoded color.
    #[verifier::when_used_as_spec(spec_of)]
    pub fn of(encoded: Color) -> (pixel: Rgb)
        ensures
            pixel == Rgb::spec_of(encoded),
    {
        Rgb { r: quantize(encoded.x), g: quantize(encoded.y), b: quantize(encoded.z) }
    }

    /// Appends the line of the pixel to `out`.
    pub fn write(&self, out: &mut String)
        ensures
            final(out)@ == old(out)@ + pixel_line(*self),
    {
        proof {
            reveal_strlit(" ");
            reveal_strlit("\n");
        }
        let ghost before = out@;
        push_decimal(out, self.r as u64);
        out.append(" ");
        push_decimal(out, self.g as u64);
        out.append(" ");
        push_decimal(out, self.b as u64);
        out.append("\n");
        assert(" "@ =~= seq![' ']);
        assert("\n"@ =~= seq!['\n']);
        assert(out@ =~= before + pixel_line(*self));
    }
}

} // verus!
