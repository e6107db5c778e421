//! Color management for HUB75 displays.
//!
//! A [`Hub75Color`] is an RGB triple with a configurable bit depth per
//! channel (`bits`, between 1 and 8). Every channel value is kept at or
//! below `2^bits - 1`; constructors saturate on overflow. The bit depth
//! is a construction-time parameter so that one panel driver can serve
//! 4-, 6- and 8-bit panels alike.

use embedded_graphics_core::pixelcolor::{Rgb565, RgbColor};
use vstd::arithmetic::div_mod::lemma_multiply_divide_lt;
use vstd::arithmetic::power2::{lemma2_to64, lemma_pow2_adds, lemma_pow2_pos, pow2};
use vstd::bits::lemma_u8_shr_is_div;
use vstd::prelude::*;

verus! {

/// Largest value a channel may hold at the given bit depth: `2^bits - 1`.
pub open spec fn channel_max(bits: nat) -> int {
    pow2(bits) - 1
}

/// Bit `p` of the channel value `v`, as a boolean.
pub open spec fn spec_channel_bit(v: u8, p: usize) -> bool {
    (v >> p) & 1 != 0
}

/// RGB color with a runtime-chosen bit depth per channel.
///
/// Channels `r`, `g`, `b` each lie in `[0, 2^bits - 1]`; `bits` lies in
/// `[1, 8]`. Values are never mutated after construction.
#[derive(Debug, Clone, Copy, PartialEq, Eq, Structural)]
pub struct Hub75Color {
    /// Bit depth of each channel (1 to 8)
    pub bits: usize,
    /// Red channel (0 to `2^bits - 1`)
    pub r: u8,
    /// Green channel (0 to `2^bits - 1`)
    pub g: u8,
    /// Blue channel (0 to `2^bits - 1`)
    pub b: u8,
}

impl Hub75Color {
    /// All channel values are within the range the bit depth allows.
    pub open spec fn wf(&self) -> bool {
        &&& 1 <= self.bits <= 8
        &&& self.r as int <= channel_max(self.bits as nat)
        &&& self.g as int <= channel_max(self.bits as nat)
        &&& self.b as int <= channel_max(self.bits as nat)
    }

    /// What construction returns: each channel saturated to the depth's maximum.
    pub open spec fn spec_new(bits: usize, r: u8, g: u8, b: u8) -> Hub75Color {
        Hub75Color {
            bits,
            r: if r as int > channel_max(bits as nat) { channel_max(bits as nat) as u8 } else { r },
            g: if g as int > channel_max(bits as nat) { channel_max(bits as nat) as u8 } else { g },
            b: if b as int > channel_max(bits as nat) { channel_max(bits as nat) as u8 } else { b },
        }
    }

    /// The triple of channel bits extracted at plane `p`; all false when
    /// `p` is not a valid plane for the color's depth.
    pub open spec fn spec_get_bit(&self, p: usize) -> (bool, bool, bool) {
        if p >= self.bits {
            (false, false, false)
        } else {
            (spec_channel_bit(self.r, p), spec_channel_bit(self.g, p), spec_channel_bit(self.b, p))
        }
    }

    /// Largest channel value for this bit depth.
    pub fn max_value(bits: usize) -> (m: u8)
        requires
            1 <= bits <= 8,
        ensures
            m as int == channel_max(bits as nat),
    {
        proof {
            lemma2_to64();
        }
        match bits {
            1 => 1,
            2 => 3,
            3 => 7,
            4 => 15,
            5 => 31,
            6 => 63,
            7 => 127,
            _ => 255,
        }
    }

    /// Create a new color with the specified RGB values.
    /// Values are saturated to the largest value the bit depth allows.
    pub fn new(bits: usize, r: u8, g: u8, b: u8) -> (c: Self)
        requires
            1 <= bits <= 8,
        ensures
            c == Self::spec_new(bits, r, g, b),
            c.wf(),
            c.bits == bits,
    {
        let max = Self::max_value(bits);
        Self {
            bits,
            r: if r > max { max } else { r },
            g: if g > max { max } else { g },
            b: if b > max { max } else { b },
        }
    }

    /// Create a black color (all channels zero).
    pub fn black(bits: usize) -> (c: Self)
        requires
            1 <= bits <= 8,
        ensures
            c == (Hub75Color { bits, r: 0, g: 0, b: 0 }),
            c.wf(),
    {
        proof {
            vstd::arithmetic::power2::lemma_pow2_pos(bits as nat);
        }
        Self { bits, r: 0, g: 0, b: 0 }
    }

    /// Create a white color (all channels at maximum).
    pub fn white(bits: usize) -> (c: Self)
        requires
            1 <= bits <= 8,
        ensures
            c.bits == bits,
            c.r as int == channel_max(bits as nat),
            c.g as int == channel_max(bits as nat),
            c.b as int == channel_max(bits as nat),
            c.wf(),
    {
        let max = Self::max_value(bits);
        Self { bits, r: max, g: max, b: max }
    }

    /// Create a red color (red channel at maximum).
    pub fn red(bits: usize) -> (c: Self)
        requires
            1 <= bits <= 8,
        ensures
            c.bits == bits,
            c.r as int == channel_max(bits as nat),
            c.g == 0,
            c.b == 0,
            c.wf(),
    {
        let max = Self::max_value(bits);
        Self { bits, r: max, g: 0, b: 0 }
    }

    /// Create a green color (green channel at maximum).
    pub fn green(bits: usize) -> (c: Self)
        requires
            1 <= bits <= 8,
        ensures
            c.bits == bits,
            c.r == 0,
            c.g as int == channel_max(bits as nat),
            c.b == 0,
            c.wf(),
    {
        let max = Self::max_value(bits);
        Self { bits, r: 0, g: max, b: 0 }
    }

    /// Create a blue color (blue channel at maximum).
    pub fn blue(bits: usize) -> (c: Self)
        requires
            1 <= bits <= 8,
        ensures
            c.bits == bits,
            c.r == 0,
            c.g == 0,
            c.b as int == channel_max(bits as nat),
            c.wf(),
    {
        let max = Self::max_value(bits);
        Self { bits, r: 0, g: 0, b: max }
    }

    /// Get the channel bit values for a specific bit plane.
    ///
    /// Planes at or beyond the bit depth return `(false, false, false)`.
    pub fn get_bit(&self, bit_plane: usize) -> (t: (bool, bool, bool))
        requires
            self.wf(),
        ensures
            t == self.spec_get_bit(bit_plane),
    {
        if bit_plane >= self.bits {
            return (false, false, false);
        }
        ((self.r >> bit_plane) & 1 != 0, (self.g >> bit_plane) & 1 != 0, (self.b >> bit_plane) & 1
            != 0)
    }

    /// What the 8-bit import returns: a pass-through at depth 8, otherwise
    /// each channel shifted right by the depth difference.
    pub open spec fn spec_from_rgb8(bits: usize, r: u8, g: u8, b: u8) -> Hub75Color {
        if bits >= 8 {
            Hub75Color { bits, r, g, b }
        } else {
            let s = (8 - bits) as u8;
            Hub75Color { bits, r: r >> s, g: g >> s, b: b >> s }
        }
    }

    /// What the 8-bit export returns: a pass-through at depth 8, otherwise
    /// each channel shifted left by the depth difference.
    pub open spec fn spec_to_rgb8(c: Hub75Color) -> (u8, u8, u8) {
        if c.bits >= 8 {
            (c.r, c.g, c.b)
        } else {
            let s = (8 - c.bits) as u8;
            (c.r << s, c.g << s, c.b << s)
        }
    }

    /// Convert from 8-bit RGB values, scaling to the target bit depth.
    pub fn from_rgb8(bits: usize, r: u8, g: u8, b: u8) -> (c: Self)
        requires
            1 <= bits <= 8,
        ensures
            c == Self::spec_from_rgb8(bits, r, g, b),
            c.wf(),
            c.bits == bits,
    {
        if bits >= 8 {
            proof {
                lemma2_to64();
            }
            Self::new(bits, r, g, b)
        } else {
            let shift = (8 - bits) as u8;
            proof {
                lemma_shr_keeps_depth(r, bits);
                lemma_shr_keeps_depth(g, bits);
                lemma_shr_keeps_depth(b, bits);
            }
            Self::new(bits, r >> shift, g >> shift, b >> shift)
        }
    }

    /// Convert to 8-bit RGB values, scaling from the current bit depth.
    pub fn to_rgb8(&self) -> (t: (u8, u8, u8))
        requires
            self.wf(),
        ensures
            t == Self::spec_to_rgb8(*self),
    {
        if self.bits >= 8 {
            (self.r, self.g, self.b)
        } else {
            let shift = (8 - self.bits) as u8;
            (self.r << shift, self.g << shift, self.b << shift)
        }
    }

    /// What widening 5/6/5-bit channels to 8 bits returns: each channel
    /// scaled by 255 over its own maximum, with integer division.
    pub open spec fn spec_expand_565(r5: u8, g6: u8, b5: u8) -> (u8, u8, u8) {
        (((r5 as u16 * 255) / 31) as u8, ((g6 as u16 * 255) / 63) as u8, ((b5 as u16 * 255) / 31) as u8)
    }

    /// Widen 5/6/5-bit channel values to canonical 8-bit RGB, then
    /// quantize to the given bit depth.
    pub fn from_rgb565_components(r5: u8, g6: u8, b5: u8, bits: usize) -> (c: Self)
        requires
            1 <= bits <= 8,
            r5 <= 31,
            g6 <= 63,
            b5 <= 31,
        ensures
            ({
                let (r8, g8, b8) = Self::spec_expand_565(r5, g6, b5);
                c == Self::spec_from_rgb8(bits, r8, g8, b8)
            }),
            c.wf(),
            c.bits == bits,
    {
        let r8 = ((r5 as u16 * 255) / 31) as u8;
        let g8 = ((g6 as u16 * 255) / 63) as u8;
        let b8 = ((b5 as u16 * 255) / 31) as u8;
        Self::from_rgb8(bits, r8, g8, b8)
    }
}

/// A right shift by `8 - bits` lands inside the range of a `bits`-deep channel.
proof fn lemma_shr_keeps_depth(v: u8, bits: usize)
    requires
        1 <= bits < 8,
    ensures
        (v >> ((8 - bits) as u8)) as int <= channel_max(bits as nat),
{
    let s = (8 - bits) as u8;
    lemma_u8_shr_is_div(v, s);
    lemma_pow2_adds(bits as nat, s as nat);
    lemma2_to64();
    lemma_pow2_pos(s as nat);
    vstd::arithmetic::mul::lemma_mul_is_commutative(pow2(bits as nat) as int, pow2(s as nat) as int);
    lemma_multiply_divide_lt(v as int, pow2(s as nat) as int, pow2(bits as nat) as int);
}

/// Scaling law of the 8-bit conversions: below depth 8, a gray 8-bit value
/// sent through `from_rgb8` and back through `to_rgb8` keeps exactly its
/// top `bits` bits, i.e. comes back as `x & (0xFF << (8 - bits))`.
pub proof fn lemma_rgb8_scaling(bits: usize, x: u8)
    requires
        1 <= bits < 8,
    ensures
        ({
            let mask = 0xffu8 << ((8 - bits) as u8);
            Hub75Color::spec_to_rgb8(Hub75Color::spec_from_rgb8(bits, x, x, x)) == ((x & mask), (
            x & mask), (x & mask))
        }),
{
    let s = (8 - bits) as u8;
    assert(((x >> s) << s) == (x & (0xffu8 << s))) by (bit_vector)
        requires
            s < 8,
    ;
}

/// Declares embedded_graphics_core's 16-bit RGB color so that it can
/// stand in signatures; values of it are opaque here.
#[verifier::external_type_specification]
#[verifier::external_body]
pub struct ExRgb565(Rgb565);

/// Relies on embedded_graphics_core's `Rgb565::r`, `::g` and `::b`: each
/// returns its channel masked to the channel's width (5, 6 and 5 bits).
#[verifier::external_body]
fn rgb565_components(color: &Rgb565) -> (t: (u8, u8, u8))
    ensures
        t.0 <= 31,
        t.1 <= 63,
        t.2 <= 31,
{
    (color.r(), color.g(), color.b())
}

/// Relies on embedded_graphics_core's `Rgb565::new` to pack channel
/// values into a 16-bit color; high bits beyond each channel's width are
/// masked off by that constructor.
#[verifier::external_body]
fn rgb565_from_components(r: u8, g: u8, b: u8) -> Rgb565 {
    Rgb565::new(r, g, b)
}

/// Conversion between the panel color model and a foreign color format.
pub trait ColorConvert<T>: Sized {
    /// Whether the value is fit to be exported.
    spec fn convert_wf(&self) -> bool;

    /// Convert from another color format, quantizing to the given bit depth.
    fn from_color(color: T, bits: usize) -> (c: Self)
        requires
            1 <= bits <= 8,
        ensures
            c.convert_wf(),
    ;

    /// Convert to another color format.
    fn to_color(self) -> T
        requires
            self.convert_wf(),
    ;
}

impl ColorConvert<Rgb565> for Hub75Color {
    open spec fn convert_wf(&self) -> bool {
        self.wf()
    }

    fn from_color(color: Rgb565, bits: usize) -> (c: Self) {
        let (r5, g6, b5) = rgb565_components(&color);
        Self::from_rgb565_components(r5, g6, b5, bits)
    }

    fn to_color(self) -> Rgb565 {
        let (r, g, b) = self.to_rgb8();
        rgb565_from_components(r >> 3, g >> 2, b >> 3)
    }
}

} // verus!
