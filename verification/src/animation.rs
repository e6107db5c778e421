//! Animation support for HUB75 displays with frame-based timing.
//!
//! An [`Animation`] walks a data source — pre-rendered frames, a flat
//! RGB byte stream, or text rendered one character per frame — and
//! applies a transition effect. Each call of `next` answers with `Wait`
//! (not yet time for a step), `Apply` (show this frame), or `Done`.
//! Timing is frame-based: a step is emitted every `frames_per_step`
//! calls, derived from the caller's total tick budget.

use crate::color::{channel_max, Hub75Color};
use crate::frame_buffer::{valid_dims, Hub75FrameBuffer};
use crate::{AnimationError, Hub75Error};
use vstd::arithmetic::div_mod::{
    lemma_fundamental_div_mod, lemma_fundamental_div_mod_converse_div,
    lemma_fundamental_div_mod_converse_mod, lemma_multiply_divide_le, lemma_multiply_divide_lt,
};
use vstd::arithmetic::mul::{lemma_mul_inequality, lemma_mul_is_commutative};
use vstd::prelude::*;

verus! {

/// A black pixel of the given depth.
pub open spec fn spec_black(bits: usize) -> Hub75Color {
    Hub75Color { bits, r: 0, g: 0, b: 0 }
}

/// Animation effects that can be applied.
#[derive(Debug, Clone, Copy, PartialEq, Eq, Structural)]
pub enum AnimationEffect {
    /// No effect - frames are displayed as-is
    Direct,
    /// Sliding effect - frames slide in from the right
    Slide,
    /// Fade effect - frames fade in and out
    Fade,
    /// Wipe effect - frames are revealed column by column
    Wipe,
}

/// Current state of an animation.
#[derive(Debug, Clone)]
pub enum AnimationState {
    /// Animation is waiting for the next frame time
    Wait,
    /// Apply the given frame to the display
    Apply(Hub75FrameBuffer),
    /// Animation is complete
    Done,
}

/// The steps an effect takes over `frame_count` frames on a panel
/// `width` columns wide: one per frame for a plain run, one per column
/// for slides and wipes, sixteen per frame for fades.
pub open spec fn spec_total_steps(effect: AnimationEffect, frame_count: int, width: int) -> int {
    match effect {
        AnimationEffect::Direct => frame_count,
        AnimationEffect::Slide => frame_count * width,
        AnimationEffect::Fade => frame_count * 16,
        AnimationEffect::Wipe => frame_count * width,
    }
}

/// The triangular fade envelope: the sub-step itself while below 8,
/// else its mirror `15 - s`.
pub open spec fn spec_fade_factor(s: usize) -> int {
    if s < 8 {
        s as int
    } else {
        15 - s
    }
}

/// A color with each channel scaled by `factor / 15`, integer division.
pub open spec fn spec_fade_color(c: Hub75Color, s: usize) -> Hub75Color {
    let f = spec_fade_factor(s);
    Hub75Color {
        bits: c.bits,
        r: (c.r * f / 15) as u8,
        g: (c.g * f / 15) as u8,
        b: (c.b * f / 15) as u8,
    }
}

/// The pixel the slide effect shows at `(x, y)` for sub-step `s`:
/// column `x + s` of the current frame while that lies inside it, else
/// column `x + s - width` of the next frame, black past its edge or
/// when there is no next frame.
pub open spec fn spec_slide_pixel(
    cur: Hub75FrameBuffer,
    nxt: Option<Hub75FrameBuffer>,
    s: usize,
    x: int,
    y: int,
) -> Hub75Color {
    let w = cur.spec_width();
    if x + s < w {
        cur.spec_pixel(x + s, y)
    } else {
        match nxt {
            Option::Some(n) => {
                if x + s - w < w {
                    n.spec_pixel(x + s - w, y)
                } else {
                    spec_black(cur.spec_color_bits())
                }
            },
            Option::None => spec_black(cur.spec_color_bits()),
        }
    }
}

/// The pixel the wipe effect shows at `(x, y)` for sub-step `s`: the
/// current frame in columns `0..=s`, black beyond.
pub open spec fn spec_wipe_pixel(cur: Hub75FrameBuffer, s: usize, x: int, y: int) -> Hub75Color {
    if x <= s {
        cur.spec_pixel(x, y)
    } else {
        spec_black(cur.spec_color_bits())
    }
}

/// Scaling a channel by `factor / 15` never raises it.
proof fn lemma_fade_channel_le(v: u8, f: int)
    requires
        0 <= f <= 15,
    ensures
        0 <= v * f / 15 <= v,
{
    lemma_mul_inequality(f, 15, v as int);
    lemma_mul_is_commutative(f, v as int);
    lemma_mul_is_commutative(15, v as int);
    lemma_multiply_divide_le(v * f, 15, v as int);
    vstd::arithmetic::div_mod::lemma_div_pos_is_pos(v * f, 15);
    vstd::arithmetic::mul::lemma_mul_nonnegative(v as int, f);
}

/// Trait for animation effects.
pub trait AnimationEffectTrait: Sized {
    /// The inputs the effect is defined on.
    spec fn effect_req(
        &self,
        current_frame: &Hub75FrameBuffer,
        next_frame: Option<&Hub75FrameBuffer>,
        progress: usize,
    ) -> bool;

    /// The pixel the effect's output holds at `(x, y)`.
    spec fn effect_pixel(
        &self,
        current_frame: &Hub75FrameBuffer,
        next_frame: Option<&Hub75FrameBuffer>,
        progress: usize,
        x: int,
        y: int,
    ) -> Hub75Color;

    /// The number of steps the effect takes over `frame_count` frames on
    /// a panel `width` columns wide.
    spec fn spec_steps(&self, frame_count: usize, width: usize) -> int;

    /// Apply the effect to generate the output frame of one step: a
    /// well-formed frame of the input's shape that holds `effect_pixel`
    /// everywhere.
    fn apply_effect(
        &self,
        current_frame: &Hub75FrameBuffer,
        next_frame: Option<&Hub75FrameBuffer>,
        progress: usize,
        total_steps: usize,
    ) -> (r: Result<Hub75FrameBuffer, Hub75Error>)
        requires
            self.effect_req(current_frame, next_frame, progress),
        ensures
            r matches Ok(f) && f.wf() && f.spec_width() == current_frame.spec_width()
                && f.spec_height() == current_frame.spec_height() && f.spec_color_bits()
                == current_frame.spec_color_bits() && forall|x: int, y: int|
                0 <= x < current_frame.spec_width() && 0 <= y < current_frame.spec_height()
                    ==> #[trigger] f.spec_pixel(x, y) == self.effect_pixel(
                    current_frame,
                    next_frame,
                    progress,
                    x,
                    y,
                ),
    ;

    /// The total number of steps for this effect with the given frame
    /// count, on a panel `width` columns wide.
    fn total_steps(&self, frame_count: usize, width: usize) -> (r: usize)
        requires
            frame_count * width <= usize::MAX,
            frame_count * 16 <= usize::MAX,
        ensures
            r as int == self.spec_steps(frame_count, width),
    ;
}

impl AnimationEffectTrait for AnimationEffect {
    open spec fn effect_req(
        &self,
        current_frame: &Hub75FrameBuffer,
        next_frame: Option<&Hub75FrameBuffer>,
        progress: usize,
    ) -> bool {
        &&& current_frame.wf()
        &&& (next_frame matches Some(f) ==> (f.wf() && f.spec_width()
            == current_frame.spec_width() && f.spec_height() == current_frame.spec_height()
            && f.spec_color_bits() == current_frame.spec_color_bits()))
        &&& (self is Fade ==> progress < 16)
    }

    open spec fn effect_pixel(
        &self,
        current_frame: &Hub75FrameBuffer,
        next_frame: Option<&Hub75FrameBuffer>,
        progress: usize,
        x: int,
        y: int,
    ) -> Hub75Color {
        match self {
            AnimationEffect::Direct => current_frame.spec_pixel(x, y),
            AnimationEffect::Slide => spec_slide_pixel(
                *current_frame,
                match next_frame {
                    Option::Some(n) => Option::Some(*n),
                    Option::None => Option::None,
                },
                progress,
                x,
                y,
            ),
            AnimationEffect::Fade => spec_fade_color(current_frame.spec_pixel(x, y), progress),
            AnimationEffect::Wipe => spec_wipe_pixel(*current_frame, progress, x, y),
        }
    }

    open spec fn spec_steps(&self, frame_count: usize, width: usize) -> int {
        spec_total_steps(*self, frame_count as int, width as int)
    }

    fn apply_effect(
        &self,
        current_frame: &Hub75FrameBuffer,
        next_frame: Option<&Hub75FrameBuffer>,
        progress: usize,
        _total_steps: usize,
    ) -> (r: Result<Hub75FrameBuffer, Hub75Error>) {
        match self {
            AnimationEffect::Direct => Ok(current_frame.clone()),
            AnimationEffect::Slide => self.apply_slide_effect(current_frame, next_frame, progress),
            AnimationEffect::Fade => self.apply_fade_effect(current_frame, progress),
            AnimationEffect::Wipe => self.apply_wipe_effect(current_frame, progress),
        }
    }

    fn total_steps(&self, frame_count: usize, width: usize) -> (r: usize) {
        match self {
            AnimationEffect::Direct => frame_count,
            AnimationEffect::Slide => frame_count * width,
            AnimationEffect::Fade => frame_count * 16,
            AnimationEffect::Wipe => frame_count * width,
        }
    }
}

impl AnimationEffect {
    /// Apply the slide effect: the view window starts `sequence` columns
    /// into the current frame and wraps into the next.
    pub fn apply_slide_effect(
        &self,
        current_frame: &Hub75FrameBuffer,
        next_frame: Option<&Hub75FrameBuffer>,
        sequence: usize,
    ) -> (r: Result<Hub75FrameBuffer, Hub75Error>)
        requires
            current_frame.wf(),
            (next_frame matches Some(f) ==> (f.wf() && f.spec_width()
                == current_frame.spec_width() && f.spec_height() == current_frame.spec_height()
                && f.spec_color_bits() == current_frame.spec_color_bits())),
        ensures
            r matches Ok(f) && f.wf() && f.spec_width() == current_frame.spec_width()
                && f.spec_height() == current_frame.spec_height() && f.spec_color_bits()
                == current_frame.spec_color_bits() && forall|x: int, y: int|
                0 <= x < current_frame.spec_width() && 0 <= y < current_frame.spec_height()
                    ==> #[trigger] f.spec_pixel(x, y) == spec_slide_pixel(
                    *current_frame,
                    match next_frame {
                        Option::Some(n) => Option::Some(*n),
                        Option::None => Option::None,
                    },
                    sequence,
                    x,
                    y,
                ),
    {
        let w = current_frame.width();
        let h = current_frame.height();
        let bits = current_frame.color_bits();
        let black = Hub75Color::black(bits);
        let ghost nxt = match next_frame {
            Option::Some(n) => Option::Some(*n),
            Option::None => Option::None,
        };
        let mut result = Hub75FrameBuffer::new(w, h, bits);
        let mut y: usize = 0;
        while y < h
            invariant
                current_frame.wf(),
                (next_frame matches Some(f) ==> (f.wf() && f.spec_width() == w && f.spec_height()
                    == h && f.spec_color_bits() == bits)),
                w == current_frame.spec_width(),
                h == current_frame.spec_height(),
                bits == current_frame.spec_color_bits(),
                black == spec_black(bits),
                black.wf(),
                nxt == (match next_frame {
                    Option::Some(n) => Option::Some(*n),
                    Option::None => Option::None,
                }),
                y <= h,
                result.wf(),
                result.spec_width() == w,
                result.spec_height() == h,
                result.spec_color_bits() == bits,
                forall|xi: int, yi: int|
                    0 <= xi < w && 0 <= yi < h ==> #[trigger] result.spec_pixel(xi, yi) == (if yi
                        < y {
                        spec_slide_pixel(*current_frame, nxt, sequence, xi, yi)
                    } else {
                        spec_black(bits)
                    }),
            decreases h - y,
        {
            let mut x: usize = 0;
            while x < w
                invariant
                    current_frame.wf(),
                    (next_frame matches Some(f) ==> (f.wf() && f.spec_width() == w
                        && f.spec_height() == h && f.spec_color_bits() == bits)),
                    w == current_frame.spec_width(),
                    h == current_frame.spec_height(),
                    bits == current_frame.spec_color_bits(),
                    black == spec_black(bits),
                black.wf(),
                    nxt == (match next_frame {
                        Option::Some(n) => Option::Some(*n),
                        Option::None => Option::None,
                    }),
                    y < h,
                    x <= w,
                    result.wf(),
                    result.spec_width() == w,
                    result.spec_height() == h,
                    result.spec_color_bits() == bits,
                    forall|xi: int, yi: int|
                        0 <= xi < w && 0 <= yi < h ==> #[trigger] result.spec_pixel(xi, yi) == (
                        if yi < y || (yi == y && xi < x) {
                            spec_slide_pixel(*current_frame, nxt, sequence, xi, yi)
                        } else {
                            spec_black(bits)
                        }),
                decreases w - x,
            {
                proof {
                    if x + sequence < w {
                        assert(current_frame.spec_pixel(x + sequence, y as int).wf());
                    } else {
                        match next_frame {
                            Some(n) => {
                                if x + sequence - w < w {
                                    assert(n.spec_pixel(x + sequence - w, y as int).wf());
                                }
                            },
                            None => {},
                        }
                    }
                }
                let in_current = sequence < w && x < w - sequence;
                let pixel = if in_current {
                    match current_frame.get_pixel(x + sequence, y) {
                        Ok(c) => c,
                        Err(_) => black,
                    }
                } else {
                    // x + sequence - w, computed without overflow
                    let next_x = if sequence >= w {
                        x + (sequence - w)
                    } else {
                        x - (w - sequence)
                    };
                    match next_frame {
                        Some(n) => match n.get_pixel(next_x, y) {
                            Ok(c) => c,
                            Err(_) => black,
                        },
                        None => black,
                    }
                };
                let _ = result.set_pixel(x, y, pixel);
                proof {
                    assert(result.spec_pixel(x as int, y as int) == spec_slide_pixel(
                        *current_frame,
                        nxt,
                        sequence,
                        x as int,
                        y as int,
                    ));
                }
                x += 1;
            }
            y += 1;
        }
        Ok(result)
    }

    /// Apply the fade effect: every channel scaled by the triangular
    /// envelope factor over 15.
    pub fn apply_fade_effect(&self, current_frame: &Hub75FrameBuffer, sequence: usize) -> (r:
        Result<Hub75FrameBuffer, Hub75Error>)
        requires
            current_frame.wf(),
            sequence < 16,
        ensures
            r matches Ok(f) && f.wf() && f.spec_width() == current_frame.spec_width()
                && f.spec_height() == current_frame.spec_height() && f.spec_color_bits()
                == current_frame.spec_color_bits() && forall|x: int, y: int|
                0 <= x < current_frame.spec_width() && 0 <= y < current_frame.spec_height()
                    ==> #[trigger] f.spec_pixel(x, y) == spec_fade_color(
                    current_frame.spec_pixel(x, y),
                    sequence,
                ),
    {
        let w = current_frame.width();
        let h = current_frame.height();
        let bits = current_frame.color_bits();
        let factor: u16 = if sequence < 8 {
            sequence as u16
        } else {
            (15 - sequence) as u16
        };
        let mut result = Hub75FrameBuffer::new(w, h, bits);
        let mut y: usize = 0;
        while y < h
            invariant
                current_frame.wf(),
                sequence < 16,
                w == current_frame.spec_width(),
                h == current_frame.spec_height(),
                bits == current_frame.spec_color_bits(),
                factor == spec_fade_factor(sequence),
                y <= h,
                result.wf(),
                result.spec_width() == w,
                result.spec_height() == h,
                result.spec_color_bits() == bits,
                forall|xi: int, yi: int|
                    0 <= xi < w && 0 <= yi < h ==> #[trigger] result.spec_pixel(xi, yi) == (if yi
                        < y {
                        spec_fade_color(current_frame.spec_pixel(xi, yi), sequence)
                    } else {
                        spec_black(bits)
                    }),
            decreases h - y,
        {
            let mut x: usize = 0;
            while x < w
                invariant
                    current_frame.wf(),
                    sequence < 16,
                    w == current_frame.spec_width(),
                    h == current_frame.spec_height(),
                    bits == current_frame.spec_color_bits(),
                    factor == spec_fade_factor(sequence),
                    y < h,
                    x <= w,
                    result.wf(),
                    result.spec_width() == w,
                    result.spec_height() == h,
                    result.spec_color_bits() == bits,
                    forall|xi: int, yi: int|
                        0 <= xi < w && 0 <= yi < h ==> #[trigger] result.spec_pixel(xi, yi) == (
                        if yi < y || (yi == y && xi < x) {
                            spec_fade_color(current_frame.spec_pixel(xi, yi), sequence)
                        } else {
                            spec_black(bits)
                        }),
                decreases w - x,
            {
                let original = match current_frame.get_pixel(x, y) {
                    Ok(c) => c,
                    Err(_) => Hub75Color::black(bits),
                };
                proof {
                    lemma_fade_channel_le(original.r, factor as int);
                    lemma_fade_channel_le(original.g, factor as int);
                    lemma_fade_channel_le(original.b, factor as int);
                }
                let faded = Hub75Color {
                    bits: original.bits,
                    r: ((original.r as u16 * factor) / 15) as u8,
                    g: ((original.g as u16 * factor) / 15) as u8,
                    b: ((original.b as u16 * factor) / 15) as u8,
                };
                let _ = result.set_pixel(x, y, faded);
                x += 1;
            }
            y += 1;
        }
        Ok(result)
    }

    /// Apply the wipe effect: columns `0..=sequence` of the current
    /// frame are revealed, the rest stays black.
    pub fn apply_wipe_effect(&self, current_frame: &Hub75FrameBuffer, sequence: usize) -> (r:
        Result<Hub75FrameBuffer, Hub75Error>)
        requires
            current_frame.wf(),
        ensures
            r matches Ok(f) && f.wf() && f.spec_width() == current_frame.spec_width()
                && f.spec_height() == current_frame.spec_height() && f.spec_color_bits()
                == current_frame.spec_color_bits() && forall|x: int, y: int|
                0 <= x < current_frame.spec_width() && 0 <= y < current_frame.spec_height()
                    ==> #[trigger] f.spec_pixel(x, y) == spec_wipe_pixel(
                    *current_frame,
                    sequence,
                    x,
                    y,
                ),
    {
        let w = current_frame.width();
        let h = current_frame.height();
        let bits = current_frame.color_bits();
        let black = Hub75Color::black(bits);
        let mut result = Hub75FrameBuffer::new(w, h, bits);
        let mut y: usize = 0;
        while y < h
            invariant
                current_frame.wf(),
                w == current_frame.spec_width(),
                h == current_frame.spec_height(),
                bits == current_frame.spec_color_bits(),
                black == spec_black(bits),
                black.wf(),
                y <= h,
                result.wf(),
                result.spec_width() == w,
                result.spec_height() == h,
                result.spec_color_bits() == bits,
                forall|xi: int, yi: int|
                    0 <= xi < w && 0 <= yi < h ==> #[trigger] result.spec_pixel(xi, yi) == (if yi
                        < y {
                        spec_wipe_pixel(*current_frame, sequence, xi, yi)
                    } else {
                        spec_black(bits)
                    }),
            decreases h - y,
        {
            let mut x: usize = 0;
            while x < w
                invariant
                    current_frame.wf(),
                    w == current_frame.spec_width(),
                    h == current_frame.spec_height(),
                    bits == current_frame.spec_color_bits(),
                    black == spec_black(bits),
                black.wf(),
                    y < h,
                    x <= w,
                    result.wf(),
                    result.spec_width() == w,
                    result.spec_height() == h,
                    result.spec_color_bits() == bits,
                    forall|xi: int, yi: int|
                        0 <= xi < w && 0 <= yi < h ==> #[trigger] result.spec_pixel(xi, yi) == (
                        if yi < y || (yi == y && xi < x) {
                            spec_wipe_pixel(*current_frame, sequence, xi, yi)
                        } else {
                            spec_black(bits)
                        }),
                decreases w - x,
            {
                proof {
                    assert(current_frame.spec_pixel(x as int, y as int).wf());
                }
                let pixel = if x <= sequence {
                    match current_frame.get_pixel(x, y) {
                        Ok(c) => c,
                        Err(_) => black,
                    }
                } else {
                    black
                };
                let _ = result.set_pixel(x, y, pixel);
                x += 1;
            }
            y += 1;
        }
        Ok(result)
    }
}


/// A white pixel of the given depth: every channel at its maximum.
pub open spec fn spec_white(bits: usize) -> Hub75Color {
    Hub75Color {
        bits,
        r: channel_max(bits as nat) as u8,
        g: channel_max(bits as nat) as u8,
        b: channel_max(bits as nat) as u8,
    }
}

/// The five rows of a character's 5x5 glyph: real glyphs for 'A', 'B'
/// and 'C', a box for every other byte.
pub open spec fn spec_glyph_row(ch: u8, gy: int) -> u8 {
    let rows: (u8, u8, u8, u8, u8) = if ch == 65 {
        (0b01110, 0b10001, 0b10001, 0b11111, 0b10001)
    } else if ch == 66 {
        (0b11110, 0b10001, 0b11110, 0b10001, 0b11110)
    } else if ch == 67 {
        (0b01111, 0b10000, 0b10000, 0b10000, 0b01111)
    } else {
        (0b11111, 0b10001, 0b10001, 0b10001, 0b11111)
    };
    if gy == 0 {
        rows.0
    } else if gy == 1 {
        rows.1
    } else if gy == 2 {
        rows.2
    } else if gy == 3 {
        rows.3
    } else {
        rows.4
    }
}

/// Whether glyph cell `(gx, gy)` of the character is lit.
pub open spec fn spec_glyph_bit(ch: u8, gx: int, gy: int) -> bool {
    (spec_glyph_row(ch, gy) >> ((4 - gx) as u8)) & 1 == 1
}

/// Where the centered 5x5 glyph starts along one dimension; zero on
/// panels smaller than the glyph.
pub open spec fn spec_glyph_start(dim: usize) -> int {
    if dim >= 5 {
        (dim - 5) as int / 2
    } else {
        0
    }
}

/// The color a partially rendered character leaves at `(x, y)` of a
/// frame whose pixel held `old_pixel`: white on lit glyph cells inside
/// the panel among the first `done` cells (row-major), the old pixel
/// everywhere else.
pub open spec fn spec_char_pixel_upto(
    old_pixel: Hub75Color,
    ch: u8,
    x: int,
    y: int,
    width: usize,
    height: usize,
    color_bits: usize,
    done: int,
) -> Hub75Color {
    let gx = x - spec_glyph_start(width);
    let gy = y - spec_glyph_start(height);
    if 0 <= gx < 5 && 0 <= gy < 5 && gy * 5 + gx < done && spec_glyph_bit(ch, gx, gy) && x < width
        && y < height {
        spec_white(color_bits)
    } else {
        old_pixel
    }
}

/// The color a fully rendered character leaves at `(x, y)`.
pub open spec fn spec_char_pixel(
    old_pixel: Hub75Color,
    ch: u8,
    x: int,
    y: int,
    width: usize,
    height: usize,
    color_bits: usize,
) -> Hub75Color {
    spec_char_pixel_upto(old_pixel, ch, x, y, width, height, color_bits, 25)
}

/// Animation data source.
pub enum AnimationData {
    /// Array of frame buffers
    Frames(Vec<Hub75FrameBuffer>),
    /// Raw RGB data (width * height * 3 bytes per frame)
    RgbData(Vec<u8>),
    /// Text data as bytes, one frame per character
    Text(Vec<u8>),
}

impl AnimationData {
    /// The number of frames the source holds: the frame list's length,
    /// the byte stream's length in whole frames, or the text's length.
    pub open spec fn spec_frame_count(&self, width: usize, height: usize) -> int {
        match self {
            AnimationData::Frames(frames) => frames@.len() as int,
            AnimationData::RgbData(data) => data@.len() as int / (width * height * 3),
            AnimationData::Text(text) => text@.len() as int,
        }
    }

    /// Every pre-rendered frame fits the panel.
    pub open spec fn data_wf(&self, width: usize, height: usize, color_bits: usize) -> bool {
        match self {
            AnimationData::Frames(frames) => forall|i: int|
                0 <= i < frames@.len() ==> (#[trigger] frames@[i]).wf() && frames@[i].spec_width()
                    == width && frames@[i].spec_height() == height && frames@[i].spec_color_bits()
                    == color_bits,
            AnimationData::RgbData(_) => true,
            AnimationData::Text(_) => true,
        }
    }

    /// The pixel frame `i` of the source holds at `(x, y)`: the stored
    /// frame's pixel, the decoded RGB bytes, or the rendered character.
    pub open spec fn spec_data_pixel(
        &self,
        i: int,
        x: int,
        y: int,
        width: usize,
        height: usize,
        color_bits: usize,
    ) -> Hub75Color {
        match self {
            AnimationData::Frames(frames) => frames@[i].spec_pixel(x, y),
            AnimationData::RgbData(data) => {
                let idx = i * (width * height * 3) + (y * width + x) * 3;
                Hub75Color::spec_from_rgb8(color_bits, data@[idx], data@[idx + 1], data@[idx + 2])
            },
            AnimationData::Text(text) => spec_char_pixel(
                spec_black(color_bits),
                text@[i],
                x,
                y,
                width,
                height,
                color_bits,
            ),
        }
    }

    /// Get the number of frames in the animation data.
    pub fn frame_count(&self, width: usize, height: usize) -> (n: usize)
        requires
            width >= 1,
            height >= 1,
            width * height * 3 <= usize::MAX,
        ensures
            n == self.spec_frame_count(width, height),
    {
        proof {
            vstd::arithmetic::mul::lemma_mul_strictly_positive(width as int, height as int);
            lemma_mul_inequality(1, width as int * height as int, 3);
        }
        match self {
            AnimationData::Frames(frames) => frames.len(),
            AnimationData::RgbData(data) => data.len() / (width * height * 3),
            AnimationData::Text(text) => text.len(),
        }
    }

    /// Render a character into a frame as a centered 5x5 white glyph;
    /// pixels off the glyph keep their colors.
    pub fn render_character_to_frame(&self, frame: &mut Hub75FrameBuffer, char_byte: u8) -> (r:
        Result<(), Hub75Error>)
        requires
            old(frame).wf(),
        ensures
            r is Ok,
            final(frame).wf(),
            final(frame).spec_width() == old(frame).spec_width(),
            final(frame).spec_height() == old(frame).spec_height(),
            final(frame).spec_color_bits() == old(frame).spec_color_bits(),
            forall|x: int, y: int|
                0 <= x < old(frame).spec_width() && 0 <= y < old(frame).spec_height()
                    ==> #[trigger] final(frame).spec_pixel(x, y) == spec_char_pixel(
                    old(frame).spec_pixel(x, y),
                    char_byte,
                    x,
                    y,
                    old(frame).spec_width(),
                    old(frame).spec_height(),
                    old(frame).spec_color_bits(),
                ),
    {
        let width = frame.width();
        let height = frame.height();
        let bits = frame.color_bits();
        let rows: (u8, u8, u8, u8, u8) = if char_byte == 65 {
            (0b01110, 0b10001, 0b10001, 0b11111, 0b10001)
        } else if char_byte == 66 {
            (0b11110, 0b10001, 0b11110, 0b10001, 0b11110)
        } else if char_byte == 67 {
            (0b01111, 0b10000, 0b10000, 0b10000, 0b01111)
        } else {
            (0b11111, 0b10001, 0b10001, 0b10001, 0b11111)
        };
        let color = Hub75Color::white(bits);
        let start_x = if width >= 5 {
            (width - 5) / 2
        } else {
            0
        };
        let start_y = if height >= 5 {
            (height - 5) / 2
        } else {
            0
        };
        let mut gy: usize = 0;
        while gy < 5
            invariant
                frame.wf(),
                frame.spec_width() == old(frame).spec_width(),
                frame.spec_height() == old(frame).spec_height(),
                frame.spec_color_bits() == old(frame).spec_color_bits(),
                width == old(frame).spec_width(),
                height == old(frame).spec_height(),
                bits == old(frame).spec_color_bits(),
                color == spec_white(bits),
                color.wf(),
                color.bits == bits,
                start_x == spec_glyph_start(width),
                start_y == spec_glyph_start(height),
                rows.0 == spec_glyph_row(char_byte, 0),
                rows.1 == spec_glyph_row(char_byte, 1),
                rows.2 == spec_glyph_row(char_byte, 2),
                rows.3 == spec_glyph_row(char_byte, 3),
                rows.4 == spec_glyph_row(char_byte, 4),
                gy <= 5,
                forall|x: int, y: int|
                    0 <= x < width && 0 <= y < height ==> #[trigger] frame.spec_pixel(x, y)
                        == spec_char_pixel_upto(
                        old(frame).spec_pixel(x, y),
                        char_byte,
                        x,
                        y,
                        width,
                        height,
                        bits,
                        gy as int * 5,
                    ),
            decreases 5 - gy,
        {
            let row_bits: u8 = if gy == 0 {
                rows.0
            } else if gy == 1 {
                rows.1
            } else if gy == 2 {
                rows.2
            } else if gy == 3 {
                rows.3
            } else {
                rows.4
            };
            let mut gx: usize = 0;
            while gx < 5
                invariant
                    frame.wf(),
                    frame.spec_width() == old(frame).spec_width(),
                    frame.spec_height() == old(frame).spec_height(),
                    frame.spec_color_bits() == old(frame).spec_color_bits(),
                    width == old(frame).spec_width(),
                    height == old(frame).spec_height(),
                    bits == old(frame).spec_color_bits(),
                    color == spec_white(bits),
                    color.wf(),
                    color.bits == bits,
                    start_x == spec_glyph_start(width),
                    start_y == spec_glyph_start(height),
                    row_bits == spec_glyph_row(char_byte, gy as int),
                    gy < 5,
                    gx <= 5,
                    forall|x: int, y: int|
                        0 <= x < width && 0 <= y < height ==> #[trigger] frame.spec_pixel(x, y)
                            == spec_char_pixel_upto(
                            old(frame).spec_pixel(x, y),
                            char_byte,
                            x,
                            y,
                            width,
                            height,
                            bits,
                            gy as int * 5 + gx,
                        ),
                decreases 5 - gx,
            {
                let lit = (row_bits >> ((4 - gx) as u8)) & 1 == 1;
                if lit && start_x + gx < width && start_y + gy < height {
                    let _ = frame.set_pixel(start_x + gx, start_y + gy, color);
                }
                proof {
                    assert forall|x: int, y: int|
                        0 <= x < width && 0 <= y < height implies #[trigger] frame.spec_pixel(x, y)
                        == spec_char_pixel_upto(
                        old(frame).spec_pixel(x, y),
                        char_byte,
                        x,
                        y,
                        width,
                        height,
                        bits,
                        gy as int * 5 + gx + 1,
                    ) by {
                        let sx = spec_glyph_start(width);
                        let sy = spec_glyph_start(height);
                        if x == sx + gx && y == sy + gy {
                            assert(spec_glyph_bit(char_byte, gx as int, gy as int) == lit);
                        }
                    };
                }
                gx += 1;
            }
            gy += 1;
        }
        Ok(())
    }

    /// Get a specific frame from the animation data.
    ///
    /// Fails with the animation error `InvalidData` exactly when the
    /// index is not below the frame count.
    pub fn get_frame(&self, index: usize, width: usize, height: usize, color_bits: usize) -> (r:
        Result<Hub75FrameBuffer, Hub75Error>)
        requires
            valid_dims(width, height, color_bits),
            width >= 1,
            height >= 1,
            self.data_wf(width, height, color_bits),
        ensures
            index < self.spec_frame_count(width, height) ==> (r matches Ok(fb) && fb.wf()
                && fb.spec_width() == width && fb.spec_height() == height && fb.spec_color_bits()
                == color_bits && forall|x: int, y: int|
                0 <= x < width && 0 <= y < height ==> #[trigger] fb.spec_pixel(x, y)
                    == self.spec_data_pixel(index as int, x, y, width, height, color_bits)),
            index >= self.spec_frame_count(width, height) ==> r == Err::<
                Hub75FrameBuffer,
                Hub75Error,
            >(Hub75Error::AnimationError(AnimationError::InvalidData)),
    {
        match self {
            AnimationData::Frames(frames) => {
                if index < frames.len() {
                    let fb = frames[index].clone();
                    Ok(fb)
                } else {
                    Err(Hub75Error::AnimationError(AnimationError::InvalidData))
                }
            },
            AnimationData::RgbData(data) => {
                proof {
                    vstd::arithmetic::mul::lemma_mul_strictly_positive(
                        width as int,
                        height as int,
                    );
                    lemma_mul_inequality(1, width as int * height as int, 3);
                }
                let frame_size = width * height * 3;
                let count = data.len() / frame_size;
                if index >= count {
                    return Err(Hub75Error::AnimationError(AnimationError::InvalidData));
                }
                proof {
                    lemma_fundamental_div_mod(data@.len() as int, frame_size as int);
                    vstd::arithmetic::div_mod::lemma_mod_bound(
                        data@.len() as int,
                        frame_size as int,
                    );
                    lemma_mul_inequality(index as int + 1, count as int, frame_size as int);
                    lemma_mul_is_commutative(count as int, frame_size as int);
                    vstd::arithmetic::mul::lemma_mul_is_distributive_add_other_way(
                        frame_size as int,
                        index as int,
                        1,
                    );
                    vstd::arithmetic::mul::lemma_mul_nonnegative(index as int, frame_size as int);
                }
                let start = index * frame_size;
                let end = start + frame_size;
                let mut chunk: Vec<u8> = Vec::new();
                let mut k: usize = start;
                while k < end
                    invariant
                        start <= k <= end,
                        end <= data@.len(),
                        chunk@.len() == k - start,
                        forall|j: int|
                            0 <= j < chunk@.len() ==> #[trigger] chunk@[j] == data@[start + j],
                    decreases end - k,
                {
                    chunk.push(data[k]);
                    k += 1;
                }
                let fb = match Hub75FrameBuffer::from_rgb_data(
                    chunk.as_slice(),
                    width,
                    height,
                    color_bits,
                ) {
                    Ok(fb) => fb,
                    Err(_) => {
                        proof {
                            assert(false);
                        }
                        return Err(Hub75Error::AnimationError(AnimationError::InvalidData));
                    },
                };
                proof {
                    assert forall|x: int, y: int|
                        0 <= x < width && 0 <= y < height implies #[trigger] fb.spec_pixel(x, y)
                        == self.spec_data_pixel(index as int, x, y, width, height, color_bits) by {
                        crate::frame_buffer::lemma_byte_index_bound(
                            x,
                            y,
                            width as int,
                            height as int,
                        );
                        assert(fb.spec_pixel(x, y) == Hub75FrameBuffer::spec_rgb_data_pixel(
                            chunk@,
                            width,
                            color_bits,
                            x,
                            y,
                        ));
                    };
                }
                Ok(fb)
            },
            AnimationData::Text(text) => {
                if index < text.len() {
                    let mut f = Hub75FrameBuffer::new(width, height, color_bits);
                    let _ = self.render_character_to_frame(&mut f, text[index]);
                    Ok(f)
                } else {
                    Err(Hub75Error::AnimationError(AnimationError::InvalidData))
                }
            },
        }
    }
}


/// The per-effect relation between the global step counter and the
/// frame/sequence cursor: the sub-step wraps every `width` columns for
/// slides and wipes, every 16 sub-steps for fades, every step for a
/// plain run.
pub open spec fn spec_cursor_ok(
    effect: AnimationEffect,
    step: usize,
    frame_index: usize,
    sequence: usize,
    width: usize,
) -> bool {
    match effect {
        AnimationEffect::Direct => frame_index == step,
        AnimationEffect::Slide => frame_index == step as int / width as int && sequence == step as int % width as int,
        AnimationEffect::Fade => frame_index == step as int / 16 && sequence == step as int % 16,
        AnimationEffect::Wipe => frame_index == step as int / width as int && sequence == step as int % width as int,
    }
}

/// The pixel the animation emits at `(x, y)` while frame `k` is current
/// and the effect stands at sub-step `s`.
pub open spec fn spec_output_pixel(
    data: AnimationData,
    effect: AnimationEffect,
    k: int,
    s: usize,
    x: int,
    y: int,
    width: usize,
    height: usize,
    color_bits: usize,
) -> Hub75Color {
    match effect {
        AnimationEffect::Direct => data.spec_data_pixel(k, x, y, width, height, color_bits),
        AnimationEffect::Slide => {
            if x + s < width {
                data.spec_data_pixel(k, x + s, y, width, height, color_bits)
            } else if k + 1 < data.spec_frame_count(width, height) && x + s - width < width {
                data.spec_data_pixel(k + 1, x + s - width, y, width, height, color_bits)
            } else {
                spec_black(color_bits)
            }
        },
        AnimationEffect::Fade => spec_fade_color(
            data.spec_data_pixel(k, x, y, width, height, color_bits),
            s,
        ),
        AnimationEffect::Wipe => {
            if x <= s {
                data.spec_data_pixel(k, x, y, width, height, color_bits)
            } else {
                spec_black(color_bits)
            }
        },
    }
}

/// Stepping a counter forward moves its division cursor as the wrap
/// rule says: the quotient advances exactly when the remainder wraps.
proof fn lemma_cursor_advance(step: usize, fi: usize, seq: usize, m: usize)
    requires
        m >= 1,
        fi == step as int / m as int,
        seq == step as int % m as int,
        step < usize::MAX,
    ensures
        seq + 1 >= m ==> ((step + 1) as int / m as int == fi + 1 && (step + 1) as int % m as int
            == 0),
        seq + 1 < m ==> ((step + 1) as int / m as int == fi && (step + 1) as int % m as int == seq
            + 1),
{
    lemma_fundamental_div_mod(step as int, m as int);
    vstd::arithmetic::div_mod::lemma_mod_bound(step as int, m as int);
    lemma_mul_is_commutative(m as int, fi as int);
    if seq + 1 >= m {
        vstd::arithmetic::mul::lemma_mul_is_distributive_add_other_way(m as int, fi as int, 1);
        lemma_fundamental_div_mod_converse_div(step as int + 1, m as int, fi as int + 1, 0);
        lemma_fundamental_div_mod_converse_mod(step as int + 1, m as int, fi as int + 1, 0);
    } else {
        lemma_fundamental_div_mod_converse_div(step as int + 1, m as int, fi as int, seq as int + 1);
        lemma_fundamental_div_mod_converse_mod(step as int + 1, m as int, fi as int, seq as int + 1);
    }
}

/// Animation controller.
///
/// Walks its data source step by step, emitting one effect frame every
/// `frames_per_step` calls of `next`, until `total_steps` are done.
pub struct Animation {
    /// Animation data source
    data: AnimationData,
    /// Panel width in pixels
    width: usize,
    /// Panel height in pixels
    height: usize,
    /// Channel depth of the panel
    color_bits: usize,
    /// Current frame index into the data source
    frame_index: usize,
    /// Current sub-step within the frame (for effects that have them)
    sequence: usize,
    /// Current step in the animation
    step: usize,
    /// Total number of steps in the animation
    total_steps: usize,
    /// Animation effect to apply
    effect: AnimationEffect,
    /// Number of `next` calls between steps
    frames_per_step: usize,
    /// Calls since the last emitted step
    frame_counter: usize,
}

impl Animation {
    /// The data source.
    pub closed spec fn spec_data(&self) -> AnimationData {
        self.data
    }

    /// Panel width in pixels.
    pub closed spec fn spec_width(&self) -> usize {
        self.width
    }

    /// Panel height in pixels.
    pub closed spec fn spec_height(&self) -> usize {
        self.height
    }

    /// Channel depth of the panel.
    pub closed spec fn spec_color_bits(&self) -> usize {
        self.color_bits
    }

    /// Current frame index into the data source.
    pub closed spec fn spec_frame_index(&self) -> usize {
        self.frame_index
    }

    /// Current effect sub-step within the frame.
    pub closed spec fn spec_sequence(&self) -> usize {
        self.sequence
    }

    /// Current step counter.
    pub closed spec fn spec_step(&self) -> usize {
        self.step
    }

    /// Total number of steps.
    pub closed spec fn spec_total_steps(&self) -> usize {
        self.total_steps
    }

    /// The chosen effect.
    pub closed spec fn spec_effect(&self) -> AnimationEffect {
        self.effect
    }

    /// Number of `next` calls between steps.
    pub closed spec fn spec_frames_per_step(&self) -> usize {
        self.frames_per_step
    }

    /// Calls since the last emitted step.
    pub closed spec fn spec_frame_counter(&self) -> usize {
        self.frame_counter
    }

    /// The number of frames the data source holds for this panel.
    pub open spec fn spec_frame_count(&self) -> int {
        self.spec_data().spec_frame_count(self.spec_width(), self.spec_height())
    }

    /// Valid panel shape, a fitting data source with at least one frame,
    /// the step total the effect demands, and a coherent cursor.
    pub open spec fn wf(&self) -> bool {
        &&& valid_dims(self.spec_width(), self.spec_height(), self.spec_color_bits())
        &&& self.spec_width() >= 1
        &&& self.spec_height() >= 1
        &&& self.spec_data().data_wf(self.spec_width(), self.spec_height(), self.spec_color_bits())
        &&& self.spec_frame_count() >= 1
        &&& self.spec_total_steps() == spec_total_steps(
            self.spec_effect(),
            self.spec_frame_count(),
            self.spec_width() as int,
        )
        &&& (self.spec_step() < self.spec_total_steps() ==> spec_cursor_ok(
            self.spec_effect(),
            self.spec_step(),
            self.spec_frame_index(),
            self.spec_sequence(),
            self.spec_width(),
        ))
        &&& (self.spec_frame_counter() == 0 || self.spec_frame_counter()
            < self.spec_frames_per_step())
    }

    /// The two states agree on everything but the cursor and counters.
    pub open spec fn same_setup(a: &Self, b: &Self) -> bool {
        &&& a.spec_data() == b.spec_data()
        &&& a.spec_width() == b.spec_width()
        &&& a.spec_height() == b.spec_height()
        &&& a.spec_color_bits() == b.spec_color_bits()
        &&& a.spec_effect() == b.spec_effect()
        &&& a.spec_total_steps() == b.spec_total_steps()
        &&& a.spec_frames_per_step() == b.spec_frames_per_step()
    }

    /// Create a new animation over `total_frames` ticks.
    ///
    /// Fails with the animation error `InvalidData` exactly when the
    /// data source holds no frame.
    pub fn new(
        data: AnimationData,
        effect: AnimationEffect,
        total_frames: usize,
        width: usize,
        height: usize,
        color_bits: usize,
    ) -> (r: Result<Animation, AnimationError>)
        requires
            valid_dims(width, height, color_bits),
            width >= 1,
            height >= 1,
            data.data_wf(width, height, color_bits),
            spec_total_steps(effect, data.spec_frame_count(width, height), width as int)
                <= usize::MAX,
        ensures
            data.spec_frame_count(width, height) == 0 ==> r == Err::<Animation, AnimationError>(
                AnimationError::InvalidData,
            ),
            data.spec_frame_count(width, height) >= 1 ==> (r matches Ok(a) && a.wf()
                && a.spec_data() == data && a.spec_effect() == effect && a.spec_width() == width
                && a.spec_height() == height && a.spec_color_bits() == color_bits && a.spec_step()
                == 0 && a.spec_frame_index() == 0 && a.spec_sequence() == 0
                && a.spec_frame_counter() == 0 && a.spec_total_steps() == spec_total_steps(
                effect,
                data.spec_frame_count(width, height),
                width as int,
            ) && a.spec_frames_per_step() == total_frames as int / spec_total_steps(
                effect,
                data.spec_frame_count(width, height),
                width as int,
            )),
    {
        let frame_count = data.frame_count(width, height);
        if frame_count == 0 {
            return Err(AnimationError::InvalidData);
        }
        proof {
            vstd::arithmetic::mul::lemma_mul_strictly_positive(frame_count as int, width as int);
        }
        let total_steps = match effect {
            AnimationEffect::Direct => frame_count,
            AnimationEffect::Slide => frame_count * width,
            AnimationEffect::Fade => frame_count * 16,
            AnimationEffect::Wipe => frame_count * width,
        };
        let frames_per_step = total_frames / total_steps;
        proof {
            vstd::arithmetic::div_mod::lemma_div_of0(width as int);
            vstd::arithmetic::div_mod::lemma_small_mod(0, width as nat);
        }
        Ok(
            Animation {
                data,
                width,
                height,
                color_bits,
                frame_index: 0,
                sequence: 0,
                step: 0,
                total_steps,
                effect,
                frames_per_step,
                frame_counter: 0,
            },
        )
    }

    /// The total number of steps of this animation.
    pub fn total_steps(&self) -> (r: usize)
        ensures
            r == self.spec_total_steps(),
    {
        self.total_steps
    }

    /// Check if the animation is complete.
    pub fn is_done(&self) -> (r: bool)
        ensures
            r == (self.spec_step() >= self.spec_total_steps()),
    {
        self.step >= self.total_steps
    }

    /// Reset the animation to the beginning.
    pub fn reset(&mut self)
        requires
            old(self).wf(),
        ensures
            final(self).wf(),
            Self::same_setup(final(self), old(self)),
            final(self).spec_step() == 0,
            final(self).spec_frame_index() == 0,
            final(self).spec_sequence() == 0,
            final(self).spec_frame_counter() == 0,
    {
        proof {
            vstd::arithmetic::div_mod::lemma_div_of0(self.width as int);
            vstd::arithmetic::div_mod::lemma_small_mod(0, self.width as nat);
        }
        self.frame_index = 0;
        self.sequence = 0;
        self.step = 0;
        self.frame_counter = 0;
    }

    /// Advance the step counter and the per-effect cursor.
    fn advance_step(&mut self)
        requires
            old(self).wf(),
            old(self).spec_step() < old(self).spec_total_steps(),
        ensures
            final(self).wf(),
            Self::same_setup(final(self), old(self)),
            final(self).spec_frame_counter() == old(self).spec_frame_counter(),
            final(self).spec_step() == old(self).spec_step() + 1,
            old(self).spec_effect() is Direct ==> (final(self).spec_frame_index() == old(self).spec_step() + 1 && final(self).spec_sequence() == old(self).spec_sequence()),
            (old(self).spec_effect() is Slide || old(self).spec_effect() is Wipe) ==> (if old(self).spec_sequence() + 1 >= old(self).spec_width() {
                final(self).spec_sequence() == 0 && final(self).spec_frame_index() == old(self).spec_frame_index() + 1
            } else {
                final(self).spec_sequence() == old(self).spec_sequence() + 1 && final(self).spec_frame_index() == old(self).spec_frame_index()
            }),
            old(self).spec_effect() is Fade ==> (if old(self).spec_sequence() + 1 >= 16 {
                final(self).spec_sequence() == 0 && final(self).spec_frame_index() == old(self).spec_frame_index() + 1
            } else {
                final(self).spec_sequence() == old(self).spec_sequence() + 1 && final(self).spec_frame_index() == old(self).spec_frame_index()
            }),
    {
        proof {
            match self.effect {
                AnimationEffect::Direct => {},
                AnimationEffect::Slide | AnimationEffect::Wipe => {
                    lemma_mul_is_commutative(self.spec_frame_count(), self.width as int);
                    lemma_multiply_divide_lt(
                        self.step as int,
                        self.width as int,
                        self.spec_frame_count(),
                    );
                    lemma_cursor_advance(self.step, self.frame_index, self.sequence, self.width);
                },
                AnimationEffect::Fade => {
                    lemma_mul_is_commutative(self.spec_frame_count(), 16);
                    lemma_multiply_divide_lt(self.step as int, 16, self.spec_frame_count());
                    lemma_cursor_advance(self.step, self.frame_index, self.sequence, 16);
                },
            }
        }
        self.step = self.step + 1;
        match self.effect {
            AnimationEffect::Direct => {
                self.frame_index = self.step;
            },
            AnimationEffect::Slide => {
                self.sequence = self.sequence + 1;
                if self.sequence >= self.width {
                    self.sequence = 0;
                    self.frame_index = self.frame_index + 1;
                }
            },
            AnimationEffect::Fade => {
                self.sequence = self.sequence + 1;
                if self.sequence >= 16 {
                    self.sequence = 0;
                    self.frame_index = self.frame_index + 1;
                }
            },
            AnimationEffect::Wipe => {
                self.sequence = self.sequence + 1;
                if self.sequence >= self.width {
                    self.sequence = 0;
                    self.frame_index = self.frame_index + 1;
                }
            },
        }
    }

    /// Generate the output frame for the current cursor position.
    fn generate_current_frame(&self) -> (r: Result<Hub75FrameBuffer, Hub75Error>)
        requires
            self.wf(),
            self.spec_step() < self.spec_total_steps(),
        ensures
            r matches Ok(f) && f.wf() && f.spec_width() == self.spec_width() && f.spec_height()
                == self.spec_height() && f.spec_color_bits() == self.spec_color_bits() && forall|
                x: int,
                y: int,
            |
                0 <= x < self.spec_width() && 0 <= y < self.spec_height()
                    ==> #[trigger] f.spec_pixel(x, y) == spec_output_pixel(
                    self.spec_data(),
                    self.spec_effect(),
                    self.spec_frame_index() as int,
                    self.spec_sequence(),
                    x,
                    y,
                    self.spec_width(),
                    self.spec_height(),
                    self.spec_color_bits(),
                ),
    {
        proof {
            match self.effect {
                AnimationEffect::Direct => {},
                AnimationEffect::Slide | AnimationEffect::Wipe => {
                    lemma_mul_is_commutative(self.spec_frame_count(), self.width as int);
                    lemma_multiply_divide_lt(
                        self.step as int,
                        self.width as int,
                        self.spec_frame_count(),
                    );
                    vstd::arithmetic::div_mod::lemma_mod_bound(self.step as int, self.width as int);
                },
                AnimationEffect::Fade => {
                    lemma_mul_is_commutative(self.spec_frame_count(), 16);
                    lemma_multiply_divide_lt(self.step as int, 16, self.spec_frame_count());
                    vstd::arithmetic::div_mod::lemma_mod_bound(self.step as int, 16);
                },
            }
        }
        let current_frame = match self.data.get_frame(
            self.frame_index,
            self.width,
            self.height,
            self.color_bits,
        ) {
            Ok(f) => f,
            Err(e) => {
                proof {
                    assert(false);
                }
                return Err(e);
            },
        };
        let frame_count = self.data.frame_count(self.width, self.height);
        let next_frame: Option<Hub75FrameBuffer> = if self.frame_index + 1 < frame_count {
            match self.data.get_frame(
                self.frame_index + 1,
                self.width,
                self.height,
                self.color_bits,
            ) {
                Ok(f) => Option::Some(f),
                Err(e) => {
                    proof {
                        assert(false);
                    }
                    return Err(e);
                },
            }
        } else {
            Option::None
        };
        let result = match self.effect {
            AnimationEffect::Direct => current_frame,
            AnimationEffect::Slide => {
                let next_ref: Option<&Hub75FrameBuffer> = match &next_frame {
                    Option::Some(f) => Option::Some(f),
                    Option::None => Option::None,
                };
                match self.effect.apply_slide_effect(&current_frame, next_ref, self.sequence) {
                    Ok(f) => f,
                    Err(e) => {
                        return Err(e);
                    },
                }
            },
            AnimationEffect::Fade => {
                match self.effect.apply_fade_effect(&current_frame, self.sequence) {
                    Ok(f) => f,
                    Err(e) => {
                        return Err(e);
                    },
                }
            },
            AnimationEffect::Wipe => {
                match self.effect.apply_wipe_effect(&current_frame, self.sequence) {
                    Ok(f) => f,
                    Err(e) => {
                        return Err(e);
                    },
                }
            },
        };
        proof {
            assert forall|x: int, y: int|
                0 <= x < self.spec_width() && 0 <= y < self.spec_height()
                    implies #[trigger] result.spec_pixel(x, y) == spec_output_pixel(
                self.spec_data(),
                self.spec_effect(),
                self.spec_frame_index() as int,
                self.spec_sequence(),
                x,
                y,
                self.spec_width(),
                self.spec_height(),
                self.spec_color_bits(),
            ) by {
                let k = self.spec_frame_index() as int;
                let s = self.spec_sequence();
                let w = self.spec_width();
                match self.spec_effect() {
                    AnimationEffect::Direct => {},
                    AnimationEffect::Slide => {
                        if x + s < w {
                            assert(current_frame.spec_pixel(x + s, y) == self.spec_data(
                            ).spec_data_pixel(
                                k,
                                x + s,
                                y,
                                self.spec_width(),
                                self.spec_height(),
                                self.spec_color_bits(),
                            ));
                        } else {
                            if k + 1 < self.spec_frame_count() && x + s - w < w {
                                let n = next_frame->Some_0;
                                assert(n.spec_pixel(x + s - w, y) == self.spec_data(
                                ).spec_data_pixel(
                                    k + 1,
                                    x + s - w,
                                    y,
                                    self.spec_width(),
                                    self.spec_height(),
                                    self.spec_color_bits(),
                                ));
                            }
                        }
                    },
                    AnimationEffect::Fade => {
                        assert(current_frame.spec_pixel(x, y) == self.spec_data().spec_data_pixel(
                            k,
                            x,
                            y,
                            self.spec_width(),
                            self.spec_height(),
                            self.spec_color_bits(),
                        ));
                    },
                    AnimationEffect::Wipe => {
                        if x <= s {
                            assert(current_frame.spec_pixel(x, y) == self.spec_data(
                            ).spec_data_pixel(
                                k,
                                x,
                                y,
                                self.spec_width(),
                                self.spec_height(),
                                self.spec_color_bits(),
                            ));
                        }
                    },
                }
            };
        }
        Ok(result)
    }

    /// Get the next animation state.
    ///
    /// Past the last step the answer is `Done`, and stays `Done`. Before
    /// a step is due the answer is `Wait`. When one is due, the answer
    /// applies the current effect frame and the cursor advances.
    pub fn next(&mut self) -> (r: AnimationState)
        requires
            old(self).wf(),
        ensures
            final(self).wf(),
            Self::same_setup(final(self), old(self)),
            old(self).spec_step() >= old(self).spec_total_steps() ==> (r is Done && *final(self)
                == *old(self)),
            old(self).spec_step() < old(self).spec_total_steps() && old(self).spec_frame_counter()
                + 1 < old(self).spec_frames_per_step() ==> (r is Wait && final(self).spec_frame_counter() == old(self).spec_frame_counter() + 1 && final(self).spec_step()
                == old(self).spec_step() && final(self).spec_frame_index() == old(self).spec_frame_index() && final(self).spec_sequence() == old(self).spec_sequence()),
            old(self).spec_step() < old(self).spec_total_steps() && old(self).spec_frame_counter()
                + 1 >= old(self).spec_frames_per_step() ==> ((r matches AnimationState::Apply(f)
                && f.wf() && f.spec_width() == old(self).spec_width() && f.spec_height() == old(self).spec_height() && f.spec_color_bits() == old(self).spec_color_bits() && forall|
                x: int,
                y: int,
            |
                0 <= x < old(self).spec_width() && 0 <= y < old(self).spec_height()
                    ==> #[trigger] f.spec_pixel(x, y) == spec_output_pixel(
                    old(self).spec_data(),
                    old(self).spec_effect(),
                    old(self).spec_frame_index() as int,
                    old(self).spec_sequence(),
                    x,
                    y,
                    old(self).spec_width(),
                    old(self).spec_height(),
                    old(self).spec_color_bits(),
                )) && final(self).spec_frame_counter() == 0 && final(self).spec_step() == old(self).spec_step() + 1),
    {
        if self.step >= self.total_steps {
            return AnimationState::Done;
        }
        self.frame_counter = self.frame_counter + 1;
        if self.frame_counter < self.frames_per_step {
            return AnimationState::Wait;
        }
        self.frame_counter = 0;
        let frame = match self.generate_current_frame() {
            Ok(f) => f,
            Err(_) => {
                proof {
                    assert(false);
                }
                return AnimationState::Done;
            },
        };
        self.advance_step();
        AnimationState::Apply(frame)
    }
}

/// Slide boundaries: at sub-step 0 the output is exactly the current
/// frame; at sub-step `width - 1` column 0 shows the current frame's
/// last column and every other column `x` shows column `x - 1` of the
/// next frame.
pub proof fn lemma_slide_boundaries(
    data: AnimationData,
    k: int,
    x: int,
    y: int,
    width: usize,
    height: usize,
    color_bits: usize,
)
    requires
        0 <= x < width,
        0 <= y < height,
        width >= 1,
    ensures
        spec_output_pixel(data, AnimationEffect::Slide, k, 0, x, y, width, height, color_bits)
            == data.spec_data_pixel(k, x, y, width, height, color_bits),
        x == 0 ==> spec_output_pixel(
            data,
            AnimationEffect::Slide,
            k,
            (width - 1) as usize,
            x,
            y,
            width,
            height,
            color_bits,
        ) == data.spec_data_pixel(k, width - 1, y, width, height, color_bits),
        x >= 1 && k + 1 < data.spec_frame_count(width, height) ==> spec_output_pixel(
            data,
            AnimationEffect::Slide,
            k,
            (width - 1) as usize,
            x,
            y,
            width,
            height,
            color_bits,
        ) == data.spec_data_pixel(k + 1, x - 1, y, width, height, color_bits),
{
}

/// Fade envelope: at sub-step 0 the output is black, at sub-step 15 it
/// is black again, and the envelope peaks with factor 7 over 15 at
/// sub-steps 7 and 8.
pub proof fn lemma_fade_envelope(
    data: AnimationData,
    k: int,
    x: int,
    y: int,
    width: usize,
    height: usize,
    color_bits: usize,
)
    requires
        0 <= x < width,
        0 <= y < height,
        0 <= k < data.spec_frame_count(width, height),
        data.data_wf(width, height, color_bits),
        1 <= color_bits <= 8,
    ensures
        spec_output_pixel(data, AnimationEffect::Fade, k, 0, x, y, width, height, color_bits).bits
            == data.spec_data_pixel(k, x, y, width, height, color_bits).bits,
        spec_output_pixel(data, AnimationEffect::Fade, k, 0, x, y, width, height, color_bits).r
            == 0,
        spec_output_pixel(data, AnimationEffect::Fade, k, 0, x, y, width, height, color_bits).g
            == 0,
        spec_output_pixel(data, AnimationEffect::Fade, k, 0, x, y, width, height, color_bits).b
            == 0,
        spec_output_pixel(data, AnimationEffect::Fade, k, 15, x, y, width, height, color_bits).r
            == 0,
        spec_output_pixel(data, AnimationEffect::Fade, k, 15, x, y, width, height, color_bits).g
            == 0,
        spec_output_pixel(data, AnimationEffect::Fade, k, 15, x, y, width, height, color_bits).b
            == 0,
        spec_fade_factor(7) == 7,
        spec_fade_factor(8) == 7,
{
    let c = data.spec_data_pixel(k, x, y, width, height, color_bits);
    vstd::arithmetic::mul::lemma_mul_basics(c.r as int);
    vstd::arithmetic::mul::lemma_mul_basics(c.g as int);
    vstd::arithmetic::mul::lemma_mul_basics(c.b as int);
    assert(spec_fade_factor(0) == 0);
    assert(spec_fade_factor(15) == 0);
}

} // verus!
