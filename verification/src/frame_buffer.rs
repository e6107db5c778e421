//! Frame buffer management for HUB75 displays.
//!
//! A [`Hub75FrameBuffer`] owns a `width x height` grid of [`Hub75Color`]
//! pixels, created all-black. Dimensions and color depth are fixed at
//! construction; the grid is never resized afterwards. Pixel access is
//! bounds-checked, and the row bit-plane extractor yields, per column,
//! the six RGB bits of a row-pair at a given bit plane — the unit of one
//! shift-in pass over the panel.

use crate::color::Hub75Color;
use crate::Hub75Error;
use vstd::arithmetic::mul::{
    lemma_mul_inequality, lemma_mul_is_commutative, lemma_mul_is_distributive_add_other_way,
};
use vstd::prelude::*;

verus! {

/// Byte offsets in a row-major RGB stream stay inside the stream: for a
/// pixel inside the grid, its three bytes lie below `width * height * 3`.
pub(crate) proof fn lemma_byte_index_bound(x: int, y: int, w: int, h: int)
    requires
        0 <= x < w,
        0 <= y < h,
    ensures
        0 <= (y * w + x) * 3,
        (y * w + x) * 3 + 2 < w * h * 3,
        0 <= y * w,
{
    lemma_mul_is_distributive_add_other_way(w, y, 1);
    lemma_mul_inequality(y + 1, h, w);
    lemma_mul_is_commutative(h, w);
    vstd::arithmetic::mul::lemma_mul_nonnegative(y, w);
    lemma_mul_inequality(y * w + x, w * h - 1, 3);
}

/// A pixel strictly before `(x, y)` in row-major order keeps its three
/// bytes strictly below the offset of `(x, y)`.
proof fn lemma_lex_index(i: int, j: int, x: int, y: int, w: int)
    requires
        0 <= i < w,
        0 <= j,
        0 <= x,
        j < y || (j == y && i < x),
    ensures
        (j * w + i) * 3 + 2 < (y * w + x) * 3,
{
    if j < y {
        lemma_mul_is_distributive_add_other_way(w, j, 1);
        lemma_mul_inequality(j + 1, y, w);
    }
    lemma_mul_inequality(j * w + i, y * w + x - 1, 3);
}

/// Dimensions a frame buffer accepts: a channel depth between 1 and 8,
/// and a raw RGB byte count (`width * height * 3`) that fits in `usize`.
pub open spec fn valid_dims(width: usize, height: usize, color_bits: usize) -> bool {
    &&& 1 <= color_bits <= 8
    &&& width * height * 3 <= usize::MAX
}

/// Frame buffer for storing pixel data.
#[derive(Debug)]
pub struct Hub75FrameBuffer {
    /// Display width in pixels
    width: usize,
    /// Display height in pixels
    height: usize,
    /// Channel depth of every pixel
    color_bits: usize,
    /// Pixel data stored row by row
    pixels: Vec<Vec<Hub75Color>>,
}

impl Hub75FrameBuffer {
    /// Width in pixels.
    pub closed spec fn spec_width(&self) -> usize {
        self.width
    }

    /// Height in pixels.
    pub closed spec fn spec_height(&self) -> usize {
        self.height
    }

    /// Channel depth in bits.
    pub closed spec fn spec_color_bits(&self) -> usize {
        self.color_bits
    }

    /// The pixels of row `y`.
    pub closed spec fn spec_row(&self, y: int) -> Seq<Hub75Color> {
        self.pixels@[y]@
    }

    /// The pixel at column `x` of row `y`.
    pub open spec fn spec_pixel(&self, x: int, y: int) -> Hub75Color {
        self.spec_row(y)[x]
    }

    /// The grid is rectangular with the stated dimensions and every pixel
    /// is a well-formed color of the buffer's depth.
    pub closed spec fn grid_wf(&self) -> bool {
        &&& self.pixels@.len() == self.height
        &&& forall|y: int| 0 <= y < self.height ==> (#[trigger] self.pixels@[y])@.len() == self.width
    }

    /// Well-formedness: valid dimensions, a rectangular grid, and every
    /// pixel a well-formed color of the buffer's depth.
    pub open spec fn wf(&self) -> bool {
        &&& valid_dims(self.spec_width(), self.spec_height(), self.spec_color_bits())
        &&& self.grid_wf()
        &&& forall|x: int, y: int|
            0 <= x < self.spec_width() && 0 <= y < self.spec_height() ==> (
            #[trigger] self.spec_pixel(x, y)).wf() && self.spec_pixel(x, y).bits
                == self.spec_color_bits()
    }

    /// Every pixel holds the given color.
    pub open spec fn is_filled(&self, c: Hub75Color) -> bool {
        forall|x: int, y: int|
            0 <= x < self.spec_width() && 0 <= y < self.spec_height() ==> #[trigger] self.spec_pixel(
                x,
                y,
            ) == c
    }

    /// `post` is `pre` with the pixel at `(x, y)` set to `color` and
    /// nothing else changed (vacuous about `(x, y)` when out of bounds).
    pub open spec fn spec_written(
        pre: Hub75FrameBuffer,
        post: Hub75FrameBuffer,
        x: usize,
        y: usize,
        color: Hub75Color,
    ) -> bool {
        &&& post.spec_width() == pre.spec_width()
        &&& post.spec_height() == pre.spec_height()
        &&& post.spec_color_bits() == pre.spec_color_bits()
        &&& (x < pre.spec_width() && y < pre.spec_height() ==> post.spec_pixel(x as int, y as int)
            == color)
        &&& forall|xi: int, yi: int|
            0 <= xi < pre.spec_width() && 0 <= yi < pre.spec_height() && !(xi == x && yi == y)
                ==> #[trigger] post.spec_pixel(xi, yi) == pre.spec_pixel(xi, yi)
    }

    /// Two buffers agree in dimensions, depth and every pixel.
    pub open spec fn congruent(&self, other: &Self) -> bool {
        &&& self.spec_width() == other.spec_width()
        &&& self.spec_height() == other.spec_height()
        &&& self.spec_color_bits() == other.spec_color_bits()
        &&& forall|x: int, y: int|
            0 <= x < self.spec_width() && 0 <= y < self.spec_height() ==> #[trigger] self.spec_pixel(
                x,
                y,
            ) == other.spec_pixel(x, y)
    }

    /// A rectangular grid of the given dimensions holding one color everywhere.
    fn filled_rows(width: usize, height: usize, color: Hub75Color) -> (rows: Vec<
        Vec<Hub75Color>,
    >)
        ensures
            rows@.len() == height,
            forall|y: int| 0 <= y < height ==> (#[trigger] rows@[y])@.len() == width,
            forall|x: int, y: int|
                0 <= x < width && 0 <= y < height ==> #[trigger] rows@[y]@[x] == color,
    {
        let mut rows: Vec<Vec<Hub75Color>> = Vec::new();
        let mut y: usize = 0;
        while y < height
            invariant
                y <= height,
                rows@.len() == y,
                forall|j: int| 0 <= j < y ==> (#[trigger] rows@[j])@.len() == width,
                forall|i: int, j: int|
                    0 <= i < width && 0 <= j < y ==> #[trigger] rows@[j]@[i] == color,
            decreases height - y,
        {
            let mut row: Vec<Hub75Color> = Vec::new();
            let mut x: usize = 0;
            while x < width
                invariant
                    x <= width,
                    row@.len() == x,
                    forall|i: int| 0 <= i < x ==> #[trigger] row@[i] == color,
                decreases width - x,
            {
                row.push(color);
                x += 1;
            }
            rows.push(row);
            y += 1;
        }
        rows
    }

    /// Create a new frame buffer filled with black pixels.
    pub fn new(width: usize, height: usize, color_bits: usize) -> (fb: Self)
        requires
            valid_dims(width, height, color_bits),
        ensures
            fb.wf(),
            fb.spec_width() == width,
            fb.spec_height() == height,
            fb.spec_color_bits() == color_bits,
            fb.is_filled(Hub75Color { bits: color_bits, r: 0, g: 0, b: 0 }),
    {
        let black = Hub75Color::black(color_bits);
        let rows = Self::filled_rows(width, height, black);
        Self { width, height, color_bits, pixels: rows }
    }

    /// Fill the entire frame buffer with a single color.
    pub fn fill(&mut self, color: Hub75Color)
        requires
            old(self).wf(),
            color.wf(),
            color.bits == old(self).spec_color_bits(),
        ensures
            final(self).wf(),
            final(self).spec_width() == old(self).spec_width(),
            final(self).spec_height() == old(self).spec_height(),
            final(self).spec_color_bits() == old(self).spec_color_bits(),
            final(self).is_filled(color),
    {
        let rows = Self::filled_rows(self.width, self.height, color);
        self.pixels = rows;
    }

    /// Clear the frame buffer (set all pixels to black).
    pub fn clear(&mut self)
        requires
            old(self).wf(),
        ensures
            final(self).wf(),
            final(self).spec_width() == old(self).spec_width(),
            final(self).spec_height() == old(self).spec_height(),
            final(self).spec_color_bits() == old(self).spec_color_bits(),
            final(self).is_filled(
                Hub75Color { bits: old(self).spec_color_bits(), r: 0, g: 0, b: 0 },
            ),
    {
        let black = Hub75Color::black(self.color_bits);
        self.fill(black);
    }

    /// Set a pixel at the specified coordinates.
    ///
    /// Returns `InvalidCoordinates` exactly when the coordinates lie
    /// outside the grid; otherwise only the addressed pixel changes.
    pub fn set_pixel(&mut self, x: usize, y: usize, color: Hub75Color) -> (r: Result<
        (),
        Hub75Error,
    >)
        requires
            old(self).wf(),
            color.wf(),
            color.bits == old(self).spec_color_bits(),
        ensures
            final(self).wf(),
            final(self).spec_width() == old(self).spec_width(),
            final(self).spec_height() == old(self).spec_height(),
            final(self).spec_color_bits() == old(self).spec_color_bits(),
            x < old(self).spec_width() && y < old(self).spec_height() ==> r == Ok::<
                (),
                Hub75Error,
            >(()) && final(self).spec_pixel(x as int, y as int) == color,
            !(x < old(self).spec_width() && y < old(self).spec_height()) ==> r == Err::<
                (),
                Hub75Error,
            >(Hub75Error::InvalidCoordinates) && *final(self) == *old(self),
            forall|xi: int, yi: int|
                0 <= xi < old(self).spec_width() && 0 <= yi < old(self).spec_height() && !(xi == x
                    && yi == y) ==> #[trigger] final(self).spec_pixel(xi, yi) == old(self).spec_pixel(xi, yi),
    {
        if x >= self.width || y >= self.height {
            return Err(Hub75Error::InvalidCoordinates);
        }
        self.pixels[y][x] = color;
        proof {
            assert(self.pixels@ == old(self).pixels@.update(
                y as int,
                self.pixels@[y as int],
            ));
            assert(self.pixels@[y as int]@ == old(self).pixels@[y as int]@.update(
                x as int,
                color,
            ));
            assert forall|xi: int, yi: int|
                0 <= xi < self.width && 0 <= yi < self.height implies {
                &&& (#[trigger] self.spec_pixel(xi, yi)).wf()
                &&& self.spec_pixel(xi, yi).bits == self.color_bits
                &&& !(xi == x && yi == y) ==> self.spec_pixel(xi, yi) == old(self).spec_pixel(
                    xi,
                    yi,
                )
            } by {
                assert(old(self).spec_pixel(xi, yi).wf());
                if yi != y {
                    assert(self.pixels@[yi] == old(self).pixels@[yi]);
                }
            };
        }
        Ok(())
    }

    /// Get a pixel at the specified coordinates.
    ///
    /// Returns `InvalidCoordinates` exactly when the coordinates lie
    /// outside the grid.
    pub fn get_pixel(&self, x: usize, y: usize) -> (r: Result<Hub75Color, Hub75Error>)
        requires
            self.wf(),
        ensures
            x < self.spec_width() && y < self.spec_height() ==> r == Ok::<
                Hub75Color,
                Hub75Error,
            >(self.spec_pixel(x as int, y as int)),
            !(x < self.spec_width() && y < self.spec_height()) ==> r == Err::<
                Hub75Color,
                Hub75Error,
            >(Hub75Error::InvalidCoordinates),
    {
        if x >= self.width || y >= self.height {
            return Err(Hub75Error::InvalidCoordinates);
        }
        Ok(self.pixels[y][x])
    }

    /// Get the width of the frame buffer.
    pub fn width(&self) -> (r: usize)
        ensures
            r == self.spec_width(),
    {
        self.width
    }

    /// Get the height of the frame buffer.
    pub fn height(&self) -> (r: usize)
        ensures
            r == self.spec_height(),
    {
        self.height
    }

    /// Get the color bit depth.
    pub fn color_bits(&self) -> (r: usize)
        ensures
            r == self.spec_color_bits(),
    {
        self.color_bits
    }

    /// Get a row of pixels for efficient scanning.
    ///
    /// Returns `InvalidCoordinates` exactly when the row index is out of
    /// range.
    pub fn get_row(&self, y: usize) -> (r: Result<&Vec<Hub75Color>, Hub75Error>)
        requires
            self.wf(),
        ensures
            y < self.spec_height() ==> (r matches Ok(row) && row@ == self.spec_row(y as int)),
            y >= self.spec_height() ==> (r matches Err(e) && e == Hub75Error::InvalidCoordinates),
    {
        if y >= self.height {
            return Err(Hub75Error::InvalidCoordinates);
        }
        Ok(&self.pixels[y])
    }

    /// Get a mutable row of pixels for efficient modification.
    ///
    /// The caller must keep the row's length and its pixels' depth intact,
    /// as stated by `wf`, before using the buffer further.
    pub fn get_row_mut(&mut self, y: usize) -> (r: &mut Vec<Hub75Color>)
        requires
            old(self).wf(),
            y < old(self).spec_height(),
        ensures
            (*r)@ == old(self).spec_row(y as int),
            final(self).spec_width() == old(self).spec_width(),
            final(self).spec_height() == old(self).spec_height(),
            final(self).spec_color_bits() == old(self).spec_color_bits(),
            final(self).spec_row(y as int) == final(r)@,
            forall|yi: int|
                0 <= yi < old(self).spec_height() && yi != y ==> #[trigger] final(self).spec_row(yi)
                    == old(self).spec_row(yi),
    {
        &mut self.pixels[y]
    }

    /// A buffer whose rows equal those of a well-formed buffer of the
    /// same shape is itself well-formed and congruent to it.
    proof fn lemma_congruent_from_rows(a: &Hub75FrameBuffer, b: &Hub75FrameBuffer)
        requires
            b.wf(),
            a.width == b.width,
            a.height == b.height,
            a.color_bits == b.color_bits,
            a.pixels@.len() == b.pixels@.len(),
            forall|j: int| 0 <= j < b.pixels@.len() ==> (#[trigger] a.pixels@[j])@ == b.pixels@[j]@,
        ensures
            a.wf(),
            a.congruent(b),
    {
        assert forall|y: int| 0 <= y < a.height implies (#[trigger] a.pixels@[y])@.len()
            == a.width by {
            assert(a.pixels@[y]@ == b.pixels@[y]@);
            assert(b.pixels@[y]@.len() == b.width);
        };
        assert forall|x: int, y: int|
            0 <= x < a.spec_width() && 0 <= y < a.spec_height() implies (#[trigger] a.spec_pixel(
            x,
            y,
        )) == b.spec_pixel(x, y) && a.spec_pixel(x, y).wf() && a.spec_pixel(x, y).bits
            == a.color_bits by {
            assert(a.pixels@[y]@ == b.pixels@[y]@);
            assert(b.spec_pixel(x, y).wf() && b.spec_pixel(x, y).bits == b.spec_color_bits());
        };
    }

    /// A fresh grid holding the same rows as the given one.
    fn cloned_rows(src: &Vec<Vec<Hub75Color>>) -> (rows: Vec<Vec<Hub75Color>>)
        ensures
            rows@.len() == src@.len(),
            forall|j: int| 0 <= j < src@.len() ==> (#[trigger] rows@[j])@ == src@[j]@,
    {
        let mut rows: Vec<Vec<Hub75Color>> = Vec::new();
        let mut y: usize = 0;
        while y < src.len()
            invariant
                y <= src@.len(),
                rows@.len() == y,
                forall|j: int| 0 <= j < y ==> (#[trigger] rows@[j])@ == src@[j]@,
            decreases src@.len() - y,
        {
            let src_row = &src[y];
            let mut row: Vec<Hub75Color> = Vec::new();
            let mut x: usize = 0;
            while x < src_row.len()
                invariant
                    x <= src_row@.len(),
                    row@.len() == x,
                    forall|i: int| 0 <= i < x ==> #[trigger] row@[i] == src_row@[i],
                decreases src_row@.len() - x,
            {
                row.push(src_row[x]);
                x += 1;
            }
            proof {
                assert(row@ =~= src@[y as int]@);
            }
            rows.push(row);
            y += 1;
        }
        rows
    }

    /// Copy data from another frame buffer of the same shape.
    pub fn copy_from(&mut self, other: &Self)
        requires
            old(self).wf(),
            other.wf(),
            old(self).spec_width() == other.spec_width(),
            old(self).spec_height() == other.spec_height(),
            old(self).spec_color_bits() == other.spec_color_bits(),
        ensures
            final(self).wf(),
            final(self).spec_width() == old(self).spec_width(),
            final(self).spec_height() == old(self).spec_height(),
            final(self).spec_color_bits() == old(self).spec_color_bits(),
            final(self).congruent(other),
    {
        let rows = Self::cloned_rows(&other.pixels);
        self.pixels = rows;
        proof {
            Self::lemma_congruent_from_rows(self, other);
        }
    }

    /// The six RGB bits one column contributes to a shift-in pass: the
    /// first three from pixel `(x, row)`, the last three from its paired
    /// lower-half pixel `(x, row + height/2)`, both at the given plane.
    pub open spec fn spec_row_bit_entry(&self, row: usize, plane: usize, x: int) -> (
        bool,
        bool,
        bool,
        bool,
        bool,
        bool,
    ) {
        let upper = self.spec_pixel(x, row as int).spec_get_bit(plane);
        let lower = self.spec_pixel(x, row + self.spec_height() / 2).spec_get_bit(plane);
        (upper.0, upper.1, upper.2, lower.0, lower.1, lower.2)
    }

    /// Get RGB bit values for a specific row pair and bit plane, one
    /// six-bit entry per column.
    ///
    /// Returns `InvalidCoordinates` when the row is not below `height/2`,
    /// and `InvalidColor` when the plane is not below the color depth.
    pub fn get_row_bit_plane(&self, row: usize, bit_plane: usize) -> (r: Result<
        Vec<(bool, bool, bool, bool, bool, bool)>,
        Hub75Error,
    >)
        requires
            self.wf(),
        ensures
            row >= self.spec_height() / 2 ==> (r matches Err(e) && e
                == Hub75Error::InvalidCoordinates),
            row < self.spec_height() / 2 && bit_plane >= self.spec_color_bits() ==> (r matches Err(
                e,
            ) && e == Hub75Error::InvalidColor),
            row < self.spec_height() / 2 && bit_plane < self.spec_color_bits() ==> (r matches Ok(v)
                && v@.len() == self.spec_width() && forall|x: int|
                0 <= x < self.spec_width() ==> #[trigger] v@[x] == self.spec_row_bit_entry(
                    row,
                    bit_plane,
                    x,
                )),
    {
        if row >= self.height / 2 {
            return Err(Hub75Error::InvalidCoordinates);
        }
        if bit_plane >= self.color_bits {
            return Err(Hub75Error::InvalidColor);
        }
        let half = self.height / 2;
        let mut result: Vec<(bool, bool, bool, bool, bool, bool)> = Vec::new();
        let mut x: usize = 0;
        while x < self.width
            invariant
                self.wf(),
                row < self.spec_height() / 2,
                bit_plane < self.spec_color_bits(),
                half == self.spec_height() / 2,
                x <= self.spec_width(),
                result@.len() == x,
                forall|i: int|
                    0 <= i < x ==> #[trigger] result@[i] == self.spec_row_bit_entry(
                        row,
                        bit_plane,
                        i,
                    ),
            decreases self.spec_width() - x,
        {
            proof {
                assert(self.spec_pixel(x as int, row as int).wf());
                assert(self.spec_pixel(x as int, row + half).wf());
            }
            let upper_pixel = self.pixels[row][x];
            let lower_pixel = self.pixels[row + half][x];
            let (upper_r, upper_g, upper_b) = upper_pixel.get_bit(bit_plane);
            let (lower_r, lower_g, lower_b) = lower_pixel.get_bit(bit_plane);
            result.push((upper_r, upper_g, upper_b, lower_r, lower_g, lower_b));
            x += 1;
        }
        Ok(result)
    }

    /// The color a row-major RGB byte stream holds for pixel `(x, y)`.
    pub open spec fn spec_rgb_data_pixel(
        data: Seq<u8>,
        width: usize,
        color_bits: usize,
        x: int,
        y: int,
    ) -> Hub75Color {
        let idx = (y * width + x) * 3;
        Hub75Color::spec_from_rgb8(color_bits, data[idx], data[idx + 1], data[idx + 2])
    }

    /// Create a frame buffer from raw RGB data, mapped row-major (y
    /// outer, x inner, RGB triplets) through the 8-bit scaling rule.
    ///
    /// Returns `InvalidColor` exactly when the byte count is not
    /// `width * height * 3`.
    pub fn from_rgb_data(data: &[u8], width: usize, height: usize, color_bits: usize) -> (r:
        Result<Self, Hub75Error>)
        requires
            valid_dims(width, height, color_bits),
        ensures
            data@.len() != width * height * 3 ==> (r matches Err(e) && e
                == Hub75Error::InvalidColor),
            data@.len() == width * height * 3 ==> (r matches Ok(fb) && fb.wf() && fb.spec_width()
                == width && fb.spec_height() == height && fb.spec_color_bits() == color_bits
                && forall|x: int, y: int|
                0 <= x < width && 0 <= y < height ==> #[trigger] fb.spec_pixel(x, y)
                    == Self::spec_rgb_data_pixel(data@, width, color_bits, x, y)),
    {
        let expected = width * height * 3;
        if data.len() != expected {
            return Err(Hub75Error::InvalidColor);
        }
        let mut rows: Vec<Vec<Hub75Color>> = Vec::new();
        let mut y: usize = 0;
        while y < height
            invariant
                valid_dims(width, height, color_bits),
                data@.len() == width * height * 3,
                y <= height,
                rows@.len() == y,
                forall|j: int| 0 <= j < y ==> (#[trigger] rows@[j])@.len() == width,
                forall|i: int, j: int|
                    0 <= i < width && 0 <= j < y ==> (#[trigger] rows@[j]@[i])
                        == Self::spec_rgb_data_pixel(data@, width, color_bits, i, j)
                        && rows@[j]@[i].wf() && rows@[j]@[i].bits == color_bits,
            decreases height - y,
        {
            let mut row: Vec<Hub75Color> = Vec::new();
            let mut x: usize = 0;
            while x < width
                invariant
                    valid_dims(width, height, color_bits),
                    data@.len() == width * height * 3,
                    y < height,
                    x <= width,
                    row@.len() == x,
                    forall|i: int|
                        0 <= i < x ==> (#[trigger] row@[i]) == Self::spec_rgb_data_pixel(
                            data@,
                            width,
                            color_bits,
                            i,
                            y as int,
                        ) && row@[i].wf() && row@[i].bits == color_bits,
                decreases width - x,
            {
                proof {
                    lemma_byte_index_bound(x as int, y as int, width as int, height as int);
                }
                let idx = (y * width + x) * 3;
                let c = Hub75Color::from_rgb8(color_bits, data[idx], data[idx + 1], data[idx + 2]);
                row.push(c);
                x += 1;
            }
            rows.push(row);
            y += 1;
        }
        let fb = Hub75FrameBuffer { width, height, color_bits, pixels: rows };
        Ok(fb)
    }

    /// Convert the frame buffer to raw RGB data: `width * height * 3`
    /// bytes, row-major, each pixel through the 8-bit scaling rule.
    pub fn to_rgb_data(&self) -> (data: Vec<u8>)
        requires
            self.wf(),
        ensures
            data@.len() == self.spec_width() * self.spec_height() * 3,
            forall|x: int, y: int|
                0 <= x < self.spec_width() && 0 <= y < self.spec_height() ==> {
                    let t = Hub75Color::spec_to_rgb8(#[trigger] self.spec_pixel(x, y));
                    let idx = (y * self.spec_width() + x) * 3;
                    data@[idx] == t.0 && data@[idx + 1] == t.1 && data@[idx + 2] == t.2
                },
    {
        let width = self.width;
        let height = self.height;
        let mut data: Vec<u8> = Vec::new();
        let mut y: usize = 0;
        while y < height
            invariant
                self.wf(),
                width == self.spec_width(),
                height == self.spec_height(),
                y <= height,
                data@.len() == y * width * 3,
                forall|i: int, j: int|
                    0 <= i < width && 0 <= j < y ==> {
                        let t = Hub75Color::spec_to_rgb8(#[trigger] self.spec_pixel(i, j));
                        let idx = (j * width + i) * 3;
                        data@[idx] == t.0 && data@[idx + 1] == t.1 && data@[idx + 2] == t.2
                    },
            decreases height - y,
        {
            let mut x: usize = 0;
            while x < width
                invariant
                    self.wf(),
                    width == self.spec_width(),
                    height == self.spec_height(),
                    y < height,
                    x <= width,
                    data@.len() == (y * width + x) * 3,
                    forall|i: int, j: int|
                        0 <= i < width && (0 <= j < y || (j == y && 0 <= i < x)) ==> {
                            let t = Hub75Color::spec_to_rgb8(#[trigger] self.spec_pixel(i, j));
                            let idx = (j * width + i) * 3;
                            data@[idx] == t.0 && data@[idx + 1] == t.1 && data@[idx + 2] == t.2
                        },
                decreases width - x,
            {
                proof {
                    lemma_byte_index_bound(x as int, y as int, width as int, height as int);
                    assert(self.spec_pixel(x as int, y as int).wf());
                }
                let pixel = self.pixels[y][x];
                let (cr, cg, cb) = pixel.to_rgb8();
                data.push(cr);
                data.push(cg);
                data.push(cb);
                proof {
                    assert forall|i: int, j: int|
                        0 <= i < width && (0 <= j < y || (j == y && 0 <= i < x + 1)) implies {
                        let t = Hub75Color::spec_to_rgb8(#[trigger] self.spec_pixel(i, j));
                        let idx = (j * width + i) * 3;
                        data@[idx] == t.0 && data@[idx + 1] == t.1 && data@[idx + 2] == t.2
                    } by {
                        if j < y || (j == y && i < x) {
                            lemma_lex_index(i, j, x as int, y as int, width as int);
                        }
                    };
                }
                x += 1;
            }
            proof {
                lemma_mul_is_distributive_add_other_way(width as int, y as int, 1);
            }
            y += 1;
        }
        proof {
            lemma_mul_is_commutative(height as int, width as int);
        }
        data
    }

    /// Swap the contents of this frame buffer with another.
    pub fn swap(&mut self, other: &mut Self)
        ensures
            *final(self) == *old(other),
            *final(other) == *old(self),
    {
        core::mem::swap(self, other);
    }
}

/// Pixel writes round-trip: after a bounds-checked write of `color` at
/// `(x, y)` — the state relation `spec_written` that `set_pixel`
/// establishes — the written pixel reads back as `color`, exactly what
/// `get_pixel` returns there, and every other pixel reads as before.
pub proof fn lemma_set_get_roundtrip(
    pre: &Hub75FrameBuffer,
    post: &Hub75FrameBuffer,
    x: usize,
    y: usize,
    color: Hub75Color,
)
    requires
        x < pre.spec_width(),
        y < pre.spec_height(),
        Hub75FrameBuffer::spec_written(*pre, *post, x, y, color),
    ensures
        post.spec_pixel(x as int, y as int) == color,
        forall|xi: int, yi: int|
            0 <= xi < pre.spec_width() && 0 <= yi < pre.spec_height() && !(xi == x && yi == y)
                ==> #[trigger] post.spec_pixel(xi, yi) == pre.spec_pixel(xi, yi),
{
}

/// Filling determines the contents by dimensions and color alone, so a
/// second fill with the same color changes nothing: any two same-shaped
/// buffers that both satisfy `fill`'s postcondition for a color — the
/// state after one fill and the state after two — are congruent.
pub proof fn lemma_fill_idempotent(
    once: &Hub75FrameBuffer,
    twice: &Hub75FrameBuffer,
    c: Hub75Color,
)
    requires
        once.spec_width() == twice.spec_width(),
        once.spec_height() == twice.spec_height(),
        once.spec_color_bits() == twice.spec_color_bits(),
        once.is_filled(c),
        twice.is_filled(c),
    ensures
        once.congruent(twice),
{
}

impl Clone for Hub75FrameBuffer {
    /// A clone agrees with the original in dimensions, depth and every pixel.
    fn clone(&self) -> (r: Self)
        ensures
            self.wf() ==> r.wf() && r.congruent(self),
    {
        let r = Hub75FrameBuffer {
            width: self.width,
            height: self.height,
            color_bits: self.color_bits,
            pixels: Self::cloned_rows(&self.pixels),
        };
        proof {
            if self.wf() {
                Self::lemma_congruent_from_rows(&r, self);
            }
        }
        r
    }
}

} // verus!
