//! Core HUB75 display engine.
//!
//! The engine owns a front and a back frame buffer, the brightness, the
//! base tick duration and the scan cursor, and plans the panel's Binary
//! Code Modulation scanout: for every bit plane and every row pair it
//! emits the exact wire-protocol command sequence — output off, address,
//! one clock-pulsed column per pixel, latch, output on, and a hold whose
//! length doubles from each plane to the next, scaled by brightness.
//! An unverified shell drives real GPIO pins from these commands and
//! performs the holds.

use crate::color::Hub75Color;
use crate::frame_buffer::{valid_dims, Hub75FrameBuffer};
use crate::pins::{
    clock_pulse, disable_output, enable_output, latch_pulse, max_addressable_rows, set_address,
    set_rgb, spec_clock_pulse, spec_disable_output, spec_enable_output, spec_latch_pulse,
    spec_set_address, spec_set_rgb, PinCommand,
};
use crate::Hub75Error;
use vstd::prelude::*;

verus! {

/// Brightness level for the display.
#[derive(Debug, Clone, Copy, PartialEq, Eq, Structural)]
pub struct Brightness {
    /// The stored level (0 to 255)
    pub level: u8,
}

impl Brightness {
    /// The stored level.
    pub open spec fn spec_level(&self) -> u8 {
        self.level
    }

    /// Create a new brightness level (0-255).
    pub fn new(level: u8) -> (r: Self)
        ensures
            r.spec_level() == level,
    {
        Self { level }
    }

    /// Get the brightness level.
    pub fn level(&self) -> (r: u8)
        ensures
            r == self.spec_level(),
    {
        self.level
    }
}

impl Default for Brightness {
    /// Half brightness.
    fn default() -> (r: Self)
        ensures
            r.spec_level() == 128,
    {
        Self { level: 128 }
    }
}

impl core::ops::Add<u8> for Brightness {
    type Output = Brightness;

    /// Saturating addition on the level.
    fn add(self, rhs: u8) -> (r: Brightness) {
        if self.level > 255 - rhs {
            Brightness { level: 255 }
        } else {
            Brightness { level: self.level + rhs }
        }
    }
}

impl vstd::std_specs::ops::AddSpecImpl<u8> for Brightness {
    open spec fn obeys_add_spec() -> bool {
        true
    }

    open spec fn add_req(self, rhs: u8) -> bool {
        true
    }

    open spec fn add_spec(self, rhs: u8) -> Brightness {
        if self.level + rhs > 255 {
            Brightness { level: 255 }
        } else {
            Brightness { level: (self.level + rhs) as u8 }
        }
    }
}

impl core::ops::Sub<u8> for Brightness {
    type Output = Brightness;

    /// Saturating subtraction on the level.
    fn sub(self, rhs: u8) -> (r: Brightness) {
        if self.level < rhs {
            Brightness { level: 0 }
        } else {
            Brightness { level: self.level - rhs }
        }
    }
}

impl vstd::std_specs::ops::SubSpecImpl<u8> for Brightness {
    open spec fn obeys_sub_spec() -> bool {
        true
    }

    open spec fn sub_req(self, rhs: u8) -> bool {
        true
    }

    open spec fn sub_spec(self, rhs: u8) -> Brightness {
        if self.level < rhs {
            Brightness { level: 0 }
        } else {
            Brightness { level: (self.level - rhs) as u8 }
        }
    }
}

/// Panel configuration the engine accepts: 3 to 5 address pins, an even
/// height, and a half-height within reach of the address bus.
pub open spec fn spec_config_ok(height: usize, address_pin_count: usize) -> bool {
    &&& 3 <= address_pin_count <= 5
    &&& height % 2 == 0
    &&& height / 2 <= vstd::arithmetic::power2::pow2(address_pin_count as nat)
}

/// The BCM hold time of one bit plane, in nanoseconds:
/// `base_tick * 2^plane * brightness / 255`.
pub open spec fn spec_delay_ns(base: u32, level: u8, plane: usize) -> int {
    base * vstd::arithmetic::power2::pow2(plane as nat) * level / 255
}

/// The commands that shift one column into the panel: the six RGB levels
/// of the row pair's bits at the plane, then a clock pulse.
pub open spec fn spec_column_commands(
    fb: Hub75FrameBuffer,
    row: usize,
    plane: usize,
    x: int,
) -> Seq<PinCommand> {
    let e = fb.spec_row_bit_entry(row, plane, x);
    spec_set_rgb(e.0, e.1, e.2, e.3, e.4, e.5) + spec_clock_pulse()
}

/// The shift commands of the first `n` columns, in column order.
pub open spec fn spec_shift_commands(
    fb: Hub75FrameBuffer,
    row: usize,
    plane: usize,
    n: int,
) -> Seq<PinCommand>
    decreases n,
{
    if n <= 0 {
        Seq::empty()
    } else {
        spec_shift_commands(fb, row, plane, n - 1) + spec_column_commands(fb, row, plane, n - 1)
    }
}

/// One complete bit-plane pass over a row pair: output off, address set,
/// every column shifted, latch, output on.
pub open spec fn spec_bit_plane_commands(
    fb: Hub75FrameBuffer,
    row: usize,
    plane: usize,
    pin_count: usize,
) -> Seq<PinCommand> {
    spec_disable_output() + spec_set_address(row, pin_count) + spec_shift_commands(
        fb,
        row,
        plane,
        fb.spec_width() as int,
    ) + spec_latch_pulse() + spec_enable_output()
}

/// A bit-plane pass followed by its BCM hold and output off again.
pub open spec fn spec_row_pass_commands(
    fb: Hub75FrameBuffer,
    row: usize,
    plane: usize,
    pin_count: usize,
    base: u32,
    level: u8,
) -> Seq<PinCommand> {
    spec_bit_plane_commands(fb, row, plane, pin_count) + seq![
        PinCommand::SleepNs(spec_delay_ns(base, level, plane) as u64),
    ] + spec_disable_output()
}

/// The passes of the first `nrows` row pairs of one bit plane.
pub open spec fn spec_rows_commands(
    fb: Hub75FrameBuffer,
    plane: usize,
    pin_count: usize,
    base: u32,
    level: u8,
    nrows: int,
) -> Seq<PinCommand>
    decreases nrows,
{
    if nrows <= 0 {
        Seq::empty()
    } else {
        spec_rows_commands(fb, plane, pin_count, base, level, nrows - 1) + spec_row_pass_commands(
            fb,
            (nrows - 1) as usize,
            plane,
            pin_count,
            base,
            level,
        )
    }
}

/// The full frame schedule of the first `nplanes` bit planes: planes
/// outermost, row pairs inner, columns innermost.
pub open spec fn spec_planes_commands(
    fb: Hub75FrameBuffer,
    pin_count: usize,
    base: u32,
    level: u8,
    nplanes: int,
) -> Seq<PinCommand>
    decreases nplanes,
{
    if nplanes <= 0 {
        Seq::empty()
    } else {
        spec_planes_commands(fb, pin_count, base, level, nplanes - 1) + spec_rows_commands(
            fb,
            (nplanes - 1) as usize,
            pin_count,
            base,
            level,
            fb.spec_height() as int / 2,
        )
    }
}

/// The total BCM hold time of the first `nplanes` bit planes of a frame.
pub open spec fn spec_frame_time_ns(base: u32, level: u8, nplanes: int) -> int
    decreases nplanes,
{
    if nplanes <= 0 {
        0
    } else {
        spec_frame_time_ns(base, level, nplanes - 1) + spec_delay_ns(
            base,
            level,
            (nplanes - 1) as usize,
        )
    }
}

/// Main HUB75 display engine with runtime-chosen dimensions and depth.
///
/// Owns a front buffer (scanned out) and a back buffer (drawn into when
/// double buffering is on), the brightness, the base tick, and the scan
/// cursor. Pixel writes land in the back buffer when double buffering is
/// on, else directly in the front buffer; reads come from the front.
pub struct Hub75Display {
    /// Buffer the scanout reads
    front_buffer: Hub75FrameBuffer,
    /// Buffer drawing lands in while double buffering is on
    back_buffer: Hub75FrameBuffer,
    /// Row pair of the bit-plane pass emitted last
    current_row: usize,
    /// Bit plane of the pass emitted last
    current_bit_plane: usize,
    /// Display brightness
    brightness: Brightness,
    /// Base tick: the hold time of plane 0 at full brightness, in ns
    refresh_interval_ns: u32,
    /// Whether drawing and scanout use separate buffers
    double_buffering: bool,
    /// Address pins the panel's bus has (3 to 5)
    address_pin_count: usize,
}

impl Hub75Display {
    /// The buffer the scanout reads.
    pub closed spec fn spec_front(&self) -> Hub75FrameBuffer {
        self.front_buffer
    }

    /// The buffer drawing lands in while double buffering is on.
    pub closed spec fn spec_back(&self) -> Hub75FrameBuffer {
        self.back_buffer
    }

    /// Row pair of the bit-plane pass emitted last.
    pub closed spec fn spec_current_row(&self) -> usize {
        self.current_row
    }

    /// Bit plane of the pass emitted last.
    pub closed spec fn spec_current_bit_plane(&self) -> usize {
        self.current_bit_plane
    }

    /// The display brightness.
    pub closed spec fn spec_brightness(&self) -> Brightness {
        self.brightness
    }

    /// The base tick in nanoseconds.
    pub closed spec fn spec_refresh_interval_ns(&self) -> u32 {
        self.refresh_interval_ns
    }

    /// Whether double buffering is on.
    pub closed spec fn spec_double_buffering(&self) -> bool {
        self.double_buffering
    }

    /// The number of address pins of the panel's bus.
    pub closed spec fn spec_address_pins(&self) -> usize {
        self.address_pin_count
    }

    /// Both buffers are well-formed, share one shape, and the panel
    /// configuration is acceptable.
    pub open spec fn wf(&self) -> bool {
        &&& self.spec_front().wf()
        &&& self.spec_back().wf()
        &&& self.spec_back().spec_width() == self.spec_front().spec_width()
        &&& self.spec_back().spec_height() == self.spec_front().spec_height()
        &&& self.spec_back().spec_color_bits() == self.spec_front().spec_color_bits()
        &&& spec_config_ok(self.spec_front().spec_height(), self.spec_address_pins())
    }

    /// The two states agree on everything but the two buffers.
    pub open spec fn same_config(a: &Self, b: &Self) -> bool {
        &&& a.spec_current_row() == b.spec_current_row()
        &&& a.spec_current_bit_plane() == b.spec_current_bit_plane()
        &&& a.spec_brightness() == b.spec_brightness()
        &&& a.spec_refresh_interval_ns() == b.spec_refresh_interval_ns()
        &&& a.spec_double_buffering() == b.spec_double_buffering()
        &&& a.spec_address_pins() == b.spec_address_pins()
    }

    /// The two states agree on both buffers.
    pub open spec fn same_buffers(a: &Self, b: &Self) -> bool {
        &&& a.spec_front() == b.spec_front()
        &&& a.spec_back() == b.spec_back()
    }

    /// Create a new display engine.
    ///
    /// Both buffers start all-black, brightness at 128, the base tick at
    /// 100 microseconds, double buffering off. Fails with
    /// `InvalidCoordinates` exactly when the panel configuration is not
    /// acceptable: fewer than 3 or more than 5 address pins, an odd
    /// height, or more row pairs than the address bus can select.
    pub fn new(width: usize, height: usize, color_bits: usize, address_pin_count: usize) -> (r:
        Result<Self, Hub75Error>)
        requires
            valid_dims(width, height, color_bits),
        ensures
            !spec_config_ok(height, address_pin_count) ==> (r matches Err(e) && e
                == Hub75Error::InvalidCoordinates),
            spec_config_ok(height, address_pin_count) ==> (r matches Ok(d) && d.wf()
                && d.spec_front().spec_width() == width && d.spec_front().spec_height() == height
                && d.spec_front().spec_color_bits() == color_bits && d.spec_front().is_filled(
                Hub75Color { bits: color_bits, r: 0, g: 0, b: 0 },
            ) && d.spec_back().is_filled(Hub75Color { bits: color_bits, r: 0, g: 0, b: 0 })
                && d.spec_current_row() == 0 && d.spec_current_bit_plane() == 0
                && d.spec_brightness().spec_level() == 128 && d.spec_refresh_interval_ns()
                == 100_000 && !d.spec_double_buffering() && d.spec_address_pins()
                == address_pin_count),
    {
        if address_pin_count < 3 || address_pin_count > 5 {
            return Err(Hub75Error::InvalidCoordinates);
        }
        let max_rows = max_addressable_rows(address_pin_count);
        if height % 2 != 0 || height / 2 > max_rows {
            return Err(Hub75Error::InvalidCoordinates);
        }
        Ok(
            Self {
                front_buffer: Hub75FrameBuffer::new(width, height, color_bits),
                back_buffer: Hub75FrameBuffer::new(width, height, color_bits),
                current_row: 0,
                current_bit_plane: 0,
                brightness: Brightness::new(128),
                refresh_interval_ns: 100_000,
                double_buffering: false,
                address_pin_count,
            },
        )
    }

    /// Enable or disable double buffering.
    pub fn set_double_buffering(&mut self, enabled: bool)
        requires
            old(self).wf(),
        ensures
            final(self).wf(),
            final(self).spec_double_buffering() == enabled,
            Self::same_buffers(final(self), old(self)),
            final(self).spec_current_row() == old(self).spec_current_row(),
            final(self).spec_current_bit_plane() == old(self).spec_current_bit_plane(),
            final(self).spec_brightness() == old(self).spec_brightness(),
            final(self).spec_refresh_interval_ns() == old(self).spec_refresh_interval_ns(),
            final(self).spec_address_pins() == old(self).spec_address_pins(),
    {
        self.double_buffering = enabled;
    }

    /// Swap front and back buffers; a no-op when double buffering is off.
    pub fn swap_buffers(&mut self)
        requires
            old(self).wf(),
        ensures
            final(self).wf(),
            Self::same_config(final(self), old(self)),
            old(self).spec_double_buffering() ==> (final(self).spec_front() == old(self).spec_back()
                && final(self).spec_back() == old(self).spec_front()),
            !old(self).spec_double_buffering() ==> *final(self) == *old(self),
    {
        if self.double_buffering {
            self.front_buffer.swap(&mut self.back_buffer);
        }
    }

    /// The buffer drawing should land in: the back buffer when double
    /// buffering is on, otherwise the front buffer itself.
    pub fn back_buffer(&mut self) -> (r: &mut Hub75FrameBuffer)
        ensures
            old(self).spec_double_buffering() ==> (*r == old(self).spec_back()
                && final(self).spec_back() == *final(r)
                && final(self).spec_front() == old(self).spec_front()),
            !old(self).spec_double_buffering() ==> (*r == old(self).spec_front()
                && final(self).spec_front() == *final(r)
                && final(self).spec_back() == old(self).spec_back()),
            Self::same_config(final(self), old(self)),
    {
        if self.double_buffering {
            &mut self.back_buffer
        } else {
            &mut self.front_buffer
        }
    }

    /// The buffer currently displayed.
    pub fn front_buffer(&self) -> (r: &Hub75FrameBuffer)
        ensures
            *r == self.spec_front(),
    {
        &self.front_buffer
    }

    /// Set the display brightness.
    pub fn set_brightness(&mut self, brightness: Brightness)
        requires
            old(self).wf(),
        ensures
            final(self).wf(),
            final(self).spec_brightness() == brightness,
            Self::same_buffers(final(self), old(self)),
            final(self).spec_current_row() == old(self).spec_current_row(),
            final(self).spec_current_bit_plane() == old(self).spec_current_bit_plane(),
            final(self).spec_refresh_interval_ns() == old(self).spec_refresh_interval_ns(),
            final(self).spec_double_buffering() == old(self).spec_double_buffering(),
            final(self).spec_address_pins() == old(self).spec_address_pins(),
    {
        self.brightness = brightness;
    }

    /// Get the current brightness.
    pub fn brightness(&self) -> (r: Brightness)
        ensures
            r == self.spec_brightness(),
    {
        self.brightness
    }

    /// Set the base tick in nanoseconds.
    pub fn set_refresh_interval_ns(&mut self, interval_ns: u32)
        requires
            old(self).wf(),
        ensures
            final(self).wf(),
            final(self).spec_refresh_interval_ns() == interval_ns,
            Self::same_buffers(final(self), old(self)),
            final(self).spec_current_row() == old(self).spec_current_row(),
            final(self).spec_current_bit_plane() == old(self).spec_current_bit_plane(),
            final(self).spec_brightness() == old(self).spec_brightness(),
            final(self).spec_double_buffering() == old(self).spec_double_buffering(),
            final(self).spec_address_pins() == old(self).spec_address_pins(),
    {
        self.refresh_interval_ns = interval_ns;
    }

    /// Get display dimensions.
    pub fn dimensions(&self) -> (r: (usize, usize))
        ensures
            r.0 == self.spec_front().spec_width(),
            r.1 == self.spec_front().spec_height(),
    {
        (self.front_buffer.width(), self.front_buffer.height())
    }

    /// Get the color bit depth.
    pub fn color_bits(&self) -> (r: usize)
        ensures
            r == self.spec_front().spec_color_bits(),
    {
        self.front_buffer.color_bits()
    }

    /// Get the number of addressable row pairs (`height / 2`).
    pub fn addressable_rows(&self) -> (r: usize)
        ensures
            r == self.spec_front().spec_height() / 2,
    {
        self.front_buffer.height() / 2
    }

    /// Set a pixel in the drawing buffer (the back buffer when double
    /// buffering is on, the front buffer when off).
    ///
    /// Returns `InvalidCoordinates` exactly when the coordinates lie
    /// outside the panel.
    pub fn set_pixel(&mut self, x: usize, y: usize, color: Hub75Color) -> (r: Result<
        (),
        Hub75Error,
    >)
        requires
            old(self).wf(),
            color.wf(),
            color.bits == old(self).spec_front().spec_color_bits(),
        ensures
            final(self).wf(),
            Self::same_config(final(self), old(self)),
            x < old(self).spec_front().spec_width() && y < old(self).spec_front().spec_height()
                ==> r == Ok::<(), Hub75Error>(()),
            !(x < old(self).spec_front().spec_width() && y < old(self).spec_front().spec_height())
                ==> (r == Err::<(), Hub75Error>(Hub75Error::InvalidCoordinates) && *final(self)
                == *old(self)),
            old(self).spec_double_buffering() ==> (final(self).spec_front() == old(self).spec_front() && Hub75FrameBuffer::spec_written(
                old(self).spec_back(),
                final(self).spec_back(),
                x,
                y,
                color,
            )),
            !old(self).spec_double_buffering() ==> (final(self).spec_back() == old(self).spec_back()
                && Hub75FrameBuffer::spec_written(
                old(self).spec_front(),
                final(self).spec_front(),
                x,
                y,
                color,
            )),
    {
        if self.double_buffering {
            self.back_buffer.set_pixel(x, y, color)
        } else {
            self.front_buffer.set_pixel(x, y, color)
        }
    }

    /// Get a pixel of the drawing buffer (the back buffer when double
    /// buffering is on, the front buffer when off) — the same buffer
    /// pixel writes land in.
    ///
    /// Returns `InvalidCoordinates` exactly when the coordinates lie
    /// outside the panel.
    pub fn get_pixel(&self, x: usize, y: usize) -> (r: Result<Hub75Color, Hub75Error>)
        requires
            self.wf(),
        ensures
            ({
                let b = if self.spec_double_buffering() {
                    self.spec_back()
                } else {
                    self.spec_front()
                };
                &&& (x < b.spec_width() && y < b.spec_height() ==> r == Ok::<
                    Hub75Color,
                    Hub75Error,
                >(b.spec_pixel(x as int, y as int)))
                &&& (!(x < b.spec_width() && y < b.spec_height()) ==> r == Err::<
                    Hub75Color,
                    Hub75Error,
                >(Hub75Error::InvalidCoordinates))
            }),
    {
        if self.double_buffering {
            self.back_buffer.get_pixel(x, y)
        } else {
            self.front_buffer.get_pixel(x, y)
        }
    }

    /// Fill the drawing buffer with a single color.
    pub fn fill(&mut self, color: Hub75Color)
        requires
            old(self).wf(),
            color.wf(),
            color.bits == old(self).spec_front().spec_color_bits(),
        ensures
            final(self).wf(),
            Self::same_config(final(self), old(self)),
            final(self).spec_front().spec_width() == old(self).spec_front().spec_width(),
            final(self).spec_front().spec_height() == old(self).spec_front().spec_height(),
            final(self).spec_front().spec_color_bits() == old(self).spec_front().spec_color_bits(),
            old(self).spec_double_buffering() ==> (final(self).spec_front() == old(self).spec_front() && final(self).spec_back().is_filled(color)),
            !old(self).spec_double_buffering() ==> (final(self).spec_back() == old(self).spec_back()
                && final(self).spec_front().is_filled(color)),
    {
        if self.double_buffering {
            self.back_buffer.fill(color);
        } else {
            self.front_buffer.fill(color);
        }
    }

    /// Clear the drawing buffer (set all pixels to black).
    pub fn clear(&mut self)
        requires
            old(self).wf(),
        ensures
            final(self).wf(),
            Self::same_config(final(self), old(self)),
            final(self).spec_front().spec_width() == old(self).spec_front().spec_width(),
            final(self).spec_front().spec_height() == old(self).spec_front().spec_height(),
            final(self).spec_front().spec_color_bits() == old(self).spec_front().spec_color_bits(),
            old(self).spec_double_buffering() ==> (final(self).spec_front() == old(self).spec_front() && final(self).spec_back().is_filled(
                Hub75Color { bits: old(self).spec_front().spec_color_bits(), r: 0, g: 0, b: 0 },
            )),
            !old(self).spec_double_buffering() ==> (final(self).spec_back() == old(self).spec_back()
                && final(self).spec_front().is_filled(
                Hub75Color { bits: old(self).spec_front().spec_color_bits(), r: 0, g: 0, b: 0 },
            )),
    {
        let black = Hub75Color::black(self.front_buffer.color_bits());
        self.fill(black);
    }

    /// The full BCM schedule of one frame over the front buffer.
    pub open spec fn spec_render_frame_commands(&self) -> Seq<PinCommand> {
        spec_planes_commands(
            self.spec_front(),
            self.spec_address_pins(),
            self.spec_refresh_interval_ns(),
            self.spec_brightness().spec_level(),
            self.spec_front().spec_color_bits() as int,
        )
    }

    /// Plan one bit-plane pass for the current cursor position, appending
    /// its commands: output off, row address, every column shifted with
    /// one clock pulse each, latch, output on.
    ///
    /// Fails with `InvalidCoordinates` when the cursor row is not below
    /// `height / 2`, and with `InvalidColor` when the cursor plane is not
    /// below the color depth; nothing is appended then.
    pub fn render_bit_plane(&self, cmds: &mut Vec<PinCommand>) -> (r: Result<(), Hub75Error>)
        requires
            self.wf(),
        ensures
            self.spec_current_row() >= self.spec_front().spec_height() / 2 ==> (r matches Err(e)
                && e == Hub75Error::InvalidCoordinates && final(cmds)@ == old(cmds)@),
            self.spec_current_row() < self.spec_front().spec_height() / 2
                && self.spec_current_bit_plane() >= self.spec_front().spec_color_bits() ==> (
            r matches Err(e) && e == Hub75Error::InvalidColor && final(cmds)@ == old(cmds)@),
            self.spec_current_row() < self.spec_front().spec_height() / 2
                && self.spec_current_bit_plane() < self.spec_front().spec_color_bits() ==> (
            r is Ok && final(cmds)@ == old(cmds)@ + spec_bit_plane_commands(
                self.spec_front(),
                self.spec_current_row(),
                self.spec_current_bit_plane(),
                self.spec_address_pins(),
            )),
    {
        let row = self.current_row;
        let plane = self.current_bit_plane;
        let bit_data = match self.front_buffer.get_row_bit_plane(row, plane) {
            Ok(v) => v,
            Err(e) => {
                return Err(e);
            },
        };
        disable_output(cmds);
        set_address(cmds, row, self.address_pin_count);
        let mut x: usize = 0;
        while x < bit_data.len()
            invariant
                self.wf(),
                row == self.spec_current_row(),
                plane == self.spec_current_bit_plane(),
                row < self.spec_front().spec_height() / 2,
                plane < self.spec_front().spec_color_bits(),
                bit_data@.len() == self.spec_front().spec_width(),
                forall|i: int|
                    0 <= i < bit_data@.len() ==> #[trigger] bit_data@[i]
                        == self.spec_front().spec_row_bit_entry(row, plane, i),
                x <= bit_data@.len(),
                cmds@ == old(cmds)@ + spec_disable_output() + spec_set_address(
                    row,
                    self.spec_address_pins(),
                ) + spec_shift_commands(self.spec_front(), row, plane, x as int),
            decreases bit_data@.len() - x,
        {
            let e = bit_data[x];
            set_rgb(cmds, e.0, e.1, e.2, e.3, e.4, e.5);
            clock_pulse(cmds);
            proof {
                assert(cmds@ =~= old(cmds)@ + spec_disable_output() + spec_set_address(
                    row,
                    self.spec_address_pins(),
                ) + spec_shift_commands(self.spec_front(), row, plane, x as int + 1));
            }
            x += 1;
        }
        latch_pulse(cmds);
        enable_output(cmds);
        proof {
            assert(cmds@ =~= old(cmds)@ + spec_bit_plane_commands(
                self.spec_front(),
                row,
                plane,
                self.spec_address_pins(),
            ));
        }
        Ok(())
    }

    /// Plan one complete frame: for every bit plane (outermost) and every
    /// row pair (inner), one bit-plane pass, the plane's BCM hold, and
    /// output off again. The scan cursor is left at the last pass.
    #[verifier::rlimit(60)]
    pub fn render_frame(&mut self) -> (cmds: Vec<PinCommand>)
        requires
            old(self).wf(),
        ensures
            final(self).wf(),
            Self::same_buffers(final(self), old(self)),
            final(self).spec_brightness() == old(self).spec_brightness(),
            final(self).spec_refresh_interval_ns() == old(self).spec_refresh_interval_ns(),
            final(self).spec_double_buffering() == old(self).spec_double_buffering(),
            final(self).spec_address_pins() == old(self).spec_address_pins(),
            cmds@ == old(self).spec_render_frame_commands(),
            old(self).spec_front().spec_height() / 2 > 0 ==> (final(self).spec_current_row() == old(self).spec_front().spec_height() / 2 - 1 && final(self).spec_current_bit_plane() == old(self).spec_front().spec_color_bits() - 1),
            old(self).spec_front().spec_height() / 2 == 0 ==> (final(self).spec_current_row()
                == old(self).spec_current_row() && final(self).spec_current_bit_plane() == old(self).spec_current_bit_plane()),
    {
        let mut cmds: Vec<PinCommand> = Vec::new();
        let bits = self.front_buffer.color_bits();
        let half = self.front_buffer.height() / 2;
        let base = self.refresh_interval_ns;
        let level = self.brightness.level();
        let mut plane: usize = 0;
        while plane < bits
            invariant
                self.wf(),
                self.front_buffer == old(self).spec_front(),
                self.back_buffer == old(self).spec_back(),
                self.brightness == old(self).spec_brightness(),
                self.refresh_interval_ns == old(self).spec_refresh_interval_ns(),
                self.double_buffering == old(self).spec_double_buffering(),
                self.address_pin_count == old(self).spec_address_pins(),
                bits == self.spec_front().spec_color_bits(),
                half == self.spec_front().spec_height() / 2,
                base == self.spec_refresh_interval_ns(),
                level == self.spec_brightness().spec_level(),
                plane <= bits,
                cmds@ == spec_planes_commands(
                    self.spec_front(),
                    self.spec_address_pins(),
                    base,
                    level,
                    plane as int,
                ),
                (plane == 0 || half == 0) ==> (self.current_row == old(self).spec_current_row()
                    && self.current_bit_plane == old(self).spec_current_bit_plane()),
                plane > 0 && half > 0 ==> (self.current_row == half - 1 && self.current_bit_plane
                    == plane - 1),
            decreases bits - plane,
        {
            let ghost plane_base = cmds@;
            let mut row: usize = 0;
            while row < half
                invariant
                    self.wf(),
                    self.front_buffer == old(self).spec_front(),
                    self.back_buffer == old(self).spec_back(),
                    self.brightness == old(self).spec_brightness(),
                    self.refresh_interval_ns == old(self).spec_refresh_interval_ns(),
                    self.double_buffering == old(self).spec_double_buffering(),
                    self.address_pin_count == old(self).spec_address_pins(),
                    bits == self.spec_front().spec_color_bits(),
                    half == self.spec_front().spec_height() / 2,
                    base == self.spec_refresh_interval_ns(),
                    level == self.spec_brightness().spec_level(),
                    plane < bits,
                    row <= half,
                    plane_base == spec_planes_commands(
                        self.spec_front(),
                        self.spec_address_pins(),
                        base,
                        level,
                        plane as int,
                    ),
                    cmds@ == plane_base + spec_rows_commands(
                        self.spec_front(),
                        plane,
                        self.spec_address_pins(),
                        base,
                        level,
                        row as int,
                    ),
                    row > 0 ==> (self.current_row == row - 1 && self.current_bit_plane == plane),
                    row == 0 && (plane == 0 || half == 0) ==> (self.current_row == old(self).spec_current_row() && self.current_bit_plane == old(self).spec_current_bit_plane()),
                    row == 0 && plane > 0 && half > 0 ==> (self.current_row == half - 1
                        && self.current_bit_plane == plane - 1),
                decreases half - row,
            {
                self.current_row = row;
                self.current_bit_plane = plane;
                let res = self.render_bit_plane(&mut cmds);
                match res {
                    Ok(_) => {},
                    Err(_) => {
                        proof {
                            assert(false);
                        }
                    },
                }
                let delay = bcm_delay_ns(base, level, plane);
                cmds.push(PinCommand::SleepNs(delay));
                disable_output(&mut cmds);
                proof {
                    assert(cmds@ =~= plane_base + spec_rows_commands(
                        self.spec_front(),
                        plane,
                        self.spec_address_pins(),
                        base,
                        level,
                        row as int + 1,
                    ));
                }
                row += 1;
            }
            proof {
                assert(cmds@ =~= spec_planes_commands(
                    self.spec_front(),
                    self.spec_address_pins(),
                    base,
                    level,
                    plane as int + 1,
                ));
            }
            plane += 1;
        }
        cmds
    }

    /// Copy a frame into the displayed path: into the back buffer
    /// followed by a swap when double buffering is on, directly into the
    /// front buffer when off. Either way the front buffer shows the
    /// frame afterwards.
    ///
    /// Fails with `InvalidCoordinates` exactly when the frame's shape
    /// differs from the panel's.
    pub fn load_frame(&mut self, frame: &Hub75FrameBuffer) -> (r: Result<(), Hub75Error>)
        requires
            old(self).wf(),
            frame.wf(),
        ensures
            final(self).wf(),
            Self::same_config(final(self), old(self)),
            (frame.spec_width() == old(self).spec_front().spec_width() && frame.spec_height()
                == old(self).spec_front().spec_height() && frame.spec_color_bits() == old(self).spec_front().spec_color_bits()) ==> (r is Ok && final(self).spec_front().congruent(
                frame,
            )),
            !(frame.spec_width() == old(self).spec_front().spec_width() && frame.spec_height()
                == old(self).spec_front().spec_height() && frame.spec_color_bits() == old(self).spec_front().spec_color_bits()) ==> (r == Err::<(), Hub75Error>(
                Hub75Error::InvalidCoordinates,
            ) && *final(self) == *old(self)),
    {
        if frame.width() != self.front_buffer.width() || frame.height()
            != self.front_buffer.height() || frame.color_bits() != self.front_buffer.color_bits() {
            return Err(Hub75Error::InvalidCoordinates);
        }
        if self.double_buffering {
            self.back_buffer.copy_from(frame);
            self.front_buffer.swap(&mut self.back_buffer);
        } else {
            self.front_buffer.copy_from(frame);
        }
        Ok(())
    }

    /// How many frame passes cover a duration: the duration divided by
    /// one frame's total BCM hold time, and at least one pass — also
    /// when the frame time is zero (a dark panel at brightness 0).
    pub fn frames_for_duration(&self, duration_ns: u32) -> (n: u32)
        requires
            self.wf(),
        ensures
            ({
                let ft = spec_frame_time_ns(
                    self.spec_refresh_interval_ns(),
                    self.spec_brightness().spec_level(),
                    self.spec_front().spec_color_bits() as int,
                );
                &&& (ft == 0 ==> n == 1)
                &&& (ft > 0 ==> n as int == (if duration_ns as int / ft >= 1 {
                    duration_ns as int / ft
                } else {
                    1
                }))
            }),
    {
        let bits = self.front_buffer.color_bits();
        let base = self.refresh_interval_ns;
        let level = self.brightness.level();
        let mut total: u64 = 0;
        let mut p: usize = 0;
        while p < bits
            invariant
                self.wf(),
                p <= bits,
                bits == self.spec_front().spec_color_bits(),
                base == self.spec_refresh_interval_ns(),
                level == self.spec_brightness().spec_level(),
                total == spec_frame_time_ns(base, level, p as int),
                total <= p * 140187732508800,
            decreases bits - p,
        {
            let d = bcm_delay_ns(base, level, p);
            total = total + d;
            p += 1;
        }
        if total == 0 {
            return 1;
        }
        proof {
            vstd::arithmetic::div_mod::lemma_div_nonincreasing(duration_ns as int, total as int);
            vstd::arithmetic::div_mod::lemma_div_pos_is_pos(duration_ns as int, total as int);
        }
        let frames = (duration_ns as u64) / total;
        if frames == 0 {
            1
        } else {
            frames as u32
        }
    }
}

/// BCM weighting: each bit plane is held twice as long as the one below
/// it. Integer division by 255 makes the doubling exact precisely when
/// the lower plane's scaled product leaves a remainder under 128 — in
/// particular at full brightness, where the product divides evenly.
pub proof fn lemma_bcm_weighting(base: u32, level: u8, plane: usize)
    requires
        plane < 7,
        (base * vstd::arithmetic::power2::pow2(plane as nat) * level) % 255 < 128,
    ensures
        spec_delay_ns(base, level, (plane + 1) as usize) == 2 * spec_delay_ns(base, level, plane),
{
    let k = base * vstd::arithmetic::power2::pow2(plane as nat) * level;
    let q = k / 255;
    let r = k % 255;
    vstd::arithmetic::div_mod::lemma_fundamental_div_mod(k, 255);
    let p2 = vstd::arithmetic::power2::pow2(plane as nat) as int;
    let p21 = vstd::arithmetic::power2::pow2((plane + 1) as nat) as int;
    assert(p21 == 2 * p2) by {
        vstd::arithmetic::power2::lemma_pow2_adds(plane as nat, 1);
        vstd::arithmetic::power2::lemma2_to64();
    }
    assert(base * p21 * level == 2 * k) by (nonlinear_arith)
        requires
            p21 == 2 * p2,
            k == base * p2 * level,
    ;
    vstd::arithmetic::div_mod::lemma_fundamental_div_mod_converse_div(2 * k, 255, 2 * q, 2 * r);
}

/// The BCM hold time for one bit plane, computed without overflow:
/// `base * 2^plane * brightness / 255` nanoseconds.
pub fn bcm_delay_ns(base: u32, level: u8, plane: usize) -> (d: u64)
    requires
        plane < 8,
    ensures
        d == spec_delay_ns(base, level, plane),
        d <= 140187732508800,
{
    proof {
        vstd::arithmetic::power2::lemma2_to64();
        if (plane as nat) < 7 {
            vstd::arithmetic::power2::lemma_pow2_strictly_increases(plane as nat, 7);
        }
    }
    let factor: u64 = 1u64 << (plane as u64);
    proof {
        vstd::bits::lemma_u64_shl_is_mul(1u64, plane as u64);
        vstd::arithmetic::mul::lemma_mul_upper_bound(
            base as int,
            0xffff_ffff,
            vstd::arithmetic::power2::pow2(plane as nat) as int,
            128,
        );
        vstd::arithmetic::mul::lemma_mul_upper_bound(
            base as int * vstd::arithmetic::power2::pow2(plane as nat) as int,
            549755813760,
            level as int,
            255,
        );
    }
    (base as u64) * factor * (level as u64) / 255
}

} // verus!
