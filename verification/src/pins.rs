//! Pin-level command model for the HUB75 wire protocol.
//!
//! A HUB75 connector carries six RGB data lines (upper and lower half),
//! a row-address bus of three mandatory and two optional bits, and the
//! control trio CLK/LAT/OE. The scheduler in this crate plans each
//! protocol step as a [`PinCommand`]; an unverified shell maps every
//! command onto a real GPIO pin operation, in order.
//!
//! Polarities: CLK and LAT latch on the rising edge, so pulses are
//! emitted as high-then-low pairs; OE is active low.

use vstd::prelude::*;

verus! {

/// One physical output line of the HUB75 connector.
#[derive(Debug, Clone, Copy, PartialEq, Eq, Structural)]
pub enum PinLine {
    /// Red data, upper half
    R1,
    /// Green data, upper half
    G1,
    /// Blue data, upper half
    B1,
    /// Red data, lower half
    R2,
    /// Green data, lower half
    G2,
    /// Blue data, lower half
    B2,
    /// Address bit 0
    AddrA,
    /// Address bit 1
    AddrB,
    /// Address bit 2
    AddrC,
    /// Address bit 3 (larger panels)
    AddrD,
    /// Address bit 4 (largest panels)
    AddrE,
    /// Shift clock
    Clk,
    /// Latch
    Lat,
    /// Output enable (active low)
    Oe,
}

/// One step of the wire protocol: drive a line to a level, or hold the
/// present state for a duration.
#[derive(Debug, Clone, Copy, PartialEq, Eq, Structural)]
pub enum PinCommand {
    /// Drive the line high (`true`) or low (`false`)
    Drive(PinLine, bool),
    /// Hold for at least the given number of nanoseconds
    SleepNs(u64),
}

/// The six data-line levels, in line order, with no clock.
pub open spec fn spec_set_rgb(
    upper_r: bool,
    upper_g: bool,
    upper_b: bool,
    lower_r: bool,
    lower_g: bool,
    lower_b: bool,
) -> Seq<PinCommand> {
    seq![
        PinCommand::Drive(PinLine::R1, upper_r),
        PinCommand::Drive(PinLine::G1, upper_g),
        PinCommand::Drive(PinLine::B1, upper_b),
        PinCommand::Drive(PinLine::R2, lower_r),
        PinCommand::Drive(PinLine::G2, lower_g),
        PinCommand::Drive(PinLine::B2, lower_b),
    ]
}

/// A clean clock pulse: CLK high, then low.
pub open spec fn spec_clock_pulse() -> Seq<PinCommand> {
    seq![PinCommand::Drive(PinLine::Clk, true), PinCommand::Drive(PinLine::Clk, false)]
}

/// A clean latch pulse: LAT high, then low.
pub open spec fn spec_latch_pulse() -> Seq<PinCommand> {
    seq![PinCommand::Drive(PinLine::Lat, true), PinCommand::Drive(PinLine::Lat, false)]
}

/// Output on: OE driven low (OE is active low).
pub open spec fn spec_enable_output() -> Seq<PinCommand> {
    seq![PinCommand::Drive(PinLine::Oe, false)]
}

/// Output off: OE driven high.
pub open spec fn spec_disable_output() -> Seq<PinCommand> {
    seq![PinCommand::Drive(PinLine::Oe, true)]
}

/// Bit `bit` of the row index, as the level of one address line.
pub open spec fn spec_address_bit(row: usize, bit: usize) -> bool {
    (row >> bit) & 1 != 0
}

/// The address bus driven to the low bits of `row`: A, B, C always, D
/// when a fourth pin is present, E when a fifth is.
pub open spec fn spec_set_address(row: usize, pin_count: usize) -> Seq<PinCommand> {
    seq![
        PinCommand::Drive(PinLine::AddrA, spec_address_bit(row, 0)),
        PinCommand::Drive(PinLine::AddrB, spec_address_bit(row, 1)),
        PinCommand::Drive(PinLine::AddrC, spec_address_bit(row, 2)),
    ] + (if pin_count >= 4 {
        seq![PinCommand::Drive(PinLine::AddrD, spec_address_bit(row, 3))]
    } else {
        Seq::empty()
    }) + (if pin_count >= 5 {
        seq![PinCommand::Drive(PinLine::AddrE, spec_address_bit(row, 4))]
    } else {
        Seq::empty()
    })
}

/// The power-on line state: all data and address lines low, CLK and LAT
/// low, OE high (output disabled).
pub open spec fn spec_init(pin_count: usize) -> Seq<PinCommand> {
    spec_set_rgb(false, false, false, false, false, false) + spec_set_address(0, pin_count)
        + seq![
        PinCommand::Drive(PinLine::Clk, false),
        PinCommand::Drive(PinLine::Lat, false),
        PinCommand::Drive(PinLine::Oe, true),
    ]
}

/// Emit the six RGB data line levels, in line order, without a clock.
pub fn set_rgb(
    cmds: &mut Vec<PinCommand>,
    upper_r: bool,
    upper_g: bool,
    upper_b: bool,
    lower_r: bool,
    lower_g: bool,
    lower_b: bool,
)
    ensures
        final(cmds)@ == old(cmds)@ + spec_set_rgb(upper_r, upper_g, upper_b, lower_r, lower_g, lower_b),
{
    cmds.push(PinCommand::Drive(PinLine::R1, upper_r));
    cmds.push(PinCommand::Drive(PinLine::G1, upper_g));
    cmds.push(PinCommand::Drive(PinLine::B1, upper_b));
    cmds.push(PinCommand::Drive(PinLine::R2, lower_r));
    cmds.push(PinCommand::Drive(PinLine::G2, lower_g));
    cmds.push(PinCommand::Drive(PinLine::B2, lower_b));
    proof {
        assert(cmds@ =~= old(cmds)@ + spec_set_rgb(
            upper_r,
            upper_g,
            upper_b,
            lower_r,
            lower_g,
            lower_b,
        ));
    }
}

/// Emit one clock pulse; each pulse shifts one bit column into the
/// panel's shift register.
pub fn clock_pulse(cmds: &mut Vec<PinCommand>)
    ensures
        final(cmds)@ == old(cmds)@ + spec_clock_pulse(),
{
    cmds.push(PinCommand::Drive(PinLine::Clk, true));
    cmds.push(PinCommand::Drive(PinLine::Clk, false));
    proof {
        assert(cmds@ =~= old(cmds)@ + spec_clock_pulse());
    }
}

/// Emit one latch pulse, transferring the shift register into the row
/// output latches.
pub fn latch_pulse(cmds: &mut Vec<PinCommand>)
    ensures
        final(cmds)@ == old(cmds)@ + spec_latch_pulse(),
{
    cmds.push(PinCommand::Drive(PinLine::Lat, true));
    cmds.push(PinCommand::Drive(PinLine::Lat, false));
    proof {
        assert(cmds@ =~= old(cmds)@ + spec_latch_pulse());
    }
}

/// Emit the output-on step (OE low).
pub fn enable_output(cmds: &mut Vec<PinCommand>)
    ensures
        final(cmds)@ == old(cmds)@ + spec_enable_output(),
{
    cmds.push(PinCommand::Drive(PinLine::Oe, false));
    proof {
        assert(cmds@ =~= old(cmds)@ + spec_enable_output());
    }
}

/// Emit the output-off step (OE high).
pub fn disable_output(cmds: &mut Vec<PinCommand>)
    ensures
        final(cmds)@ == old(cmds)@ + spec_disable_output(),
{
    cmds.push(PinCommand::Drive(PinLine::Oe, true));
    proof {
        assert(cmds@ =~= old(cmds)@ + spec_disable_output());
    }
}

/// Emit the address-bus levels selecting `row`.
pub fn set_address(cmds: &mut Vec<PinCommand>, row: usize, pin_count: usize)
    requires
        3 <= pin_count <= 5,
    ensures
        final(cmds)@ == old(cmds)@ + spec_set_address(row, pin_count),
{
    cmds.push(PinCommand::Drive(PinLine::AddrA, (row >> 0usize) & 1 != 0));
    cmds.push(PinCommand::Drive(PinLine::AddrB, (row >> 1usize) & 1 != 0));
    cmds.push(PinCommand::Drive(PinLine::AddrC, (row >> 2usize) & 1 != 0));
    if pin_count >= 4 {
        cmds.push(PinCommand::Drive(PinLine::AddrD, (row >> 3usize) & 1 != 0));
    }
    if pin_count >= 5 {
        cmds.push(PinCommand::Drive(PinLine::AddrE, (row >> 4usize) & 1 != 0));
    }
    proof {
        assert(cmds@ =~= old(cmds)@ + spec_set_address(row, pin_count));
    }
}

/// The commands that initialize all pins to their idle states.
pub fn init(pin_count: usize) -> (cmds: Vec<PinCommand>)
    requires
        3 <= pin_count <= 5,
    ensures
        cmds@ == spec_init(pin_count),
{
    let mut cmds: Vec<PinCommand> = Vec::new();
    set_rgb(&mut cmds, false, false, false, false, false, false);
    set_address(&mut cmds, 0, pin_count);
    cmds.push(PinCommand::Drive(PinLine::Clk, false));
    cmds.push(PinCommand::Drive(PinLine::Lat, false));
    cmds.push(PinCommand::Drive(PinLine::Oe, true));
    proof {
        assert(cmds@ =~= spec_init(pin_count));
    }
    cmds
}

/// The number of row pairs a `pin_count`-bit address bus can select.
pub fn max_addressable_rows(pin_count: usize) -> (r: usize)
    requires
        3 <= pin_count <= 5,
    ensures
        r == vstd::arithmetic::power2::pow2(pin_count as nat),
{
    proof {
        vstd::arithmetic::power2::lemma2_to64();
    }
    match pin_count {
        3 => 8,
        4 => 16,
        _ => 32,
    }
}

} // verus!
