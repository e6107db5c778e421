use hub75::pins::{
    clock_pulse, disable_output, enable_output, init, latch_pulse, max_addressable_rows,
    set_address, set_rgb,
};
use hub75::{PinCommand, PinLine};

#[test]
fn test_init_commands() {
    let cmds = init(5);
    let expected = vec![
        PinCommand::Drive(PinLine::R1, false),
        PinCommand::Drive(PinLine::G1, false),
        PinCommand::Drive(PinLine::B1, false),
        PinCommand::Drive(PinLine::R2, false),
        PinCommand::Drive(PinLine::G2, false),
        PinCommand::Drive(PinLine::B2, false),
        PinCommand::Drive(PinLine::AddrA, false),
        PinCommand::Drive(PinLine::AddrB, false),
        PinCommand::Drive(PinLine::AddrC, false),
        PinCommand::Drive(PinLine::AddrD, false),
        PinCommand::Drive(PinLine::AddrE, false),
        PinCommand::Drive(PinLine::Clk, false),
        PinCommand::Drive(PinLine::Lat, false),
        PinCommand::Drive(PinLine::Oe, true),
    ];
    assert_eq!(cmds, expected);

    // With three address pins, D and E are absent.
    let cmds = init(3);
    assert_eq!(cmds.len(), 12);
    assert!(!cmds.contains(&PinCommand::Drive(PinLine::AddrD, false)));
}

#[test]
fn test_set_address_bits() {
    let mut cmds = Vec::new();
    set_address(&mut cmds, 5, 4);
    assert_eq!(
        cmds,
        vec![
            PinCommand::Drive(PinLine::AddrA, true),
            PinCommand::Drive(PinLine::AddrB, false),
            PinCommand::Drive(PinLine::AddrC, true),
            PinCommand::Drive(PinLine::AddrD, false),
        ]
    );

    let mut cmds = Vec::new();
    set_address(&mut cmds, 0b11010, 5);
    assert_eq!(
        cmds,
        vec![
            PinCommand::Drive(PinLine::AddrA, false),
            PinCommand::Drive(PinLine::AddrB, true),
            PinCommand::Drive(PinLine::AddrC, false),
            PinCommand::Drive(PinLine::AddrD, true),
            PinCommand::Drive(PinLine::AddrE, true),
        ]
    );
}

#[test]
fn test_pulses_and_output_gate() {
    let mut cmds = Vec::new();
    clock_pulse(&mut cmds);
    latch_pulse(&mut cmds);
    enable_output(&mut cmds);
    disable_output(&mut cmds);
    assert_eq!(
        cmds,
        vec![
            PinCommand::Drive(PinLine::Clk, true),
            PinCommand::Drive(PinLine::Clk, false),
            PinCommand::Drive(PinLine::Lat, true),
            PinCommand::Drive(PinLine::Lat, false),
            PinCommand::Drive(PinLine::Oe, false),
            PinCommand::Drive(PinLine::Oe, true),
        ]
    );
}

#[test]
fn test_set_rgb_order() {
    let mut cmds = Vec::new();
    set_rgb(&mut cmds, true, false, true, false, true, false);
    assert_eq!(
        cmds,
        vec![
            PinCommand::Drive(PinLine::R1, true),
            PinCommand::Drive(PinLine::G1, false),
            PinCommand::Drive(PinLine::B1, true),
            PinCommand::Drive(PinLine::R2, false),
            PinCommand::Drive(PinLine::G2, true),
            PinCommand::Drive(PinLine::B2, false),
        ]
    );
}

#[test]
fn test_max_addressable_rows() {
    assert_eq!(max_addressable_rows(3), 8);
    assert_eq!(max_addressable_rows(4), 16);
    assert_eq!(max_addressable_rows(5), 32);
}
