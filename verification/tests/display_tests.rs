use hub75::display::bcm_delay_ns;
use hub75::{Brightness, Hub75Color, Hub75Display, Hub75Error, Hub75FrameBuffer, PinCommand, PinLine};

#[test]
fn test_display_creation() {
    let display = Hub75Display::new(64, 32, 6, 4);
    assert!(display.is_ok());

    let display = display.unwrap();
    assert_eq!(display.dimensions(), (64, 32));
    assert_eq!(display.color_bits(), 6);
    assert_eq!(display.addressable_rows(), 16);
}

#[test]
fn test_brightness_operations() {
    let mut brightness = Brightness::new(100);
    assert_eq!(brightness.level(), 100);

    brightness = brightness + 50;
    assert_eq!(brightness.level(), 150);

    brightness = brightness - 25;
    assert_eq!(brightness.level(), 125);

    // Test saturation
    brightness = Brightness::new(250) + 20;
    assert_eq!(brightness.level(), 255);

    brightness = Brightness::new(10) - 20;
    assert_eq!(brightness.level(), 0);
}

#[test]
fn test_address_validation() {
    // 32 rows of panel need 16 addressable row pairs; 3 pins reach 8.
    let display = Hub75Display::new(64, 32, 6, 3);
    assert_eq!(display.err().unwrap(), Hub75Error::InvalidCoordinates);

    // An odd height is rejected too.
    let display = Hub75Display::new(64, 31, 6, 4);
    assert_eq!(display.err().unwrap(), Hub75Error::InvalidCoordinates);

    // 16 row pairs fit exactly on 4 pins.
    assert!(Hub75Display::new(64, 32, 6, 4).is_ok());
}

#[test]
fn test_double_buffer_aliasing() {
    let mut display = Hub75Display::new(8, 8, 4, 3).unwrap();
    let red = Hub75Color::red(4);

    // Double buffering off: writes land in the front buffer directly,
    // and swapping is a no-op.
    display.set_pixel(1, 1, red).unwrap();
    assert_eq!(display.get_pixel(1, 1).unwrap(), red);
    display.swap_buffers();
    assert_eq!(display.get_pixel(1, 1).unwrap(), red);

    // Double buffering on: reads and writes both address the back
    // buffer, so a written pixel reads back at once, while the displayed
    // front buffer stays black until the swap publishes the drawing.
    let mut display = Hub75Display::new(8, 8, 4, 3).unwrap();
    display.set_double_buffering(true);
    display.set_pixel(2, 2, red).unwrap();
    assert_eq!(display.get_pixel(2, 2).unwrap(), red);
    assert_eq!(
        display.front_buffer().get_pixel(2, 2).unwrap(),
        Hub75Color::black(4)
    );
    display.swap_buffers();
    assert_eq!(display.front_buffer().get_pixel(2, 2).unwrap(), red);
    // The drawing buffer now holds what was displayed before: black.
    assert_eq!(display.get_pixel(2, 2).unwrap(), Hub75Color::black(4));
}

#[test]
fn test_back_buffer_aliases_front_without_double_buffering() {
    let mut display = Hub75Display::new(8, 8, 4, 3).unwrap();
    let green = Hub75Color::green(4);
    display.back_buffer().set_pixel(3, 4, green).unwrap();
    // The write went to the front buffer, so it is visible at once.
    assert_eq!(display.get_pixel(3, 4).unwrap(), green);
}

#[test]
fn test_render_frame_command_counts() {
    // A 32x32 panel at 4-bit depth: 4 planes over 16 row pairs of 32
    // columns each, 100 us base tick, brightness 128.
    let mut display = Hub75Display::new(32, 32, 4, 4).unwrap();
    display.set_brightness(Brightness::new(128));
    display.fill(Hub75Color::new(4, 15, 0, 0));
    let cmds = display.render_frame();

    // Per row pass: OE off, 4 address lines, 32 columns of 6 data lines
    // and a 2-edge clock pulse, a 2-edge latch pulse, OE on, one hold,
    // OE off again.
    let per_pass = 1 + 4 + 32 * 8 + 2 + 1 + 1 + 1;
    assert_eq!(cmds.len(), 4 * 16 * per_pass);

    let clock_rises = cmds
        .iter()
        .filter(|c| matches!(c, PinCommand::Drive(PinLine::Clk, true)))
        .count();
    assert_eq!(clock_rises, 4 * 16 * 32);

    let latches = cmds
        .iter()
        .filter(|c| matches!(c, PinCommand::Drive(PinLine::Lat, true)))
        .count();
    assert_eq!(latches, 4 * 16);

    // The first step of every pass disables output.
    assert_eq!(cmds[0], PinCommand::Drive(PinLine::Oe, true));

    // BCM holds: base * 2^plane * 128 / 255, sixteen of each.
    let mut sleeps: Vec<u64> = Vec::new();
    for c in &cmds {
        if let PinCommand::SleepNs(ns) = c {
            sleeps.push(*ns);
        }
    }
    assert_eq!(sleeps.len(), 4 * 16);
    for (i, ns) in sleeps.iter().enumerate() {
        let plane = (i / 16) as u32;
        let expected = 100_000u64 * (1u64 << plane) * 128 / 255;
        assert_eq!(*ns, expected);
    }
}

#[test]
fn test_render_frame_at_zero_brightness() {
    // Brightness 0: every hold rounds to 0, but the shift-register
    // writes are still emitted; the panel reads dark.
    let mut display = Hub75Display::new(8, 8, 4, 3).unwrap();
    display.set_brightness(Brightness::new(0));
    let cmds = display.render_frame();
    let mut saw_sleep = false;
    let mut saw_clock = false;
    for c in &cmds {
        match c {
            PinCommand::SleepNs(ns) => {
                saw_sleep = true;
                assert_eq!(*ns, 0);
            }
            PinCommand::Drive(PinLine::Clk, true) => {
                saw_clock = true;
            }
            _ => {}
        }
    }
    assert!(saw_sleep && saw_clock);
}

#[test]
fn test_bcm_weighting_doubles() {
    // At full brightness the product divides evenly, so each plane is
    // held exactly twice as long as the one below it.
    for plane in 0..7 {
        assert_eq!(
            bcm_delay_ns(100_000, 255, plane + 1),
            2 * bcm_delay_ns(100_000, 255, plane)
        );
    }
    assert_eq!(bcm_delay_ns(100_000, 255, 0), 100_000);
}

#[test]
fn test_load_frame() {
    let mut display = Hub75Display::new(8, 8, 4, 3).unwrap();
    let mut frame = Hub75FrameBuffer::new(8, 8, 4);
    frame.fill(Hub75Color::blue(4));
    display.load_frame(&frame).unwrap();
    assert_eq!(display.get_pixel(0, 0).unwrap(), Hub75Color::blue(4));

    // With double buffering the load also swaps, so the frame shows.
    let mut display = Hub75Display::new(8, 8, 4, 3).unwrap();
    display.set_double_buffering(true);
    display.load_frame(&frame).unwrap();
    assert_eq!(
        display.front_buffer().get_pixel(7, 7).unwrap(),
        Hub75Color::blue(4)
    );

    // A frame of another shape is rejected.
    let small = Hub75FrameBuffer::new(4, 4, 4);
    assert_eq!(
        display.load_frame(&small).unwrap_err(),
        Hub75Error::InvalidCoordinates
    );
}

#[test]
fn test_frames_for_duration() {
    let mut display = Hub75Display::new(8, 8, 4, 3).unwrap();
    display.set_brightness(Brightness::new(255));
    display.set_refresh_interval_ns(100_000);
    // Frame time: 100_000 * (1 + 2 + 4 + 8) = 1_500_000 ns.
    assert_eq!(display.frames_for_duration(3_000_000), 2);
    // Always at least one pass.
    assert_eq!(display.frames_for_duration(10), 1);

    // A zero frame time (brightness 0) still means one pass.
    display.set_brightness(Brightness::new(0));
    assert_eq!(display.frames_for_duration(3_000_000), 1);
}

#[test]
fn test_default_brightness() {
    let brightness = Brightness::default();
    assert_eq!(brightness.level(), 128);
}

#[test]
fn test_render_bit_plane_errors() {
    let display = Hub75Display::new(8, 8, 4, 3).unwrap();
    let mut cmds: Vec<PinCommand> = Vec::new();
    // A fresh display has its cursor at the first row pair and plane.
    assert!(display.render_bit_plane(&mut cmds).is_ok());
    assert!(!cmds.is_empty());
}
