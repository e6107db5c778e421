use embedded_graphics_core::pixelcolor::{Rgb565, RgbColor};
use hub75::{ColorConvert, Hub75Color};

#[test]
fn test_color_creation() {
    let color = Hub75Color::new(6, 63, 32, 15);
    assert_eq!(color.r, 63);
    assert_eq!(color.g, 32);
    assert_eq!(color.b, 15);
}

#[test]
fn test_color_clamping() {
    let color = Hub75Color::new(4, 255, 255, 255);
    assert_eq!(color.r, 15); // 2^4 - 1 = 15
    assert_eq!(color.g, 15);
    assert_eq!(color.b, 15);
}

#[test]
fn test_bit_extraction() {
    let color = Hub75Color::new(4, 10, 5, 3); // 1010, 0101, 0011 in binary

    let (r0, g0, b0) = color.get_bit(0);
    assert_eq!((r0, g0, b0), (false, true, true)); // LSB

    let (r1, g1, b1) = color.get_bit(1);
    assert_eq!((r1, g1, b1), (true, false, true));

    let (r3, g3, b3) = color.get_bit(3);
    assert_eq!((r3, g3, b3), (true, false, false)); // MSB
}

#[test]
fn test_rgb8_conversion() {
    let color = Hub75Color::from_rgb8(6, 255, 128, 64);
    let (r, g, b) = color.to_rgb8();

    // Should be close to original values (some precision loss expected)
    assert!(r >= 252); // 63 << 2 = 252
    assert!(g >= 124 && g <= 128); // 32 << 2 = 128
    assert!(b >= 60 && b <= 64); // 16 << 2 = 64
}

#[test]
fn test_bit_extraction_out_of_range() {
    let color = Hub75Color::new(4, 15, 15, 15);
    assert_eq!(color.get_bit(4), (false, false, false));
    assert_eq!(color.get_bit(200), (false, false, false));
}

#[test]
fn test_named_colors() {
    assert_eq!(Hub75Color::black(4), Hub75Color::new(4, 0, 0, 0));
    assert_eq!(Hub75Color::white(4), Hub75Color::new(4, 15, 15, 15));
    assert_eq!(Hub75Color::red(6), Hub75Color::new(6, 63, 0, 0));
    assert_eq!(Hub75Color::green(6), Hub75Color::new(6, 0, 63, 0));
    assert_eq!(Hub75Color::blue(8), Hub75Color::new(8, 0, 0, 255));
}

#[test]
fn test_rgb8_scaling_keeps_top_bits() {
    // For depths below 8, a round trip keeps exactly the top `bits` bits.
    for bits in 1..8usize {
        let mask = ((0xffu16 << (8 - bits)) & 0xff) as u8;
        for x in [0u8, 1, 7, 0x55, 0xaa, 0xb5, 0xfe, 0xff] {
            let c = Hub75Color::from_rgb8(bits, x, x, x);
            assert_eq!(c.to_rgb8(), (x & mask, x & mask, x & mask));
        }
    }
}

#[test]
fn test_rgb565_to_color() {
    // Full-scale 5-bit red widens to 255 and lands on the panel's red.
    let c: Hub75Color = ColorConvert::from_color(Rgb565::new(31, 0, 0), 6);
    assert_eq!(c, Hub75Color::red(6));

    // A mid-scale channel: 16 * 255 / 31 = 131, then 131 >> 2 = 32.
    let c: Hub75Color = ColorConvert::from_color(Rgb565::new(0, 0, 16), 6);
    assert_eq!(c, Hub75Color::new(6, 0, 0, 32));
}

#[test]
fn test_color_to_rgb565() {
    let c = Hub75Color::white(8);
    let rgb: Rgb565 = c.to_color();
    assert_eq!(rgb, Rgb565::new(31, 63, 31));

    let c = Hub75Color::new(8, 255, 0, 0);
    let rgb: Rgb565 = c.to_color();
    assert_eq!(rgb.r(), 31);
    assert_eq!(rgb.g(), 0);
    assert_eq!(rgb.b(), 0);
}
