use hub75::{Hub75Color, Hub75Error, Hub75FrameBuffer};

#[test]
fn test_frame_buffer_creation() {
    let buffer = Hub75FrameBuffer::new(64, 32, 6);
    assert_eq!(buffer.width(), 64);
    assert_eq!(buffer.height(), 32);
    assert_eq!(buffer.color_bits(), 6);
}

#[test]
fn test_pixel_operations() {
    let mut buffer = Hub75FrameBuffer::new(64, 32, 6);
    let red = Hub75Color::red(6);

    buffer.set_pixel(10, 15, red).unwrap();
    let pixel = buffer.get_pixel(10, 15).unwrap();
    assert_eq!(pixel, red);
}

#[test]
fn test_bounds_checking() {
    let mut buffer = Hub75FrameBuffer::new(64, 32, 6);
    let red = Hub75Color::red(6);

    assert!(buffer.set_pixel(64, 15, red).is_err()); // x out of bounds
    assert!(buffer.set_pixel(10, 32, red).is_err()); // y out of bounds
    assert!(buffer.get_pixel(64, 15).is_err());
    assert!(buffer.get_pixel(10, 32).is_err());
}

#[test]
fn test_fill_and_clear() {
    let mut buffer = Hub75FrameBuffer::new(64, 32, 6);
    let blue = Hub75Color::blue(6);

    buffer.fill(blue);
    assert_eq!(buffer.get_pixel(0, 0).unwrap(), blue);
    assert_eq!(buffer.get_pixel(63, 31).unwrap(), blue);

    buffer.clear();
    assert_eq!(buffer.get_pixel(0, 0).unwrap(), Hub75Color::black(6));
    assert_eq!(buffer.get_pixel(63, 31).unwrap(), Hub75Color::black(6));
}

#[test]
fn test_fill_twice_equals_fill_once() {
    let green = Hub75Color::green(4);
    let mut once = Hub75FrameBuffer::new(8, 4, 4);
    once.fill(green);
    let mut twice = Hub75FrameBuffer::new(8, 4, 4);
    twice.fill(green);
    twice.fill(green);
    assert_eq!(once.to_rgb_data(), twice.to_rgb_data());
}

#[test]
fn test_copy_from() {
    let mut a = Hub75FrameBuffer::new(8, 4, 4);
    let mut b = Hub75FrameBuffer::new(8, 4, 4);
    b.fill(Hub75Color::blue(4));
    b.set_pixel(3, 2, Hub75Color::red(4)).unwrap();

    a.copy_from(&b);
    assert_eq!(a.to_rgb_data(), b.to_rgb_data());
    assert_eq!(a.get_pixel(3, 2).unwrap(), Hub75Color::red(4));
}

#[test]
fn test_swap() {
    let mut a = Hub75FrameBuffer::new(8, 4, 4);
    a.fill(Hub75Color::red(4));
    let mut b = Hub75FrameBuffer::new(8, 4, 4);
    b.fill(Hub75Color::blue(4));

    a.swap(&mut b);
    assert_eq!(a.get_pixel(0, 0).unwrap(), Hub75Color::blue(4));
    assert_eq!(b.get_pixel(0, 0).unwrap(), Hub75Color::red(4));
}

#[test]
fn test_get_row() {
    let mut buffer = Hub75FrameBuffer::new(4, 4, 4);
    buffer.set_pixel(2, 1, Hub75Color::white(4)).unwrap();

    let row = buffer.get_row(1).unwrap();
    assert_eq!(row.len(), 4);
    assert_eq!(row[2], Hub75Color::white(4));
    assert_eq!(row[0], Hub75Color::black(4));
    assert!(buffer.get_row(4).is_err());
}

#[test]
fn test_get_row_mut() {
    let mut buffer = Hub75FrameBuffer::new(4, 4, 4);
    {
        let row = buffer.get_row_mut(2);
        row[1] = Hub75Color::green(4);
    }
    assert_eq!(buffer.get_pixel(1, 2).unwrap(), Hub75Color::green(4));
    assert_eq!(buffer.get_pixel(1, 1).unwrap(), Hub75Color::black(4));
}

#[test]
fn test_row_bit_plane_shape() {
    let mut buffer = Hub75FrameBuffer::new(4, 4, 4);
    // Upper-half pixel of the pair (row 1, row 3).
    buffer.set_pixel(0, 1, Hub75Color::new(4, 0b0010, 0, 0)).unwrap();
    // Its paired lower-half pixel.
    buffer.set_pixel(0, 3, Hub75Color::new(4, 0, 0b0010, 0b0001)).unwrap();

    let entries = buffer.get_row_bit_plane(1, 1).unwrap();
    assert_eq!(entries.len(), 4);
    assert_eq!(entries[0], (true, false, false, false, true, false));
    assert_eq!(entries[1], (false, false, false, false, false, false));

    let plane0 = buffer.get_row_bit_plane(1, 0).unwrap();
    assert_eq!(plane0[0], (false, false, false, false, false, true));
}

#[test]
fn test_row_bit_plane_errors() {
    let buffer = Hub75FrameBuffer::new(4, 4, 4);
    assert_eq!(
        buffer.get_row_bit_plane(2, 0).unwrap_err(),
        Hub75Error::InvalidCoordinates
    );
    assert_eq!(
        buffer.get_row_bit_plane(1, 4).unwrap_err(),
        Hub75Error::InvalidColor
    );
}

#[test]
fn test_from_rgb_data_length_mismatch() {
    // One byte short of 4 * 4 * 3.
    let data = vec![0u8; 4 * 4 * 3 - 1];
    assert_eq!(
        Hub75FrameBuffer::from_rgb_data(&data, 4, 4, 6).unwrap_err(),
        Hub75Error::InvalidColor
    );
}

#[test]
fn test_rgb_data_roundtrip() {
    let mut data = vec![0u8; 2 * 2 * 3];
    // Pixel (1, 0) bright red, pixel (0, 1) mid gray.
    data[3] = 255;
    data[6] = 128;
    data[7] = 128;
    data[8] = 128;
    let buffer = Hub75FrameBuffer::from_rgb_data(&data, 2, 2, 8).unwrap();
    assert_eq!(buffer.get_pixel(1, 0).unwrap(), Hub75Color::new(8, 255, 0, 0));
    assert_eq!(buffer.get_pixel(0, 1).unwrap(), Hub75Color::new(8, 128, 128, 128));
    // At 8 bits the conversion is lossless, so the bytes come back.
    assert_eq!(buffer.to_rgb_data(), data);
}

#[test]
fn test_to_rgb_data_scales() {
    let mut buffer = Hub75FrameBuffer::new(2, 2, 4);
    buffer.set_pixel(0, 0, Hub75Color::new(4, 15, 1, 0)).unwrap();
    let data = buffer.to_rgb_data();
    assert_eq!(data.len(), 2 * 2 * 3);
    assert_eq!(&data[0..3], &[0xF0, 0x10, 0x00]);
}

#[test]
fn test_clone_matches_original() {
    let mut buffer = Hub75FrameBuffer::new(3, 2, 5);
    buffer.set_pixel(2, 1, Hub75Color::new(5, 31, 7, 1)).unwrap();
    let copy = buffer.clone();
    assert_eq!(copy.to_rgb_data(), buffer.to_rgb_data());
}
