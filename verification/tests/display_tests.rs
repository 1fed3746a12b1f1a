use it8951::display::bytes_to_words;
use it8951::display::pack_8bpp_to_4bpp;
use it8951::display::pack_fill_words;
use it8951::types::DeviceInfo;
use it8951::Area;
use it8951::DisplayMode;
use it8951::Error;
use it8951::MockInputPin;
use it8951::MockOutputPin;
use it8951::MockSpi;
use it8951::PinState;
use it8951::PixelFormat;
use it8951::IT8951;

fn setup_initialized_device() -> IT8951<MockSpi, MockInputPin, MockOutputPin, MockOutputPin> {
    let spi = MockSpi::new();
    let hrdy = MockInputPin::new(PinState::High);
    let cs = MockOutputPin::new(PinState::High);
    let reset = MockOutputPin::new(PinState::High);

    let mut device = IT8951::new(spi, hrdy, cs, reset, 1500);

    // Manually set device info to simulate initialization
    device.device_info = Some(DeviceInfo {
        panel_width: 800,
        panel_height: 600,
        img_buf_addr: 0x001236E0,
        fw_version: "test".to_string(),
        lut_version: "test".to_string(),
    });

    device
}

#[test]
fn mod_test_clear() {
    let mut device = setup_initialized_device();
    assert!(device.clear(0xFF).is_ok());
}

#[test]
fn test_clear_without_init() {
    let spi = MockSpi::new();
    let hrdy = MockInputPin::new(PinState::High);
    let cs = MockOutputPin::new(PinState::High);
    let reset = MockOutputPin::new(PinState::High);

    let mut device = IT8951::new(spi, hrdy, cs, reset, 1500);

    // Should fail because not initialized
    assert!(matches!(device.clear(0xFF), Err(Error::Init(_))));
}

#[test]
fn mod_test_fill_area() {
    let mut device = setup_initialized_device();
    let area = Area::new(0, 0, 100, 100);

    assert!(device.fill_area(&area, 0x80).is_ok());
}

#[test]
fn mod_test_fill_area_invalid() {
    let mut device = setup_initialized_device();
    let area = Area::new(700, 500, 200, 200); // Out of bounds

    assert!(matches!(device.fill_area(&area, 0x80), Err(Error::InvalidArea(_))));
}

#[test]
fn test_refresh() {
    let mut device = setup_initialized_device();
    assert!(device.refresh(DisplayMode::Gc16).is_ok());
}

#[test]
fn test_refresh_area() {
    let mut device = setup_initialized_device();
    let area = Area::new(100, 100, 200, 200);

    assert!(device.refresh_area(&area, DisplayMode::Du).is_ok());
}

#[test]
fn test_load_image() {
    let mut device = setup_initialized_device();
    let area = Area::new(0, 0, 20, 20);
    let data = vec![0x80; 400]; // 20x20 pixels

    assert!(device.load_image(&data, &area, PixelFormat::Bpp8).is_ok());
}

#[test]
fn test_load_image_wrong_size() {
    let mut device = setup_initialized_device();
    let area = Area::new(0, 0, 20, 20);
    let data = vec![0x80; 100]; // Too small

    assert!(matches!(
        device.load_image(&data, &area, PixelFormat::Bpp8),
        Err(Error::InvalidDimensions(_, _))
    ));
}

#[test]
fn test_load_image_size_mismatch_values() {
    let mut device = setup_initialized_device();
    let area = Area::new(0, 0, 10, 10); // 100 pixels
    let data = vec![0x80; 99]; // One byte short for 8 bits per pixel

    assert!(matches!(
        device.load_image(&data, &area, PixelFormat::Bpp8),
        Err(Error::InvalidDimensions(99, 100))
    ));
}

#[test]
fn test_load_image_expected_sizes() {
    // 10x10 pixels: each format's required byte count, rounded up to bytes.
    let mut device = setup_initialized_device();
    let area = Area::new(0, 0, 10, 10);

    // 4 bits per pixel: 50 bytes required; 49 is short.
    let data = vec![0x80; 49];
    assert!(matches!(
        device.load_image(&data, &area, PixelFormat::Bpp4),
        Err(Error::InvalidDimensions(49, 50))
    ));
    // 3 bits per pixel: ceil(100 * 3 / 8) = 38 bytes required.
    let data = vec![0x80; 37];
    assert!(matches!(
        device.load_image(&data, &area, PixelFormat::Bpp3),
        Err(Error::InvalidDimensions(37, 38))
    ));
    // 2 bits per pixel: 25 bytes required, and 25 suffices.
    let data = vec![0x80; 25];
    assert!(device.load_image(&data, &area, PixelFormat::Bpp2).is_ok());
}

#[test]
fn test_fill_packing() {
    // A 3-pixel fill with 0xAA at 8 bits per pixel: two full words, then a
    // half word carrying the value only in its low byte.
    assert_eq!(pack_fill_words(3, 0xAA), vec![0xAAAA, 0x00AA]);
    // An even count packs every word full.
    assert_eq!(pack_fill_words(4, 0x55), vec![0x5555, 0x5555]);
    assert_eq!(pack_fill_words(0, 0x55), Vec::<u16>::new());
}

#[test]
fn test_bytes_to_words_packing() {
    // Little-endian pairs; an odd final byte alone in its own word.
    assert_eq!(bytes_to_words(&[1, 2, 3]), vec![0x0201, 0x0003]);
    assert_eq!(bytes_to_words(&[0xCD, 0xAB]), vec![0xABCD]);
    assert_eq!(bytes_to_words(&[]), Vec::<u16>::new());
}

#[test]
fn test_pack_8bpp_to_4bpp_values() {
    // The top four bits of each pixel, first pixel in the high nibble; an odd
    // final pixel gets a zero low nibble.
    assert_eq!(pack_8bpp_to_4bpp(&[0xAB, 0xCD, 0xEF]), vec![0xAC, 0xE0]);
    assert_eq!(pack_8bpp_to_4bpp(&[0xFF, 0x00]), vec![0xF0]);
}

#[test]
fn test_fill_area_transmits_packed_words() {
    let mut device = setup_initialized_device();
    let area = Area::new(0, 0, 3, 1);
    device.fill_area(&area, 0xAA).unwrap();

    // The last three exchanges before the end-of-load command carry the data
    // preamble and the two packed words 0xAAAA, 0x00AA.
    let mut bytes = Vec::new();
    for chunk in device.transport.spi.get_transfers() {
        bytes.extend_from_slice(&chunk);
    }
    // The trace ends with the end-of-load command frame.
    let n = bytes.len();
    assert_eq!(&bytes[n - 4..], &[0x60, 0x00, 0x00, 0x22]);
    // Before it, the batched data write: preamble, 0xAAAA, 0x00AA.
    assert_eq!(&bytes[n - 10..n - 4], &[0x00, 0x00, 0xAA, 0xAA, 0x00, 0xAA]);
}

#[test]
fn test_refresh_area_arguments() {
    let mut device = setup_initialized_device();
    let area = Area::new(3, 4, 5, 6);
    device.refresh_area(&area, DisplayMode::A2).unwrap();

    let mut bytes = Vec::new();
    for chunk in device.transport.spi.get_transfers() {
        bytes.extend_from_slice(&chunk);
    }
    // The display-area command, then x, y, width, height and the mode code,
    // each under a data preamble.
    assert_eq!(
        bytes,
        vec![
            0x60, 0x00, 0x00, 0x34, 0x00, 0x00, 0x00, 0x03, 0x00, 0x00, 0x00, 0x04, 0x00, 0x00,
            0x00, 0x05, 0x00, 0x00, 0x00, 0x06, 0x00, 0x00, 0x00, 0x04,
        ]
    );
}
