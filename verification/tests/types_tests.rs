use it8951::types::DeviceInfo;
use it8951::Area;
use it8951::DisplayMode;
use it8951::Error;
use it8951::PixelFormat;

#[test]
fn test_device_info_from_raw() {
    let mut data = vec![0u16; 20];
    data[0] = 800; // width
    data[1] = 600; // height
    data[2] = 0x1234; // addr low
    data[3] = 0x5678; // addr high

    let info = DeviceInfo::from_raw(&data).unwrap();
    assert_eq!(info.panel_width, 800);
    assert_eq!(info.panel_height, 600);
    assert_eq!(info.img_buf_addr, 0x56781234);
    assert_eq!(info.pixel_count(), 480000);
}

#[test]
fn test_device_info_from_raw_short() {
    let data = vec![0u16; 19];
    assert!(matches!(DeviceInfo::from_raw(&data), Err(Error::Protocol(_))));
}

#[test]
fn test_device_info_version_strings() {
    let mut data = vec![0u16; 20];
    data[0] = 400;
    data[1] = 300;
    // Firmware version "abc": 'a' then 'b' in the first word (low byte first),
    // 'c' then a zero terminator in the second.
    data[4] = (b'b' as u16) * 256 + b'a' as u16;
    data[5] = b'c' as u16;
    // LUT version "v2".
    data[12] = (b'2' as u16) * 256 + b'v' as u16;

    let info = DeviceInfo::from_raw(&data).unwrap();
    assert_eq!(info.fw_version, "abc");
    assert_eq!(info.lut_version, "v2");
}

#[test]
fn test_device_info_version_non_ascii_utf8() {
    let mut data = vec![0u16; 20];
    data[0] = 400;
    data[1] = 300;
    // The two UTF-8 bytes 0xC3 0xA9 in one word, low byte first: valid UTF-8
    // beyond ASCII decodes as text, here LATIN SMALL LETTER E WITH ACUTE.
    data[4] = 0xA9C3;

    let info = DeviceInfo::from_raw(&data).unwrap();
    assert_eq!(info.fw_version, "\u{e9}");
}

#[test]
fn test_device_info_version_invalid_utf8() {
    let mut data = vec![0u16; 20];
    data[0] = 400;
    data[1] = 300;
    // 0xFF is never part of a valid UTF-8 encoding: the placeholder stands in.
    data[4] = 0x00FF;

    let info = DeviceInfo::from_raw(&data).unwrap();
    assert_eq!(info.fw_version, "Unknown");
}

#[test]
fn test_area_validity() {
    let area = Area::new(0, 0, 100, 100);
    assert!(area.is_valid(800, 600));

    let area = Area::new(750, 550, 100, 100);
    assert!(!area.is_valid(800, 600));
}

#[test]
fn test_area_validity_edges() {
    // Zero spans are never valid.
    assert!(!Area::new(0, 0, 0, 10).is_valid(800, 600));
    assert!(!Area::new(0, 0, 10, 0).is_valid(800, 600));
    // The full panel is valid.
    assert!(Area::new(0, 0, 800, 600).is_valid(800, 600));
    assert!(Area::new(0, 0, 65535, 65535).is_valid(65535, 65535));
    // An area whose right edge overflows the coordinate space is invalid even
    // on the largest panel.
    assert!(!Area::new(1, 0, 65535, 10).is_valid(65535, 65535));
}

#[test]
fn test_area_intersection() {
    let area1 = Area::new(0, 0, 100, 100);
    let area2 = Area::new(50, 50, 100, 100);

    let intersection = area1.intersect(&area2);
    assert_eq!(intersection, Some(Area::new(50, 50, 50, 50)));

    let area3 = Area::new(200, 200, 100, 100);
    assert_eq!(area1.intersect(&area3), None);
}

#[test]
fn test_area_union() {
    let area1 = Area::new(0, 0, 100, 100);
    let area2 = Area::new(50, 50, 100, 100);

    let union = area1.union(&area2);
    assert_eq!(union, Area::new(0, 0, 150, 150));
}

#[test]
fn test_pixel_format_bits() {
    assert_eq!(PixelFormat::Bpp2.bits(), 2);
    assert_eq!(PixelFormat::Bpp3.bits(), 3);
    assert_eq!(PixelFormat::Bpp4.bits(), 4);
    assert_eq!(PixelFormat::Bpp8.bits(), 8);
}

#[test]
fn test_pixel_format_gray_levels() {
    assert_eq!(PixelFormat::Bpp2.gray_levels(), 4);
    assert_eq!(PixelFormat::Bpp3.gray_levels(), 8);
    assert_eq!(PixelFormat::Bpp4.gray_levels(), 16);
    assert_eq!(PixelFormat::Bpp8.gray_levels(), 256);
}

#[test]
fn test_display_mode_values() {
    assert_eq!(DisplayMode::Init.as_u16(), 0);
    assert_eq!(DisplayMode::Du.as_u16(), 1);
    assert_eq!(DisplayMode::Gc16.as_u16(), 2);
    assert_eq!(DisplayMode::Gl16.as_u16(), 3);
    assert_eq!(DisplayMode::A2.as_u16(), 4);
}

#[test]
fn test_area_from_tuple() {
    let area: Area = (10, 20, 100, 200).into();
    assert_eq!(area.x, 10);
    assert_eq!(area.y, 20);
    assert_eq!(area.width, 100);
    assert_eq!(area.height, 200);
}

#[test]
fn test_basic_types() {
    let area = Area::new(0, 0, 800, 600);
    assert_eq!(area.pixel_count(), 480000);

    let mode = DisplayMode::Gc16;
    assert_eq!(mode.as_u16(), 2);

    let format = PixelFormat::Bpp8;
    assert_eq!(format.bits(), 8);
    assert_eq!(format.gray_levels(), 256);
}
