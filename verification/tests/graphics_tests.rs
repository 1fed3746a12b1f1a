use it8951::types::DeviceInfo;
use it8951::Area;
use it8951::DisplayMode;
use it8951::Framebuffer;
use it8951::IT8951Builder;
use it8951::IT8951;

#[test]
fn test_framebuffer_new() {
    let fb = Framebuffer::new(800, 600);
    assert_eq!(fb.width(), 800);
    assert_eq!(fb.height(), 600);
    assert_eq!(fb.data().len(), 800 * 600);
}

#[test]
fn test_clear() {
    let mut fb = Framebuffer::new(100, 100);
    fb.clear(0xFF);
    assert_eq!(fb.get_pixel(0, 0).unwrap(), 0xFF);
    assert_eq!(fb.get_pixel(50, 50).unwrap(), 0xFF);
    assert_eq!(fb.get_pixel(99, 99).unwrap(), 0xFF);
}

#[test]
fn test_set_get_pixel() {
    let mut fb = Framebuffer::new(100, 100);
    fb.set_pixel(50, 50, 0x80).unwrap();
    assert_eq!(fb.get_pixel(50, 50).unwrap(), 0x80);
}

#[test]
fn test_set_pixel_out_of_bounds() {
    let mut fb = Framebuffer::new(100, 100);
    assert!(fb.set_pixel(100, 50, 0x80).is_err());
    assert!(fb.set_pixel(50, 100, 0x80).is_err());
}

#[test]
fn test_get_pixel_out_of_bounds() {
    let fb = Framebuffer::new(100, 100);
    assert!(fb.get_pixel(100, 50).is_err());
    assert!(fb.get_pixel(50, 100).is_err());
}

#[test]
fn test_draw_line_horizontal() {
    let mut fb = Framebuffer::new(100, 100);
    fb.clear(0xFF);
    fb.draw_line(10, 50, 90, 50, 0x00);

    // Check endpoints and middle
    assert_eq!(fb.get_pixel(10, 50).unwrap(), 0x00);
    assert_eq!(fb.get_pixel(50, 50).unwrap(), 0x00);
    assert_eq!(fb.get_pixel(90, 50).unwrap(), 0x00);

    // Check pixel not on line
    assert_eq!(fb.get_pixel(50, 51).unwrap(), 0xFF);
}

#[test]
fn test_draw_line_vertical() {
    let mut fb = Framebuffer::new(100, 100);
    fb.clear(0xFF);
    fb.draw_line(50, 10, 50, 90, 0x00);

    // Check endpoints and middle
    assert_eq!(fb.get_pixel(50, 10).unwrap(), 0x00);
    assert_eq!(fb.get_pixel(50, 50).unwrap(), 0x00);
    assert_eq!(fb.get_pixel(50, 90).unwrap(), 0x00);

    // Check pixel not on line
    assert_eq!(fb.get_pixel(51, 50).unwrap(), 0xFF);
}

#[test]
fn test_draw_line_endpoints() {
    let mut fb = Framebuffer::new(100, 100);
    fb.clear(0xFF);
    // A steep, skewed line: both in-bounds endpoints carry the value.
    fb.draw_line(3, 7, 41, 93, 0x00);
    assert_eq!(fb.get_pixel(3, 7).unwrap(), 0x00);
    assert_eq!(fb.get_pixel(41, 93).unwrap(), 0x00);
}

#[test]
fn test_draw_circle_radius_zero() {
    let mut fb = Framebuffer::new(10, 10);
    fb.clear(0xFF);
    fb.draw_circle(4, 5, 0, 0x00, false);
    assert_eq!(fb.get_pixel(4, 5).unwrap(), 0x00);
    assert_eq!(fb.get_pixel(5, 5).unwrap(), 0xFF);
    assert_eq!(fb.get_pixel(4, 4).unwrap(), 0xFF);
}

#[test]
fn test_draw_line_diagonal() {
    let mut fb = Framebuffer::new(100, 100);
    fb.clear(0xFF);
    fb.draw_line(0, 0, 99, 99, 0x00);

    // Check some points on the diagonal
    assert_eq!(fb.get_pixel(0, 0).unwrap(), 0x00);
    assert_eq!(fb.get_pixel(50, 50).unwrap(), 0x00);
    assert_eq!(fb.get_pixel(99, 99).unwrap(), 0x00);
}

#[test]
fn test_draw_rect_outline() {
    let mut fb = Framebuffer::new(100, 100);
    fb.clear(0xFF);
    fb.draw_rect(20, 20, 60, 40, 0x00, false);

    // Check corners
    assert_eq!(fb.get_pixel(20, 20).unwrap(), 0x00);
    assert_eq!(fb.get_pixel(79, 20).unwrap(), 0x00);
    assert_eq!(fb.get_pixel(20, 59).unwrap(), 0x00);
    assert_eq!(fb.get_pixel(79, 59).unwrap(), 0x00);

    // Check interior is not filled
    assert_eq!(fb.get_pixel(50, 50).unwrap(), 0xFF);
}

#[test]
fn test_draw_rect_filled() {
    let mut fb = Framebuffer::new(100, 100);
    fb.clear(0xFF);
    fb.draw_rect(20, 20, 60, 40, 0x00, true);

    // Check corners and interior
    assert_eq!(fb.get_pixel(20, 20).unwrap(), 0x00);
    assert_eq!(fb.get_pixel(79, 59).unwrap(), 0x00);
    assert_eq!(fb.get_pixel(50, 50).unwrap(), 0x00);

    // Check outside is not filled
    assert_eq!(fb.get_pixel(10, 10).unwrap(), 0xFF);
}

#[test]
fn test_draw_circle_outline() {
    let mut fb = Framebuffer::new(200, 200);
    fb.clear(0xFF);
    fb.draw_circle(100, 100, 50, 0x00, false);

    // Check center is not filled
    assert_eq!(fb.get_pixel(100, 100).unwrap(), 0xFF);

    // Check some points on the circle (approximately)
    // Top point
    assert_eq!(fb.get_pixel(100, 50).unwrap(), 0x00);
    // Right point
    assert_eq!(fb.get_pixel(150, 100).unwrap(), 0x00);
}

#[test]
fn test_draw_circle_filled() {
    let mut fb = Framebuffer::new(200, 200);
    fb.clear(0xFF);
    fb.draw_circle(100, 100, 50, 0x00, true);

    // Check center is filled
    assert_eq!(fb.get_pixel(100, 100).unwrap(), 0x00);

    // Check interior point is filled
    assert_eq!(fb.get_pixel(100, 75).unwrap(), 0x00);

    // Check outside is not filled
    assert_eq!(fb.get_pixel(100, 40).unwrap(), 0xFF);
}

#[test]
fn test_fill_area() {
    let mut fb = Framebuffer::new(200, 200);
    fb.clear(0xFF);

    let area = Area::new(50, 50, 100, 80);
    fb.fill_area(&area, 0x80).unwrap();

    // Check filled area
    assert_eq!(fb.get_pixel(50, 50).unwrap(), 0x80);
    assert_eq!(fb.get_pixel(100, 100).unwrap(), 0x80);
    assert_eq!(fb.get_pixel(149, 129).unwrap(), 0x80);

    // Check outside is not filled
    assert_eq!(fb.get_pixel(40, 50).unwrap(), 0xFF);
    assert_eq!(fb.get_pixel(50, 40).unwrap(), 0xFF);
}

#[test]
fn test_fill_area_invalid() {
    let mut fb = Framebuffer::new(100, 100);
    let area = Area::new(50, 50, 100, 100); // Extends beyond bounds
    assert!(fb.fill_area(&area, 0x80).is_err());
}

#[test]
fn test_fill_rect_clipped() {
    let mut fb = Framebuffer::new(100, 100);
    fb.clear(0xFF);
    // Reaches past the right and bottom edges; the in-bounds part is filled.
    fb.fill_rect(90, 90, 20, 20, 0x00);
    assert_eq!(fb.get_pixel(90, 90).unwrap(), 0x00);
    assert_eq!(fb.get_pixel(99, 99).unwrap(), 0x00);
    assert_eq!(fb.get_pixel(89, 90).unwrap(), 0xFF);
}

#[test]
fn test_scroll_up() {
    let mut fb = Framebuffer::new(4, 4);
    for y in 0..4u16 {
        for x in 0..4u16 {
            fb.set_pixel(x, y, y as u8).unwrap();
        }
    }
    fb.scroll_up(1, 9);
    // Every row takes the contents of the row below it.
    assert_eq!(fb.get_pixel(0, 0).unwrap(), 1);
    assert_eq!(fb.get_pixel(3, 2).unwrap(), 3);
    // The freed bottom row takes the fill value.
    assert_eq!(fb.get_pixel(0, 3).unwrap(), 9);
}

#[test]
fn test_scroll_region_up() {
    let mut fb = Framebuffer::new(4, 4);
    for y in 0..4u16 {
        for x in 0..4u16 {
            fb.set_pixel(x, y, y as u8).unwrap();
        }
    }
    // Scroll only the middle 2x2 region up by one row.
    fb.scroll_region_up(1, 1, 2, 2, 1, 7);
    // Inside the region: the top row took the row below, the bottom the fill.
    assert_eq!(fb.get_pixel(1, 1).unwrap(), 2);
    assert_eq!(fb.get_pixel(2, 2).unwrap(), 7);
    // Outside the region nothing moved.
    assert_eq!(fb.get_pixel(0, 1).unwrap(), 1);
    assert_eq!(fb.get_pixel(3, 2).unwrap(), 2);
    assert_eq!(fb.get_pixel(1, 3).unwrap(), 3);
}

fn initialized_mock(
    width: u16,
    height: u16,
) -> IT8951<
    it8951::MockSpi,
    it8951::MockInputPin,
    it8951::MockOutputPin,
    it8951::MockOutputPin,
> {
    let mut device = IT8951Builder::new().build_mock().unwrap();
    device.device_info = Some(DeviceInfo {
        panel_width: width,
        panel_height: height,
        img_buf_addr: 0x00100000,
        fw_version: "1.0".to_string(),
        lut_version: "1.0".to_string(),
    });
    device
}

#[test]
fn test_draw_framebuffer() {
    let mut device = initialized_mock(800, 600);

    let mut fb = Framebuffer::new(100, 100);
    fb.clear(0xFF);

    let area = Area::new(0, 0, 100, 100);
    device.draw_framebuffer(&fb, &area, false, DisplayMode::Gc16).unwrap();
}

#[test]
fn test_draw_framebuffer_dimension_mismatch() {
    let mut device = initialized_mock(800, 600);

    let fb = Framebuffer::new(100, 100);
    let area = Area::new(0, 0, 200, 100); // Different width

    assert!(device.draw_framebuffer(&fb, &area, false, DisplayMode::Gc16).is_err());
}

#[test]
fn test_create_framebuffer() {
    let device = initialized_mock(800, 600);

    let fb = device.create_framebuffer().unwrap();
    assert_eq!(fb.width(), 800);
    assert_eq!(fb.height(), 600);
}

#[test]
fn test_create_framebuffer_not_initialized() {
    let device = IT8951Builder::new().build_mock().unwrap();
    assert!(device.create_framebuffer().is_err());
}

#[test]
fn test_draw_framebuffer_full() {
    let mut device = initialized_mock(100, 100);

    let mut fb = Framebuffer::new(100, 100);
    fb.clear(0xFF);

    device.draw_framebuffer_full(&fb, DisplayMode::Gc16).unwrap();
}

#[test]
fn test_draw_framebuffer_full_size_mismatch() {
    let mut device = initialized_mock(800, 600);

    let fb = Framebuffer::new(100, 100);
    assert!(device.draw_framebuffer_full(&fb, DisplayMode::Gc16).is_err());
}
