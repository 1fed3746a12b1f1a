use it8951::Error;
use it8951::IT8951Builder;
use it8951::MockInputPin;
use it8951::MockOutputPin;
use it8951::MockSpi;
use it8951::PinState;
use it8951::IT8951;

fn setup_device() -> IT8951<MockSpi, MockInputPin, MockOutputPin, MockOutputPin> {
    let spi = MockSpi::new();
    let hrdy = MockInputPin::new(PinState::High);
    let cs = MockOutputPin::new(PinState::High);
    let reset = MockOutputPin::new(PinState::High);

    IT8951::new(spi, hrdy, cs, reset, 1500)
}

#[test]
fn test_device_creation() {
    let device = setup_device();
    assert_eq!(device.vcom(), 1500);
    assert!(device.device_info().is_none());
}

#[test]
fn test_reset() {
    let mut device = setup_device();
    device.reset().unwrap();

    let history = device.reset.get_history();
    assert!(history.contains(&PinState::Low));
    assert!(history.contains(&PinState::High));
}

#[test]
fn test_vcom_validation() {
    let mut device = setup_device();

    // Valid VCOM
    assert!(device.write_vcom(1500).is_ok());

    // Invalid VCOM (too high)
    assert!(matches!(device.write_vcom(6000), Err(Error::InvalidVcom(6000))));
}

#[test]
fn test_vcom_bounds() {
    let mut device = setup_device();

    // The highest permitted value succeeds and is recorded.
    assert!(device.write_vcom(5000).is_ok());
    assert_eq!(device.vcom(), 5000);

    // One past it fails, naming the offending value, and the configured value
    // stays as it was.
    assert!(matches!(device.write_vcom(5001), Err(Error::InvalidVcom(5001))));
    assert_eq!(device.vcom(), 5000);
}

#[test]
fn test_power_state_commands() {
    let mut device = setup_device();

    assert!(device.run().is_ok());
    assert!(device.standby().is_ok());
    assert!(device.sleep().is_ok());
}

#[test]
fn test_read_vcom_value() {
    let mut device = setup_device();
    // The VCOM command and selector word consume 8 response bytes; the read's
    // preamble and turnaround consume 4 more; the value follows.
    device.transport.spi.add_response(vec![0, 0, 0, 0, 0, 0, 0, 0, 0, 0, 0, 0, 0x05, 0xDC]);
    assert_eq!(device.read_vcom().unwrap(), 1500);
}

#[test]
fn test_init_parses_identification() {
    let mut device = setup_device();

    // The identification query consumes 8 response bytes (its command frame
    // and the read's preamble and turnaround) before the 20 words.
    let mut response = vec![0u8; 8];
    let mut words = [0u16; 20];
    words[0] = 800; // width
    words[1] = 600; // height
    words[2] = 0x1234; // addr low
    words[3] = 0x5678; // addr high
    // Firmware version "v1".
    words[4] = (b'1' as u16) * 256 + b'v' as u16;
    for w in words {
        response.push((w >> 8) as u8);
        response.push((w & 0xFF) as u8);
    }
    device.transport.spi.add_response(response);

    device.init().unwrap();

    assert_eq!(device.width(), 800);
    assert_eq!(device.height(), 600);
    assert_eq!(device.img_buf_addr(), 0x56781234);
    let info = device.device_info().unwrap();
    assert_eq!(info.fw_version, "v1");
    assert_eq!(info.lut_version, "");
    // The VCOM read returned zero, so init wrote the configured target.
    assert_eq!(device.vcom(), 1500);
}

#[test]
fn test_init_programs_buffer_address_high_half_first() {
    let mut device = setup_device();

    let mut response = vec![0u8; 8];
    let mut words = [0u16; 20];
    words[0] = 800;
    words[1] = 600;
    words[2] = 0x1234; // addr low
    words[3] = 0x5678; // addr high
    for w in words {
        response.push((w >> 8) as u8);
        response.push((w & 0xFF) as u8);
    }
    device.transport.spi.add_response(response);

    device.init().unwrap();

    let mut bytes = Vec::new();
    for chunk in device.transport.spi.get_transfers() {
        bytes.extend_from_slice(&chunk);
    }
    // The identification query shifts out 48 bytes: its command frame, then
    // the read preamble, the turnaround gap and 40 clock-out bytes. The two
    // register writes that program the image buffer address follow, high
    // half into the high register first — the device latches the composite
    // address on the low-half write.
    assert_eq!(
        &bytes[48..60],
        &[0x60, 0x00, 0x00, 0x11, 0x00, 0x00, 0x02, 0x0A, 0x00, 0x00, 0x56, 0x78]
    );
    assert_eq!(
        &bytes[60..72],
        &[0x60, 0x00, 0x00, 0x11, 0x00, 0x00, 0x02, 0x08, 0x00, 0x00, 0x12, 0x34]
    );
    // The packed-mode enable comes next.
    assert_eq!(
        &bytes[72..84],
        &[0x60, 0x00, 0x00, 0x11, 0x00, 0x00, 0x00, 0x04, 0x00, 0x00, 0x00, 0x01]
    );
}

#[test]
fn test_wait_display_ready_idle() {
    let mut device = setup_device();
    // An exhausted response stream reads the status register as zero: every
    // engine idle, one poll suffices.
    assert!(device.wait_display_ready().is_ok());
}

#[test]
fn test_builder_default() {
    let builder = IT8951Builder::new();
    assert_eq!(builder.vcom, 1500);
}

#[test]
fn test_builder_vcom() {
    let builder = IT8951Builder::new().vcom(1530);
    assert_eq!(builder.vcom, 1530);
}

#[test]
fn test_builder_validation() {
    let builder = IT8951Builder::new().vcom(6000);
    assert!(matches!(builder.validate(), Err(Error::InvalidVcom(6000))));
}

#[test]
fn test_build_mock() {
    let device = IT8951Builder::new().vcom(1500).build_mock().unwrap();
    assert_eq!(device.vcom(), 1500);
}

#[test]
fn test_build_mock_invalid_vcom() {
    let result = IT8951Builder::new().vcom(6000).build_mock();
    assert!(matches!(result, Err(Error::InvalidVcom(6000))));
}
