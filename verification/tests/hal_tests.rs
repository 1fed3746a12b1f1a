use it8951::InputPin;
use it8951::MockInputPin;
use it8951::MockOutputPin;
use it8951::MockSpi;
use it8951::OutputPin;
use it8951::PinState;
use it8951::SpiInterface;
use it8951::SpiMode;
use it8951::SpiTransfer;

#[test]
fn test_pin_state_from_bool() {
    assert_eq!(PinState::from(true), PinState::High);
    assert_eq!(PinState::from(false), PinState::Low);
}

#[test]
fn test_bool_from_pin_state() {
    assert!(bool::from(PinState::High));
    assert!(!bool::from(PinState::Low));
}

#[test]
fn test_spi_mode_number() {
    assert_eq!(SpiMode::Mode0.mode_number(), 0);
    assert_eq!(SpiMode::Mode1.mode_number(), 1);
    assert_eq!(SpiMode::Mode2.mode_number(), 2);
    assert_eq!(SpiMode::Mode3.mode_number(), 3);
}

#[test]
fn test_mock_spi_transfer() {
    let mut spi = MockSpi::new();
    spi.add_response(vec![0x12, 0x34]);

    let result = spi.transfer(&[0xAB, 0xCD]).unwrap();
    assert_eq!(result, vec![0x12, 0x34]);

    let transfers = spi.get_transfers();
    assert_eq!(transfers.len(), 1);
    assert_eq!(transfers[0], vec![0xAB, 0xCD]);
}

#[test]
fn test_mock_spi_transfer_byte() {
    let mut spi = MockSpi::new();
    spi.add_response(vec![0x55]);

    // The queued byte comes back; an exhausted queue answers zero.
    assert_eq!(spi.transfer_byte(0x01).unwrap(), 0x55);
    assert_eq!(spi.transfer_byte(0x02).unwrap(), 0x00);

    let transfers = spi.get_transfers();
    assert_eq!(transfers, vec![vec![0x01], vec![0x02]]);
}

#[test]
fn test_mock_spi_config() {
    let mut spi = MockSpi::new();
    assert_eq!(spi.clock_hz(), 24_000_000);

    spi.set_clock_hz(12_000_000).unwrap();
    assert_eq!(spi.clock_hz(), 12_000_000);
}

#[test]
fn test_mock_input_pin() {
    let mut pin = MockInputPin::new(PinState::Low);
    assert!(!pin.is_high().unwrap());
    assert!(pin.is_low().unwrap());

    pin.set_state(PinState::High);
    assert!(pin.is_high().unwrap());
    assert!(!pin.is_low().unwrap());
}

#[test]
fn test_mock_output_pin() {
    let mut pin = MockOutputPin::new(PinState::Low);
    assert_eq!(pin.get_state(), PinState::Low);

    pin.set_high().unwrap();
    assert_eq!(pin.get_state(), PinState::High);

    pin.set_low().unwrap();
    assert_eq!(pin.get_state(), PinState::Low);

    let history = pin.get_history();
    assert_eq!(history, vec![PinState::Low, PinState::High, PinState::Low]);
}

#[test]
fn test_mock_output_pin_toggle() {
    let mut pin = MockOutputPin::new(PinState::Low);

    pin.toggle().unwrap();
    assert_eq!(pin.get_state(), PinState::High);

    pin.toggle().unwrap();
    assert_eq!(pin.get_state(), PinState::Low);
}

#[test]
fn test_input_pin_read() {
    let pin = MockInputPin::new(PinState::High);
    assert_eq!(pin.read().unwrap(), PinState::High);
}

#[test]
fn test_output_pin_set_state() {
    let mut pin = MockOutputPin::new(PinState::Low);
    pin.set_state(PinState::High).unwrap();
    assert_eq!(pin.get_state(), PinState::High);
    pin.set_state(PinState::Low).unwrap();
    assert_eq!(pin.get_state(), PinState::Low);
}
