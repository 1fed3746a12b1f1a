use it8951::Command;
use it8951::Error;
use it8951::MockInputPin;
use it8951::MockOutputPin;
use it8951::MockSpi;
use it8951::PinState;
use it8951::Register;
use it8951::Transport;

fn setup_transport() -> Transport<MockSpi, MockInputPin, MockOutputPin> {
    let spi = MockSpi::new();
    let hrdy = MockInputPin::new(PinState::High); // Always ready for tests
    let cs = MockOutputPin::new(PinState::High);

    Transport::new(spi, hrdy, cs)
}

/// All bytes shifted out, in order, across every exchange.
fn sent_bytes(transport: &Transport<MockSpi, MockInputPin, MockOutputPin>) -> Vec<u8> {
    let mut bytes = Vec::new();
    for chunk in transport.spi.get_transfers() {
        bytes.extend_from_slice(&chunk);
    }
    bytes
}

#[test]
fn test_write_command() {
    let mut transport = setup_transport();

    transport.write_command(Command::SysRun).unwrap();

    // Verify CS was toggled
    let history = transport.cs.get_history();
    assert!(history.contains(&PinState::Low));
    assert!(history.contains(&PinState::High));

    // Verify SPI transfers
    let transfers = transport.spi.get_transfers();
    assert!(!transfers.is_empty());
}

#[test]
fn test_write_command_bytes() {
    let mut transport = setup_transport();
    transport.write_command(Command::SysRun).unwrap();
    // The command preamble, then the opcode, big-endian.
    assert_eq!(sent_bytes(&transport), vec![0x60, 0x00, 0x00, 0x01]);
}

#[test]
fn test_write_data() {
    let mut transport = setup_transport();

    transport.write_data(0x1234).unwrap();

    let transfers = transport.spi.get_transfers();
    assert!(!transfers.is_empty());
}

#[test]
fn test_write_data_bytes() {
    let mut transport = setup_transport();
    transport.write_data(0x1234).unwrap();
    // The data preamble, then the word, big-endian.
    assert_eq!(sent_bytes(&transport), vec![0x00, 0x00, 0x12, 0x34]);
}

#[test]
fn test_read_data() {
    let mut transport = setup_transport();

    // Set up response: preamble (2 bytes) + dummy (2 bytes) + data (2 bytes)
    transport.spi.add_response(vec![0x00, 0x00, 0x00, 0x00, 0x12, 0x34]);

    let result = transport.read_data().unwrap();

    // Should read the last 2 bytes as 0x1234
    assert_eq!(result, 0x1234);
}

#[test]
fn test_timeout() {
    let spi = MockSpi::new();
    let hrdy = MockInputPin::new(PinState::Low); // Never ready
    let cs = MockOutputPin::new(PinState::High);

    let mut transport = Transport::new(spi, hrdy, cs);
    transport.set_timeout(10);

    // This should timeout
    let result = transport.wait_ready();
    assert!(matches!(result, Err(Error::Timeout(_))));
}

#[test]
fn test_timeout_deadline() {
    let spi = MockSpi::new();
    let hrdy = MockInputPin::new(PinState::Low); // Never ready
    let cs = MockOutputPin::new(PinState::High);

    let mut transport = Transport::new(spi, hrdy, cs);
    transport.set_timeout(50);

    // A transport operation on a never-ready line fails after the configured
    // deadline — not before, not indefinitely — with the budget in the error.
    let start = std::time::Instant::now();
    let result = transport.write_command(Command::SysRun);
    let elapsed = start.elapsed();

    assert!(matches!(result, Err(Error::Timeout(50))));
    assert!(elapsed.as_millis() >= 50);
    assert!(elapsed.as_millis() < 5000);
}

#[test]
fn test_write_data_batch() {
    let mut transport = setup_transport();

    let data = vec![0x1111, 0x2222, 0x3333];
    transport.write_data_batch(&data).unwrap();

    let transfers = transport.spi.get_transfers();
    assert!(!transfers.is_empty());
}

#[test]
fn test_write_data_batch_bytes() {
    let mut transport = setup_transport();
    transport.write_data_batch(&[0x1111, 0x2222]).unwrap();
    // One data preamble, then every word.
    assert_eq!(sent_bytes(&transport), vec![0x00, 0x00, 0x11, 0x11, 0x22, 0x22]);
}

#[test]
fn test_write_command_with_args() {
    let mut transport = setup_transport();

    let args = vec![0x1234, 0x5678];
    transport.write_command_with_args(Command::RegWrite, &args).unwrap();

    let transfers = transport.spi.get_transfers();
    // Should have command + args transfers
    assert!(transfers.len() > 1);
}

#[test]
fn test_read_register() {
    let mut transport = setup_transport();

    // RegRead command: cmd preamble (2) + cmd (2) + addr preamble (2) + addr (2)
    // + read preamble (2) + dummy (2) + data (2) = 14 bytes total
    transport.spi.add_response(vec![
        0x00, 0x00, 0x00, 0x00, // command
        0x00, 0x00, 0x00, 0x00, // address
        0x00, 0x00, 0x00, 0x00, // read preamble + dummy
        0x12, 0x34, // actual data
    ]);

    let result = transport.read_register(Register::i80cpcr()).unwrap();
    assert_eq!(result, 0x1234);
}

#[test]
fn test_write_register() {
    let mut transport = setup_transport();

    transport.write_register(Register::i80cpcr(), 0xABCD).unwrap();

    let transfers = transport.spi.get_transfers();
    assert!(transfers.len() >= 2); // Command + address + value
}

#[test]
fn test_write_register_bytes() {
    let mut transport = setup_transport();
    transport.write_register(Register::new(0x020A), 0xBEEF).unwrap();
    // The register-write command, the address, the value, each its own frame.
    assert_eq!(
        sent_bytes(&transport),
        vec![0x60, 0x00, 0x00, 0x11, 0x00, 0x00, 0x02, 0x0A, 0x00, 0x00, 0xBE, 0xEF]
    );
}

#[test]
fn test_read_data_batch_order() {
    let mut transport = setup_transport();
    // Preamble (2) + dummy (2), then three words in request order.
    transport.spi.add_response(vec![0, 0, 0, 0, 0x00, 0x01, 0x00, 0x02, 0x00, 0x03]);
    let words = transport.read_data_batch(3).unwrap();
    assert_eq!(words, vec![1, 2, 3]);
}

#[test]
fn test_read_data_batch_exhausted_stream() {
    let mut transport = setup_transport();
    // No queued response: every word reads as zero.
    let words = transport.read_data_batch(4).unwrap();
    assert_eq!(words, vec![0, 0, 0, 0]);
}
