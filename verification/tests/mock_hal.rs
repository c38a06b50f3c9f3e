use hal_core::gpio::OutputPin;
use hal_core::i2c::I2cBus;
use hal_core::mock_hal::{MockI2c, MockPin};

fn accepts_output_pin<T: OutputPin>(pin: &mut T) -> bool {
    pin.set_high().is_ok()
}

fn accepts_i2c_bus<T: I2cBus>(i2c: &mut T) -> bool {
    let mut buffer: Vec<u8> = vec![0u8; 1];
    i2c.read(0x48, &mut buffer).is_ok()
}

#[test]
fn test_mock_pin_new() {
    let pin = MockPin::new(13);
    assert_eq!(pin.pin_number(), 13);
    assert!(!pin.state());
}

#[test]
fn test_mock_pin_new_different_pin_numbers() {
    let pin1 = MockPin::new(5);
    let pin2 = MockPin::new(42);
    assert_eq!(pin1.pin_number(), 5);
    assert_eq!(pin2.pin_number(), 42);
}

#[test]
fn test_mock_pin_set_high() {
    let mut pin = MockPin::new(13);
    assert!(pin.set_high().is_ok());
    assert!(pin.state());
}

#[test]
fn test_mock_pin_set_low() {
    let mut pin = MockPin::new(13);
    pin.set_high().unwrap();
    assert!(pin.set_low().is_ok());
    assert!(!pin.state());
}

#[test]
fn test_mock_pin_set_with_true() {
    let mut pin = MockPin::new(13);
    assert!(pin.set(true).is_ok());
    assert!(pin.state());
}

#[test]
fn test_mock_pin_set_with_false() {
    let mut pin = MockPin::new(13);
    pin.set_high().unwrap();
    assert!(pin.set(false).is_ok());
    assert!(!pin.state());
}

#[test]
fn test_mock_pin_toggle_sequence() {
    let mut pin = MockPin::new(13);

    pin.set_high().unwrap();
    assert!(pin.state());

    pin.set_low().unwrap();
    assert!(!pin.state());

    pin.set_high().unwrap();
    assert!(pin.state());
}

#[test]
fn test_mock_pin_multiple_set_high() {
    let mut pin = MockPin::new(13);
    pin.set_high().unwrap();
    pin.set_high().unwrap();
    pin.set_high().unwrap();
    assert!(pin.state());
}

#[test]
fn test_mock_pin_implements_output_pin_trait() {
    let mut pin = MockPin::new(13);
    assert!(accepts_output_pin(&mut pin));
}

#[test]
fn test_mock_i2c_new() {
    let _i2c = MockI2c::new();
}

#[test]
fn test_mock_i2c_write() {
    let mut i2c = MockI2c::new();
    let data: [u8; 3] = [0x01, 0x02, 0x03];
    assert!(i2c.write(0x48, &data).is_ok());
}

#[test]
fn test_mock_i2c_write_empty() {
    let mut i2c = MockI2c::new();
    assert!(i2c.write(0x48, &[]).is_ok());
}

#[test]
fn test_mock_i2c_read() {
    let mut i2c = MockI2c::new();
    let mut buffer: Vec<u8> = vec![0u8; 4];
    assert!(i2c.read(0x48, &mut buffer).is_ok());
    assert_eq!(buffer, vec![0xFF, 0xFF, 0xFF, 0xFF]);
}

#[test]
fn test_mock_i2c_read_fills_buffer_with_0xff() {
    let mut i2c = MockI2c::new();
    let mut buffer: Vec<u8> = vec![0x00, 0x11, 0x22, 0x33];
    i2c.read(0x48, &mut buffer).unwrap();
    assert_eq!(buffer, vec![0xFF, 0xFF, 0xFF, 0xFF]);
}

#[test]
fn test_mock_i2c_read_different_sizes() {
    let mut i2c = MockI2c::new();

    let mut buffer1: Vec<u8> = vec![0u8; 1];
    i2c.read(0x48, &mut buffer1).unwrap();
    assert_eq!(buffer1, vec![0xFF]);

    let mut buffer8: Vec<u8> = vec![0u8; 8];
    i2c.read(0x48, &mut buffer8).unwrap();
    assert_eq!(buffer8, vec![0xFF; 8]);
}

#[test]
fn test_mock_i2c_write_read() {
    let mut i2c = MockI2c::new();
    let write_data: [u8; 1] = [0x03];
    let mut read_buffer: Vec<u8> = vec![0u8; 2];

    assert!(i2c.write_read(0x48, &write_data, &mut read_buffer).is_ok());
    assert_eq!(read_buffer, vec![0xFF, 0xFF]);
}

#[test]
fn test_mock_i2c_write_read_empty_write() {
    let mut i2c = MockI2c::new();
    let mut read_buffer: Vec<u8> = vec![0u8; 2];

    assert!(i2c.write_read(0x48, &[], &mut read_buffer).is_ok());
    assert_eq!(read_buffer, vec![0xFF, 0xFF]);
}

#[test]
fn test_mock_i2c_different_addresses() {
    let mut i2c = MockI2c::new();
    let mut buffer: Vec<u8> = vec![0u8; 2];

    assert!(i2c.read(0x20, &mut buffer).is_ok());
    assert!(i2c.read(0x48, &mut buffer).is_ok());
    assert!(i2c.read(0x77, &mut buffer).is_ok());
}

#[test]
fn test_mock_i2c_implements_i2c_bus_trait() {
    let mut i2c = MockI2c::new();
    assert!(accepts_i2c_bus(&mut i2c));
}

#[test]
fn test_mock_i2c_multiple_operations() {
    let mut i2c = MockI2c::new();

    i2c.write(0x48, &[0x01]).unwrap();
    let mut buffer: Vec<u8> = vec![0u8; 2];
    i2c.read(0x48, &mut buffer).unwrap();
    i2c.write_read(0x48, &[0x02], &mut buffer).unwrap();

    assert_eq!(buffer, vec![0xFF, 0xFF]);
}

#[test]
fn test_mock_pin_counts_invocations() {
    let mut pin = MockPin::new(13);
    assert_eq!(pin.set_calls(), 0);
    pin.set_high().unwrap();
    pin.set_low().unwrap();
    pin.set(true).unwrap();
    assert_eq!(pin.set_calls(), 3);
}

#[test]
fn test_mock_i2c_counts_and_records_reads() {
    let mut i2c = MockI2c::new();
    assert_eq!(i2c.write_calls(), 0);
    assert_eq!(i2c.read_calls(), 0);
    assert_eq!(i2c.last_read(), None);

    i2c.write(0x21, &[0x05]).unwrap();
    assert_eq!(i2c.write_calls(), 1);
    assert_eq!(i2c.read_calls(), 0);
    assert_eq!(i2c.last_read(), None);

    let mut buffer: Vec<u8> = vec![0u8; 3];
    i2c.read(0x21, &mut buffer).unwrap();
    assert_eq!(i2c.read_calls(), 1);
    assert_eq!(i2c.last_read(), Some((0x21, 3)));

    let mut buffer2: Vec<u8> = vec![0u8; 2];
    i2c.write_read(0x33, &[0x01], &mut buffer2).unwrap();
    assert_eq!(i2c.write_calls(), 2);
    assert_eq!(i2c.read_calls(), 2);
    assert_eq!(i2c.last_read(), Some((0x33, 2)));
}
