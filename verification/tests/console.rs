use hermit_kernel::console::{Console, IoDevice, UhyveSerial, SERIAL_BUFFER_SIZE};
use hermit_kernel::serial_device::{SerialDevice, SerialInner};
use hermit_kernel::serial_port::SerialPort;

#[test]
fn test_console() {
    println!("HelloWorld");
    let mut console = Console::new(IoDevice::Uhyve(UhyveSerial::new()));
    console.write(b"HelloWorld");
    assert_eq!(console.take_output(), Vec::<u8>::new());
    console.write(b"\n");
    assert_eq!(console.take_output(), b"HelloWorld\n".to_vec());
}

#[test]
fn console_gathers_until_a_line_ends() {
    let mut console = Console::new(IoDevice::Uart(SerialDevice::new(false)));
    console.write(b"one ");
    console.write(b"two ");
    assert!(console.take_output().is_empty());
    console.write(b"three\nfour");
    assert_eq!(console.take_output(), b"one two three\nfour".to_vec());
    console.write(b"five");
    assert!(console.take_output().is_empty());
    console.flush();
    assert_eq!(console.take_output(), b"five".to_vec());
    console.flush();
    assert!(console.take_output().is_empty());
}

#[test]
fn console_hands_on_what_does_not_fit() {
    let mut console = Console::new(IoDevice::Uhyve(UhyveSerial::new()));
    let first = vec![b'a'; 200];
    let second = vec![b'b'; 100];
    console.write(&first);
    assert!(console.take_output().is_empty());
    console.write(&second);
    assert_eq!(console.take_output(), first);
    console.flush();
    assert_eq!(console.take_output(), second);
}

#[test]
fn console_passes_long_writes_through() {
    let mut console = Console::new(IoDevice::Uhyve(UhyveSerial::new()));
    console.write(b"abc");
    let long = vec![b'x'; SERIAL_BUFFER_SIZE];
    console.write(&long);
    let mut expected = b"abc".to_vec();
    expected.extend_from_slice(&long);
    assert_eq!(console.take_output(), expected);
    console.flush();
    assert!(console.take_output().is_empty());
}

#[test]
fn console_fills_its_buffer_exactly() {
    let mut console = Console::new(IoDevice::Uhyve(UhyveSerial::new()));
    let full = vec![b'y'; SERIAL_BUFFER_SIZE];
    console.write(&full[..100]);
    console.write(&full[100..]);
    assert!(console.take_output().is_empty());
    console.write(b"z");
    assert_eq!(console.take_output(), full);
    console.flush();
    assert_eq!(console.take_output(), b"z".to_vec());
}

#[test]
fn console_replaces_its_device() {
    let mut console = Console::new(IoDevice::Uhyve(UhyveSerial::new()));
    console.write(b"kept");
    console.replace_device(IoDevice::Uart(SerialDevice::new(false)));
    console.flush();
    assert_eq!(console.take_output(), b"kept".to_vec());
}

#[test]
fn uhyve_has_no_input() {
    let mut serial = UhyveSerial::new();
    let mut buf = [7u8; 4];
    assert_eq!(serial.read(&mut buf), Ok(0));
    assert_eq!(buf, [7u8; 4]);
    assert!(!serial.can_read());
    serial.write(b"ab");
    serial.write(b"cd");
    assert_eq!(serial.take_output(), b"abcd".to_vec());
    assert!(serial.take_output().is_empty());
}

#[test]
fn io_device_reads_what_arrived() {
    let mut uart = SerialDevice::new(false);
    assert!(uart.buffer_input(b'h'));
    assert!(uart.buffer_input(b'i'));
    assert!(uart.buffer_input(b'\r'));
    let mut device = IoDevice::Uart(uart);
    assert!(device.can_read());
    let mut buf = [0u8; 2];
    assert_eq!(device.read(&mut buf), Ok(2));
    assert_eq!(&buf, b"hi");
    let mut rest = [0xffu8; 4];
    assert_eq!(device.read(&mut rest), Ok(1));
    assert_eq!(rest, [b'\n', 0xff, 0xff, 0xff]);
    assert!(!device.can_read());
    assert_eq!(device.read(&mut rest), Ok(0));
    let mut uhyve = IoDevice::Uhyve(UhyveSerial::new());
    assert!(!uhyve.can_read());
    assert_eq!(uhyve.read(&mut rest), Ok(0));
    uhyve.write(b"out");
    assert_eq!(uhyve.take_output(), b"out".to_vec());
}

#[test]
fn console_reads_from_its_device() {
    let mut uart = SerialDevice::new(false);
    uart.buffer_input(b'x');
    let mut console = Console::new(IoDevice::Uart(uart));
    assert!(console.can_read());
    let mut buf = [0u8; 8];
    assert_eq!(console.read(&mut buf), Ok(1));
    assert_eq!(buf[0], b'x');
    assert!(!console.can_read());
}

#[test]
fn serial_device_keeps_input_in_order() {
    let mut device = SerialDevice::new(false);
    assert_eq!(device.kind(), SerialInner::Uart);
    assert!(device.is_empty());
    assert!(!device.read_ready());
    device.buffer_input(b'a');
    device.buffer_input(b'\r');
    device.buffer_input(b'b');
    assert!(!device.is_empty());
    assert!(device.read_ready());
    assert_eq!(device.read_byte(), Some(b'a'));
    assert_eq!(device.read_byte(), Some(b'\n'));
    assert_eq!(device.read_byte(), Some(b'b'));
    assert_eq!(device.read_byte(), None);
}

#[test]
fn serial_device_off_the_uart_receives_nothing() {
    let mut device = SerialDevice::new(true);
    assert_eq!(device.kind(), SerialInner::Uhyve);
    assert!(!device.buffer_input(b'a'));
    assert!(device.is_empty());
    device.switch_to_virtio_console();
    assert_eq!(device.kind(), SerialInner::Virtio);
    assert!(!device.buffer_input(b'a'));
    assert_eq!(device.write(b"abc"), Ok(3));
    assert_eq!(device.flush(), Ok(()));
    device.send(b"de");
    assert_eq!(device.take_output(), b"abcde".to_vec());
}

#[test]
fn serial_port_sends_carriage_returns() {
    let mut port = SerialPort::new(false, Some(0x0900_0000));
    assert_eq!(port.kind(), hermit_kernel::serial_port::SerialInner::Uart(0x0900_0000));
    port.init(115_200);
    port.write_buf(b"a\nb\n\n");
    port.write_buf(b"\r\n");
    assert_eq!(port.take_output(), b"a\r\nb\r\n\r\n\r\r\n".to_vec());
}

#[test]
fn serial_port_without_a_uart() {
    let mut absent = SerialPort::new(false, None);
    assert_eq!(absent.kind(), hermit_kernel::serial_port::SerialInner::Absent);
    absent.write_buf(b"lost\n");
    assert!(absent.take_output().is_empty());
    let mut uhyve = SerialPort::new(true, Some(0x0900_0000));
    assert_eq!(uhyve.kind(), hermit_kernel::serial_port::SerialInner::Uhyve);
    uhyve.write_buf(b"a\n");
    assert_eq!(uhyve.take_output(), b"a\n".to_vec());
    uhyve.switch_to_virtio_console();
    assert_eq!(uhyve.kind(), hermit_kernel::serial_port::SerialInner::Virtio);
    uhyve.write_buf(b"b\n");
    assert_eq!(uhyve.take_output(), b"b\n".to_vec());
}
