use moonlight_os::port::PortWrite;
use moonlight_os::serialport::{SerialPort, COM1};

fn w(port: u16, value: u8) -> PortWrite {
    PortWrite { port, value }
}

#[test]
fn init_serial_writes_the_setup_sequence() {
    let port = SerialPort::new(COM1);
    assert_eq!(port.data_port(), 0x3f8);
    assert_eq!(port.line_status_port(), 0x3fd);
    assert_eq!(
        port.init_serial(),
        vec![
            w(0x3f9, 0x00),
            w(0x3fb, 0x80),
            w(0x3f8, 0x03),
            w(0x3f9, 0x00),
            w(0x3fb, 0x03),
            w(0x3fa, 0xC7),
            w(0x3fc, 0x0B),
            w(0x3fc, 0x1E),
            w(0x3f9, 0xAE),
        ]
    );
}

#[test]
fn registers_lie_at_their_offsets() {
    let port = SerialPort::new(0xFFF8);
    assert_eq!(port.data_port(), 0xFFF8);
    assert_eq!(port.line_status_port(), 0xFFFD);
    let low = SerialPort::new(0);
    assert_eq!(low.line_status_port(), 5);
    assert_eq!(low.init_serial()[0], w(1, 0));
}

#[test]
fn line_status_bits() {
    assert_eq!(SerialPort::serial_recieved(0x00), 0);
    assert_eq!(SerialPort::serial_recieved(0x01), 1);
    assert_eq!(SerialPort::serial_recieved(0x61), 1);
    assert_eq!(SerialPort::serial_recieved(0xFE), 0);
    assert_eq!(SerialPort::is_transmit_empty(0x00), 0);
    assert_eq!(SerialPort::is_transmit_empty(0x20), 0x20);
    assert_eq!(SerialPort::is_transmit_empty(0xFF), 0x20);
    assert_eq!(SerialPort::is_transmit_empty(0xDF), 0);
    assert_eq!(SerialPort::read_serial(0x41), 'A');
    assert_eq!(SerialPort::read_serial(0xE9), '\u{e9}');
}

#[test]
fn write_str_sends_every_byte_to_the_data_port() {
    let port = SerialPort::new(COM1);
    assert_eq!(port.write_serial('x'), w(0x3f8, b'x'));
    assert_eq!(port.write_serial('\u{20AC}'), w(0x3f8, 0xAC));
    assert_eq!(port.write_str(""), vec![]);
    assert_eq!(
        port.write_str("ok\n"),
        vec![w(0x3f8, b'o'), w(0x3f8, b'k'), w(0x3f8, b'\n')]
    );
    let euro = port.write_str("\u{20AC}");
    assert_eq!(euro, vec![w(0x3f8, 0xE2), w(0x3f8, 0x82), w(0x3f8, 0xAC)]);
}
