//! The serial port: which registers it has and what has to be written to them.

use vstd::prelude::*;
use vstd::string::StringSliceAdditionalSpecFns;
use crate::port::PortWrite;

verus! {

/// Where the first serial port begins.
pub const COM1: u16 = 0x3f8;

/// Bit of the line status that says that a byte has arrived.
pub const DATA_READY: u8 = 0x01;

/// Bit of the line status that says that the next byte can be sent.
pub const TRANSMIT_EMPTY: u8 = 0x20;

/// The registers of a serial port, each by its I/O port.
#[derive(Clone, Copy, Debug, PartialEq, Eq, Structural)]
pub struct SerialPort {
    /// The data to be transmitted or received over the serial port.
    data: u16,
    interrupt_enable: u16,
    baud_rate_divisor_ls: u16,
    baud_rate_divisor_ms: u16,
    fifo_control: u16,
    line_control: u16,
    modem_control: u16,
    line_status: u16,
    modem_statis: u16,
    scratch: u16,
}

impl SerialPort {
    /// The I/O port at which register number `register` lies, in a serial
    /// port that begins at `base`.
    pub open spec fn register(base: u16, register: int) -> u16 {
        (base + register) as u16
    }

    /// The I/O port at which the serial port begins.
    pub closed spec fn base(&self) -> u16 {
        self.data
    }

    /// Every register lies at its offset from the base.
    pub closed spec fn wf(&self) -> bool {
        &&& self.data + 7 <= u16::MAX
        &&& self.interrupt_enable == self.data + 1
        &&& self.baud_rate_divisor_ls == self.data
        &&& self.baud_rate_divisor_ms == self.data + 1
        &&& self.fifo_control == self.data + 2
        &&& self.line_control == self.data + 3
        &&& self.modem_control == self.data + 4
        &&& self.line_status == self.data + 5
        &&& self.modem_statis == self.data + 6
        &&& self.scratch == self.data + 7
    }

    /// What sets the port up: interrupts off, the divisor latch opened, the
    /// divisor 3 (38400 baud), eight bits without parity and one stop bit,
    /// the buffers on and emptied, the modem lines set, a loopback test
    /// begun, and the interrupt register written last.
    pub open spec fn init_sequence(&self) -> Seq<PortWrite> {
        let base = self.base();
        seq![
            PortWrite { port: Self::register(base, 1), value: 0x00 },
            PortWrite { port: Self::register(base, 3), value: 0x80 },
            PortWrite { port: Self::register(base, 0), value: 0x03 },
            PortWrite { port: Self::register(base, 1), value: 0x00 },
            PortWrite { port: Self::register(base, 3), value: 0x03 },
            PortWrite { port: Self::register(base, 2), value: 0xC7 },
            PortWrite { port: Self::register(base, 4), value: 0x0B },
            PortWrite { port: Self::register(base, 4), value: 0x1E },
            PortWrite { port: Self::register(base, 1), value: 0xAE },
        ]
    }

    /// The bytes of `bytes`, each as a write to the data register.
    pub open spec fn data_writes(&self, bytes: Seq<u8>) -> Seq<PortWrite> {
        Seq::new(bytes.len(), |i: int| PortWrite { port: self.base(), value: bytes[i] })
    }

    /// The serial port whose registers begin at `com_port`. Its eight
    /// registers have to fit below the end of the I/O space.
    pub fn new(com_port: u16) -> (port: Self)
        requires
            com_port + 7 <= u16::MAX,
        ensures
            port.wf(),
            port.base() == com_port,
    {
        Self {
            data: com_port,
            interrupt_enable: com_port + 1,
            baud_rate_divisor_ls: com_port + 0,
            baud_rate_divisor_ms: com_port + 1,
            fifo_control: com_port + 2,
            line_control: com_port + 3,
            modem_control: com_port + 4,
            line_status: com_port + 5,
            modem_statis: com_port + 6,
            scratch: com_port + 7,
        }
    }

    /// The writes that set the port up.
    pub fn init_serial(&self) -> (writes: Vec<PortWrite>)
        requires
            self.wf(),
        ensures
            writes@ == self.init_sequence(),
    {
        let mut writes: Vec<PortWrite> = Vec::new();
        writes.push(PortWrite { port: self.interrupt_enable, value: 0x00 });
        writes.push(PortWrite { port: self.line_control, value: 0x80 });
        writes.push(PortWrite { port: self.baud_rate_divisor_ls, value: 0x03 });
        writes.push(PortWrite { port: self.baud_rate_divisor_ms, value: 0x00 });
        writes.push(PortWrite { port: self.line_control, value: 0x03 });
        writes.push(PortWrite { port: self.fifo_control, value: 0xC7 });
        writes.push(PortWrite { port: self.modem_control, value: 0x0B });
        writes.push(PortWrite { port: self.modem_control, value: 0x1E });
        writes.push(PortWrite { port: self.interrupt_enable, value: 0xAE });
        writes
    }

    /// The port from which the line status is read.
    pub fn line_status_port(&self) -> (port: u16)
        requires
            self.wf(),
        ensures
            port == Self::register(self.base(), 5),
    {
        self.line_status
    }

    /// The port that bytes are read from and written to.
    pub fn data_port(&self) -> (port: u16)
        ensures
            port == self.base(),
    {
        self.data
    }

    /// Whether a byte has arrived, by the line status: 1 if so, 0 if not.
    pub fn serial_recieved(line_status: u8) -> (received: i32)
        ensures
            received == (line_status & 1),
            received == 0 || received == 1,
    {
        assert(line_status & 1 == 0 || line_status & 1 == 1) by (bit_vector);
        (line_status & DATA_READY) as i32
    }

    /// The character that a byte read from the data register stands for.
    pub fn read_serial(data: u8) -> (c: char)
        ensures
            c == data as char,
    {
        data as char
    }

    /// Whether the next byte can be sent, by the line status: not 0 if so.
    pub fn is_transmit_empty(line_status: u8) -> (empty: i32)
        ensures
            empty == (line_status & 0x20),
            empty == 0 || empty == 0x20,
    {
        assert(line_status & 0x20 == 0 || line_status & 0x20 == 0x20) by (bit_vector);
        (line_status & TRANSMIT_EMPTY) as i32
    }

    /// The write that sends the low byte of a character, once the line status
    /// says that it can be sent.
    pub fn write_serial(&self, a: char) -> (write: PortWrite)
        ensures
            write == (PortWrite { port: self.base(), value: a as u8 }),
    {
        PortWrite { port: self.data, value: #[verifier::truncate] (a as u8) }
    }

    /// The writes that send a string, byte after byte; each of them has to
    /// wait until the line status says that it can be sent.
    pub fn write_str(&self, s: &str) -> (writes: Vec<PortWrite>)
        ensures
            writes@ == self.data_writes(s.spec_bytes()),
    {
        let bytes = s.as_bytes();
        let mut writes: Vec<PortWrite> = Vec::new();
        let mut i: usize = 0;
        while i < bytes.len()
            invariant
                i <= bytes.len(),
                bytes@ == s.spec_bytes(),
                writes@.len() == i,
                forall|j: int|
                    0 <= j < i ==> writes@[j] == (PortWrite {
                        port: self.base(),
                        value: bytes@[j],
                    }),
            decreases bytes.len() - i,
        {
            writes.push(PortWrite { port: self.data, value: bytes[i] });
            i += 1;
        }
        writes
    }
}

} // verus!
