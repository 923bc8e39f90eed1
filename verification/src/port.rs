//! Port I/O as data.
//!
//! The drivers of this crate never touch the I/O bus. Each of them computes the
//! byte writes that have to reach the bus, in the order in which they have to
//! reach it, and the kernel image replays them with `out` instructions.

use vstd::prelude::*;

verus! {

/// Master interrupt controller, command port.
pub const MASTER_PIC_CMD_PORT: u16 = 0x20;

/// Master interrupt controller, data port.
pub const MASTER_PIC_DATA_PORT: u16 = 0x21;

/// Slave interrupt controller, command port.
pub const SLAVE_PIC_CMD_PORT: u16 = 0xA0;

/// Slave interrupt controller, data port.
pub const SLAVE_PIC_DATA_PORT: u16 = 0xA1;

/// Keyboard controller, data port.
pub const KEYBOARD_DATA_PORT: u16 = 0x60;

/// An unused port; a write to it only takes time.
pub const WAIT_PORT: u16 = 0x80;

/// Display controller, register index port.
pub const VGA_INDEX_PORT: u16 = 0x3D4;

/// Display controller, register data port.
pub const VGA_DATA_PORT: u16 = 0x3D5;

/// The port on which the emulator listens for an exit code.
pub const QEMU_EXIT_PORT: u16 = 0xF4;

/// One byte written to one I/O port.
#[derive(Clone, Copy, Debug, PartialEq, Eq, Structural)]
pub struct PortWrite {
    pub port: u16,
    pub value: u8,
}

impl PortWrite {
    pub fn new(port: u16, value: u8) -> (write: PortWrite)
        ensures
            write == (PortWrite { port, value }),
    {
        PortWrite { port, value }
    }
}

/// The write that gives a controller time to settle: a zero to the unused port.
pub open spec fn wait_write() -> PortWrite {
    PortWrite { port: WAIT_PORT, value: 0 }
}

} // verus!
