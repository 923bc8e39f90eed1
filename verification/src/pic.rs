//! Driver for the two cascaded 8259 interrupt controllers.
//!
//! ```text
//!                      ____________                          ____________
//! Real Time Clock --> |            |   Timer -------------> |            |
//! ACPI -------------> |            |   Keyboard-----------> |            |      _____
//! Available --------> | Secondary  |----------------------> | Primary    |     |     |
//! Available --------> | Interrupt  |   Serial Port 2 -----> | Interrupt  |---> | CPU |
//! Mouse ------------> | Controller |   Serial Port 1 -----> | Controller |     |_____|
//! Co-Processor -----> |            |   Parallel Port 2/3 -> |            |
//! Primary ATA ------> |            |   Floppy disk -------> |            |
//! Secondary ATA ----> |____________|   Parallel Port 1----> |____________|
//! ```
//!
//! The slave's output feeds line 2 of the master. The driver decides which
//! bytes go to which port and in which order; it returns them as a list of
//! [`PortWrite`]s for the caller to put on the bus.

use vstd::prelude::*;
use crate::port::{
    PortWrite, wait_write, MASTER_PIC_CMD_PORT, MASTER_PIC_DATA_PORT, SLAVE_PIC_CMD_PORT,
    SLAVE_PIC_DATA_PORT, WAIT_PORT,
};

verus! {

/// Command byte that starts the initialization sequence.
pub const PIC_INIT: u8 = 0x11;

/// Command byte that acknowledges an interrupt.
pub const PIC_EOI: u8 = 0x20;

/// Mode byte: 8086 mode.
pub const MODE_8086: u8 = 0x01;

/// Cascade byte for the master: a slave sits on line 2.
pub const MASTER_CASCADE: u8 = 4;

/// Cascade byte for the slave: its cascade identity is 2.
pub const SLAVE_CASCADE: u8 = 2;

/// Lines per controller.
pub const PIC_LINES: u8 = 8;

/// One 8259 controller: the first vector it raises and its two ports.
pub struct Pic {
    offset: u8,
    command: u16,
    data: u16,
}

impl Pic {
    pub closed spec fn offset(&self) -> u8 {
        self.offset
    }

    pub closed spec fn command_port(&self) -> u16 {
        self.command
    }

    pub closed spec fn data_port(&self) -> u16 {
        self.data
    }

    /// The controller raises the eight vectors from its offset on.
    pub open spec fn handles(&self, interrupt_id: u8) -> bool {
        self.offset() <= interrupt_id && interrupt_id < self.offset() + 8
    }

    /// The acknowledgment of this controller: the EOI byte to its command port.
    pub open spec fn eoi_write(&self) -> PortWrite {
        PortWrite { port: self.command_port(), value: PIC_EOI }
    }

    /// Returns whether the controller handles the given interrupt.
    pub fn handles_interrupt(&self, interrupt_id: u8) -> (handled: bool)
        ensures
            handled == self.handles(interrupt_id),
    {
        self.offset <= interrupt_id && interrupt_id - self.offset < PIC_LINES
    }

    /// The write that acknowledges an interrupt at this controller.
    fn end_of_interrupt(&self) -> (write: PortWrite)
        ensures
            write == self.eoi_write(),
    {
        PortWrite { port: self.command, value: PIC_EOI }
    }

    /// The write that puts `mask` on the data port.
    fn write_mask(&self, mask: u8) -> (write: PortWrite)
        ensures
            write == (PortWrite { port: self.data_port(), value: mask }),
    {
        PortWrite { port: self.data, value: mask }
    }

    /// The write that sends `command` to the command port.
    fn send(&self, command: u8) -> (write: PortWrite)
        ensures
            write == (PortWrite { port: self.command_port(), value: command }),
    {
        PortWrite { port: self.command, value: command }
    }
}

/// The master controller and the slave chained to it.
pub struct ChainedPics {
    slave: Pic,
    master: Pic,
}

impl ChainedPics {
    pub closed spec fn master(&self) -> Pic {
        self.master
    }

    pub closed spec fn slave(&self) -> Pic {
        self.slave
    }

    /// The ports are the fixed ones of the PC platform.
    pub open spec fn wf(&self) -> bool {
        &&& self.master().command_port() == MASTER_PIC_CMD_PORT
        &&& self.master().data_port() == MASTER_PIC_DATA_PORT
        &&& self.slave().command_port() == SLAVE_PIC_CMD_PORT
        &&& self.slave().data_port() == SLAVE_PIC_DATA_PORT
    }

    /// One of the two controllers raises the vector.
    pub open spec fn handles(&self, interrupt_id: u8) -> bool {
        self.master().handles(interrupt_id) || self.slave().handles(interrupt_id)
    }

    /// What `initialize` puts on the bus, given the masks that were read before.
    ///
    /// Each of the four bytes goes to the master, then to the slave, with a
    /// settling write after every step; the masks follow at the end.
    pub open spec fn init_sequence(&self, mask1: u8, mask2: u8) -> Seq<PortWrite> {
        seq![
            PortWrite { port: self.master().command_port(), value: PIC_INIT },
            wait_write(),
            PortWrite { port: self.slave().command_port(), value: PIC_INIT },
            wait_write(),
            PortWrite { port: self.master().data_port(), value: self.master().offset() },
            wait_write(),
            PortWrite { port: self.slave().data_port(), value: self.slave().offset() },
            wait_write(),
            PortWrite { port: self.master().data_port(), value: MASTER_CASCADE },
            wait_write(),
            PortWrite { port: self.slave().data_port(), value: SLAVE_CASCADE },
            wait_write(),
            PortWrite { port: self.master().data_port(), value: MODE_8086 },
            wait_write(),
            PortWrite { port: self.slave().data_port(), value: MODE_8086 },
            wait_write(),
            PortWrite { port: self.master().data_port(), value: mask1 },
            PortWrite { port: self.slave().data_port(), value: mask2 },
        ]
    }

    /// What `notify_end_of_interrupt` puts on the bus.
    ///
    /// A vector of the slave came through line 2 of the master: the slave is
    /// acknowledged first and the master after it. A vector of the master alone
    /// is acknowledged at the master. Any other vector is not acknowledged.
    pub open spec fn eoi_sequence(&self, interrupt_id: u8) -> Seq<PortWrite> {
        if self.slave().handles(interrupt_id) {
            seq![self.slave().eoi_write(), self.master().eoi_write()]
        } else if self.master().handles(interrupt_id) {
            seq![self.master().eoi_write()]
        } else {
            Seq::empty()
        }
    }

    /// A controller pair that raises vectors from `offset1` on (master) and
    /// from `offset2` on (slave).
    pub fn new(offset1: u8, offset2: u8) -> (pics: ChainedPics)
        ensures
            pics.wf(),
            pics.master().offset() == offset1,
            pics.slave().offset() == offset2,
    {
        ChainedPics {
            master: Pic {
                offset: offset1,
                command: MASTER_PIC_CMD_PORT,
                data: MASTER_PIC_DATA_PORT,
            },
            slave: Pic { offset: offset2, command: SLAVE_PIC_CMD_PORT, data: SLAVE_PIC_DATA_PORT },
        }
    }

    /// The data ports of master and slave, from which the caller reads the two
    /// interrupt masks before it initializes the pair.
    pub fn mask_ports(&self) -> (ports: (u16, u16))
        ensures
            ports.0 == self.master().data_port(),
            ports.1 == self.slave().data_port(),
    {
        (self.master.data, self.slave.data)
    }

    /// The writes that initialize both controllers and then put back the masks
    /// `mask1` (master) and `mask2` (slave), so that lines which were disabled
    /// stay disabled.
    pub fn initialize(&self, mask1: u8, mask2: u8) -> (writes: Vec<PortWrite>)
        ensures
            writes@ == self.init_sequence(mask1, mask2),
    {
        let mut writes: Vec<PortWrite> = Vec::new();

        writes.push(self.master.send(PIC_INIT));
        writes.push(wait());
        writes.push(self.slave.send(PIC_INIT));
        writes.push(wait());

        writes.push(self.master.write_mask(self.master.offset));
        writes.push(wait());
        writes.push(self.slave.write_mask(self.slave.offset));
        writes.push(wait());

        writes.push(self.master.write_mask(MASTER_CASCADE));
        writes.push(wait());
        writes.push(self.slave.write_mask(SLAVE_CASCADE));
        writes.push(wait());

        writes.push(self.master.write_mask(MODE_8086));
        writes.push(wait());
        writes.push(self.slave.write_mask(MODE_8086));
        writes.push(wait());

        writes.push(self.master.write_mask(mask1));
        writes.push(self.slave.write_mask(mask2));

        writes
    }

    /// Returns whether one of the controllers handles the given interrupt.
    pub fn handles_interrupt(&self, interrupt_id: u8) -> (handled: bool)
        ensures
            handled == self.handles(interrupt_id),
    {
        self.master.handles_interrupt(interrupt_id) || self.slave.handles_interrupt(interrupt_id)
    }

    /// The writes that tell the controllers that an interrupt has been handled.
    pub fn notify_end_of_interrupt(&self, interrupt_id: u8) -> (writes: Vec<PortWrite>)
        ensures
            writes@ == self.eoi_sequence(interrupt_id),
    {
        let mut writes: Vec<PortWrite> = Vec::new();
        if self.handles_interrupt(interrupt_id) {
            if self.slave.handles_interrupt(interrupt_id) {
                writes.push(self.slave.end_of_interrupt());
            }
            writes.push(self.master.end_of_interrupt());
        }
        writes
    }

    /// With the slave's range right behind the master's, the pair handles
    /// exactly the sixteen vectors from the master's offset on: the first eight
    /// at the master alone, the next eight at the slave alone.
    pub proof fn lemma_adjacent_ranges(&self, interrupt_id: u8)
        requires
            self.slave().offset() == self.master().offset() + 8,
        ensures
            self.master().handles(interrupt_id) <==> self.master().offset() <= interrupt_id
                < self.master().offset() + 8,
            self.slave().handles(interrupt_id) <==> self.master().offset() + 8 <= interrupt_id
                < self.master().offset() + 16,
            self.handles(interrupt_id) <==> self.master().offset() <= interrupt_id
                < self.master().offset() + 16,
            !(self.master().handles(interrupt_id) && self.slave().handles(interrupt_id)),
    {
    }

    /// An acknowledgment never reaches the slave without reaching the master
    /// after it, and a vector of the master alone never reaches the slave.
    pub proof fn lemma_eoi_order(&self, interrupt_id: u8)
        ensures
            self.slave().handles(interrupt_id) ==> {
                &&& self.eoi_sequence(interrupt_id).len() == 2
                &&& self.eoi_sequence(interrupt_id)[0] == self.slave().eoi_write()
                &&& self.eoi_sequence(interrupt_id)[1] == self.master().eoi_write()
            },
            self.master().handles(interrupt_id) && !self.slave().handles(interrupt_id) ==> {
                &&& self.eoi_sequence(interrupt_id).len() == 1
                &&& self.eoi_sequence(interrupt_id)[0] == self.master().eoi_write()
            },
            !self.handles(interrupt_id) ==> self.eoi_sequence(interrupt_id).len() == 0,
    {
    }
}

/// The write that lets an I/O operation complete: a zero to an unused port.
fn wait() -> (write: PortWrite)
    ensures
        write == wait_write(),
{
    PortWrite { port: WAIT_PORT, value: 0 }
}

} // verus!
