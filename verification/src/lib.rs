//! The interrupt and exception dispatch core of a small x86-64 kernel.

use vstd::prelude::*;
use crate::port::QEMU_EXIT_PORT;

pub mod instructions;
pub mod interrupts;
pub mod locks;
pub mod pic;
pub mod port;
pub mod serialport;
pub mod shell;
pub mod text;
pub mod vga_buffer;

verus! {

/// What the kernel tells the emulator when it is done.
#[derive(Clone, Copy, Debug, PartialEq, Eq, Structural)]
pub enum QemuExitCode {
    Success,
    Failed,
}

impl QemuExitCode {
    /// The number that stands for the exit code on the exit port.
    pub open spec fn number(self) -> u32 {
        match self {
            QemuExitCode::Success => 0x10,
            QemuExitCode::Failed => 0x11,
        }
    }

    /// The number that stands for the exit code on the exit port.
    pub fn code(&self) -> (number: u32)
        ensures
            number == self.number(),
    {
        match self {
            QemuExitCode::Success => 0x10,
            QemuExitCode::Failed => 0x11,
        }
    }
}

/// A 32-bit word written to one I/O port.
#[derive(Clone, Copy, Debug, PartialEq, Eq, Structural)]
pub struct PortWriteU32 {
    pub port: u16,
    pub value: u32,
}

/// The write that ends the emulator with `exit_code`.
pub fn exit_qemu(exit_code: QemuExitCode) -> (write: PortWriteU32)
    ensures
        write == (PortWriteU32 { port: QEMU_EXIT_PORT, value: exit_code.number() }),
{
    PortWriteU32 { port: QEMU_EXIT_PORT, value: exit_code.code() }
}

/// Something that the test runner can run.
pub trait Testable {
    /// What has to hold for the test to be run.
    spec fn runnable(&self) -> bool;

    fn run(&self) -> ()
        requires
            self.runnable(),
    ;
}

impl<T> Testable for T where T: Fn() {
    open spec fn runnable(&self) -> bool {
        call_requires(*self, ())
    }

    fn run(&self) {
        self();
    }
}

/// Runs every test, first to last, and returns the write that ends the
/// emulator with success.
pub fn test_runner(tests: &[&dyn Testable]) -> (write: PortWriteU32)
    requires
        forall|i: int| 0 <= i < tests@.len() ==> (#[trigger] tests@[i]).runnable(),
    ensures
        write == (PortWriteU32 { port: QEMU_EXIT_PORT, value: QemuExitCode::Success.number() }),
{
    let mut i: usize = 0;
    while i < tests.len()
        invariant
            i <= tests.len(),
            forall|i: int| 0 <= i < tests@.len() ==> (#[trigger] tests@[i]).runnable(),
        decreases tests.len() - i,
    {
        tests[i].run();
        i += 1;
    }
    exit_qemu(QemuExitCode::Success)
}

} // verus!
