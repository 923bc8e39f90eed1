//! What the kernel reads out of the flags register.
//!
//! The instructions themselves (`hlt`, `cli`, `sti`, `int3`, `pushfq`) are
//! issued by the kernel image. What is decided on their results is decided
//! here.

use vstd::prelude::*;

verus! {

/// Bit of the flags register that says whether the CPU takes interrupts.
///
/// Reference: <https://wiki.osdev.org/CPU_Registers_x86#EFLAGS_Register>
pub const INTERRUPT_FLAG_BIT: u64 = 9;

/// The interrupt flag of a flags register.
pub open spec fn interrupt_flag(rflags: u64) -> bool {
    (rflags >> 9) & 1 == 1
}

/// Check if interrupts are enabled, given the flags register.
pub fn interrupts_enabled(rflags: u64) -> (enabled: bool)
    ensures
        enabled == interrupt_flag(rflags),
{
    (rflags >> INTERRUPT_FLAG_BIT) & 1 == 1
}

/// The interrupt flag is bit 9 and no other: it is set exactly in the flags
/// values whose remainder by 1024 is 512 or more.
pub proof fn lemma_interrupt_flag_is_bit_nine(rflags: u64)
    ensures
        interrupt_flag(rflags) <==> rflags % 1024 >= 512,
{
    assert(((rflags >> 9) & 1 == 1) <==> rflags % 1024 >= 512) by (bit_vector);
}

/// What a section that runs without interrupts has to remember: whether
/// interrupts were on when it began.
#[derive(Clone, Copy, Debug, PartialEq, Eq, Structural)]
pub struct InterruptStatus {
    enabled: bool,
}

impl InterruptStatus {
    /// Whether interrupts were on when the section began.
    pub closed spec fn was_enabled(&self) -> bool {
        self.enabled
    }

    /// Remembers the interrupt flag of `rflags`, the flags register as it is
    /// when the section begins.
    pub fn save(rflags: u64) -> (status: InterruptStatus)
        ensures
            status.was_enabled() == interrupt_flag(rflags),
    {
        InterruptStatus { enabled: interrupts_enabled(rflags) }
    }

    /// Whether the section has to turn interrupts off before its body runs:
    /// only if they are on.
    pub fn disable_on_entry(&self) -> (disable: bool)
        ensures
            disable == self.was_enabled(),
    {
        self.enabled
    }

    /// Whether the section has to turn interrupts on after its body has run:
    /// only if they were on before.
    pub fn enable_on_exit(&self) -> (enable: bool)
        ensures
            enable == self.was_enabled(),
    {
        self.enabled
    }
}

} // verus!
