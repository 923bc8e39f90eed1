//! The interrupt descriptor table: 256 gates, one per vector.
//!
//! Reference: <https://wiki.osdev.org/Interrupt_Descriptor_Table>

use vstd::prelude::*;
use bit_field::BitField;
use x86_64::instructions::segmentation::{Segment, CS};
use crate::interrupts::exceptions::{
    class_of, vector_class, DivergingHandler, ExceptionHandlers, Handler, HandlerWithErrCode,
    VectorClass, BREAKPOINT_VECTOR, DIVIDE_ERROR_VECTOR, DOUBLE_FAULT_VECTOR,
    GENERAL_PROTECTION_FAULT_VECTOR, INVALID_OPCODE_VECTOR, PAGE_FAULT_VECTOR,
};

verus! {

/// Number of gates in the table.
pub const IDT_ENTRIES: usize = 256;

/// Size of one gate in bytes.
pub const IDT_ENTRY_SIZE: usize = 16;

/// Size of the table in bytes.
pub const IDT_SIZE: usize = 4096;

/// The options word with nothing but the must-be-one bits set.
pub const MINIMAL_OPTIONS: u16 = 0x0E00;

/// The bits of the options word that no setter touches: bits 3-7 (reserved),
/// bits 9-11 (must be one) and bit 12 (must be zero).
pub const FIXED_BITS_MASK: u16 = 0x1EF8;

/// `field` with bit number `bit` set to `value`.
pub open spec fn with_bit(field: u16, bit: u16, value: bool) -> u16 {
    if value {
        field | (1u16 << bit)
    } else {
        field & !(1u16 << bit)
    }
}

/// The bits `low..=high` of a 16-bit word.
pub open spec fn bit_range_mask(low: u16, high: u16) -> u16 {
    (0xFFFFu16 >> ((15 - high) as u16)) & (0xFFFFu16 << low)
}

/// `field` with its bits `low..=high` replaced by the low bits of `value`.
pub open spec fn with_bits(field: u16, low: u16, high: u16, value: u16) -> u16 {
    (field & !bit_range_mask(low, high)) | (value << low)
}

/// Calls `BitField::set_bit` of the bit_field crate on a `u16`.
///
/// The crate panics on a bit number of 16 or more. Otherwise it sets the bit
/// to one with `|=` or clears it with `&=`, and touches no other bit.
#[verifier::external_body]
fn set_bit(field: &mut u16, bit: usize, value: bool)
    requires
        bit < 16,
    ensures
        *final(field) == with_bit(*old(field), bit as u16, value),
{
    field.set_bit(bit, value);
}

/// Calls `BitField::set_bits` of the bit_field crate on a `u16`, with the
/// inclusive range `low..=high`.
///
/// The crate panics when the range leaves the word or when `value` has a one
/// above its lowest `high - low + 1` bits. Otherwise it clears the bits of the
/// range and ors in `value`, shifted to the start of the range.
#[verifier::external_body]
fn set_bits(field: &mut u16, low: usize, high: usize, value: u16)
    requires
        low <= high < 16,
        value <= 0xFFFFu16 >> ((15 - (high - low)) as u16),
    ensures
        *final(field) == with_bits(*old(field), low as u16, high as u16, value),
{
    field.set_bits(low..=high, value);
}

/// Reads the code segment register with `CS::get_reg` of the x86_64 crate.
///
/// The selector is whatever the running CPU holds, so nothing is claimed of it.
#[verifier::external_body]
fn code_segment_selector() -> u16 {
    CS::get_reg().0
}

/// Represents a protection ring level.
///
/// Reference: <https://wiki.osdev.org/Security#Rings>
#[derive(Clone, Copy, Debug, PartialEq, Eq, Structural)]
pub enum PrivilegeLevel {
    Ring0,
    Ring1,
    Ring2,
    Ring3,
}

impl PrivilegeLevel {
    /// The number of the ring, 0 to 3.
    pub open spec fn ring(self) -> u16 {
        match self {
            PrivilegeLevel::Ring0 => 0,
            PrivilegeLevel::Ring1 => 1,
            PrivilegeLevel::Ring2 => 2,
            PrivilegeLevel::Ring3 => 3,
        }
    }

    /// The number of the ring as the options word holds it.
    pub fn level(&self) -> (ring: u16)
        ensures
            ring == self.ring(),
            ring <= 3,
    {
        match self {
            PrivilegeLevel::Ring0 => 0,
            PrivilegeLevel::Ring1 => 1,
            PrivilegeLevel::Ring2 => 2,
            PrivilegeLevel::Ring3 => 3,
        }
    }
}

/// What the options word of a gate says, field by field.
pub ghost struct GateOptions {
    /// Bits 0-2: 0 for no stack switch, 1-7 for that stack of the interrupt
    /// stack table.
    pub stack_index: u16,
    /// Bit 8: clear for an interrupt gate, which masks interrupts on entry; set
    /// for a trap gate, which leaves them as they are.
    pub trap_gate: bool,
    /// Bits 13-14: the descriptor privilege level.
    pub privilege_level: u16,
    /// Bit 15.
    pub present: bool,
}

/// Represents the options field of an IDT entry.
///
/// Structure:
/// bit 0-2: IST index,
/// bit 3-7: reserved,
/// bit 8: 0 - interrupt gate, 1 - trap gate,
/// bit 9-11: must be 1,
/// bit 12: must be 0,
/// bit 13-14: Descriptor Privilege Level (DPL),
/// bit 15: present bit
#[derive(Copy, Clone, Debug, PartialEq, Eq, Structural)]
pub struct IdtEntryOptions(u16);

impl View for IdtEntryOptions {
    type V = GateOptions;

    open spec fn view(&self) -> GateOptions {
        GateOptions {
            stack_index: self.raw() & 0x7,
            trap_gate: self.raw() & 0x100 != 0,
            privilege_level: (self.raw() >> 13) & 0x3,
            present: self.raw() & 0x8000 != 0,
        }
    }
}

impl IdtEntryOptions {
    /// The options word as the CPU reads it.
    pub closed spec fn raw(&self) -> u16 {
        self.0
    }

    /// The bits outside the four fields.
    pub open spec fn fixed_bits(&self) -> u16 {
        self.raw() & FIXED_BITS_MASK
    }

    /// The must-be-one bits are one, the must-be-zero bit and the reserved bits
    /// are zero.
    pub open spec fn wf(&self) -> bool {
        self.fixed_bits() == MINIMAL_OPTIONS
    }

    /// The options of a gate that has not been set up: the must-be-one bits
    /// and nothing else.
    pub closed spec fn minimal_options() -> Self {
        IdtEntryOptions(MINIMAL_OPTIONS)
    }

    /// Creates a minimal options field with all the must-be-one bits set.
    pub fn minimal() -> (options: Self)
        ensures
            options == Self::minimal_options(),
            options.raw() == MINIMAL_OPTIONS,
            options.wf(),
            options@ == (GateOptions {
                stack_index: 0,
                trap_gate: false,
                privilege_level: 0,
                present: false,
            }),
    {
        proof {
            lemma_minimal_fields();
        }
        IdtEntryOptions(MINIMAL_OPTIONS)
    }

    /// The options word as the CPU reads it.
    pub fn bits(&self) -> (raw: u16)
        ensures
            raw == self.raw(),
    {
        self.0
    }

    /// Whether the present bit is set.
    pub fn is_present(&self) -> (present: bool)
        ensures
            present == self@.present,
    {
        self.0 & 0x8000 != 0
    }

    /// The field of the interrupt stack table index: 0 for no stack switch.
    pub fn stack_index(&self) -> (index: u16)
        ensures
            index == self@.stack_index,
            index <= 7,
    {
        let raw: u16 = self.0;
        assert(raw & 0x7 <= 7) by (bit_vector);
        raw & 0x7
    }

    /// Whether this is a trap gate, which leaves interrupts enabled.
    pub fn is_trap_gate(&self) -> (trap: bool)
        ensures
            trap == self@.trap_gate,
    {
        self.0 & 0x100 != 0
    }

    /// The descriptor privilege level, 0 to 3.
    pub fn privilege_level(&self) -> (level: u16)
        ensures
            level == self@.privilege_level,
            level <= 3,
    {
        let raw: u16 = self.0;
        assert((raw >> 13) & 0x3 <= 3) by (bit_vector);
        (raw >> 13) & 0x3
    }

    /// Set or reset the preset bit.
    pub fn set_present(&mut self, present: bool) -> (ret: &mut Self)
        ensures
            ret.raw() == with_bit(old(self).raw(), 15, present),
            ret@ == (GateOptions { present, ..old(self)@ }),
            ret.fixed_bits() == old(self).fixed_bits(),
            *final(self) == *final(ret),
    {
        proof {
            lemma_set_present(self.0, present);
        }
        set_bit(&mut self.0, 15, present);
        self
    }

    /// Let the CPU disable hardware interrupts when the handler is invoked. By default,
    /// interrupts are disabled on handler invocation.
    pub fn disable_interrupts(&mut self, disable: bool) -> (ret: &mut Self)
        ensures
            ret.raw() == with_bit(old(self).raw(), 8, !disable),
            ret@ == (GateOptions { trap_gate: !disable, ..old(self)@ }),
            ret.fixed_bits() == old(self).fixed_bits(),
            *final(self) == *final(ret),
    {
        proof {
            lemma_set_trap_gate(self.0, !disable);
        }
        set_bit(&mut self.0, 8, !disable);
        self
    }

    /// Assigns a Interrupt Stack Table (IST) stack to this handler. The CPU will then always
    /// switch to the specified stack before the handler is invoked.
    ///
    /// An IST stack is specified by an IST index between 0 and 6 (inclusive).
    /// The hardware counts the stacks from 1, so the field holds `index + 1`.
    pub fn set_stack_index(&mut self, index: u16) -> (ret: &mut Self)
        requires
            index <= 6,
        ensures
            ret.raw() == with_bits(old(self).raw(), 0, 2, (index + 1) as u16),
            ret@ == (GateOptions { stack_index: (index + 1) as u16, ..old(self)@ }),
            ret.fixed_bits() == old(self).fixed_bits(),
            *final(self) == *final(ret),
    {
        proof {
            lemma_set_stack_index(self.0, (index + 1) as u16);
        }
        set_bits(&mut self.0, 0, 2, index + 1);
        self
    }

    /// Sets the privilege level that a caller needs to raise the vector with an
    /// `int` instruction.
    pub fn set_privilege_level(&mut self, dpl: PrivilegeLevel) -> (ret: &mut Self)
        ensures
            ret.raw() == with_bits(old(self).raw(), 13, 14, dpl.ring()),
            ret@ == (GateOptions { privilege_level: dpl.ring(), ..old(self)@ }),
            ret.fixed_bits() == old(self).fixed_bits(),
            *final(self) == *final(ret),
    {
        let level = dpl.level();
        proof {
            lemma_set_privilege_level(self.0, level);
        }
        set_bits(&mut self.0, 13, 14, level);
        self
    }

    /// The options of an entry that has not been set up say: no stack switch,
    /// interrupt gate, ring 0, not present.
    pub proof fn lemma_minimal_options()
        ensures
            Self::minimal_options().raw() == MINIMAL_OPTIONS,
            Self::minimal_options().wf(),
            Self::minimal_options()@ == (GateOptions {
                stack_index: 0,
                trap_gate: false,
                privilege_level: 0,
                present: false,
            }),
    {
        lemma_minimal_fields();
    }

    /// The four fields and the fixed bits together are the whole word: two
    /// options that agree on them are equal.
    pub proof fn lemma_fields_determine_options(a: Self, b: Self)
        requires
            a@ == b@,
            a.fixed_bits() == b.fixed_bits(),
        ensures
            a == b,
    {
        lemma_fields_determine_word(a.0, b.0);
    }
}

/// A 64-bit address put together from the three pieces in which a gate holds it.
pub open spec fn join_address(lower: u16, middle: u16, high: u32) -> u64 {
    (lower as u64) | ((middle as u64) << 16) | ((high as u64) << 32)
}

/// What a gate says: where control goes, in which code segment, and how.
pub ghost struct Gate {
    /// Address of the handler's entry point.
    pub target: u64,
    /// Selector of the code segment in which the handler runs.
    pub selector: u16,
    /// The options word.
    pub options: IdtEntryOptions,
    /// Must be zero.
    pub reserved: u32,
}

impl Gate {
    /// The sixteen bytes of a gate as they lie in memory, fields in
    /// little-endian order: target bits 0-15, selector, options, target bits
    /// 16-31, target bits 32-63, reserved.
    pub open spec fn encode(self) -> Seq<u8> {
        seq![
            self.target as u8,
            (self.target >> 8) as u8,
            self.selector as u8,
            (self.selector >> 8) as u8,
            self.options.raw() as u8,
            (self.options.raw() >> 8) as u8,
            (self.target >> 16) as u8,
            (self.target >> 24) as u8,
            (self.target >> 32) as u8,
            (self.target >> 40) as u8,
            (self.target >> 48) as u8,
            (self.target >> 56) as u8,
            self.reserved as u8,
            (self.reserved >> 8) as u8,
            (self.reserved >> 16) as u8,
            (self.reserved >> 24) as u8,
        ]
    }
}

/// A gate for a vector to which nothing is bound: not present, aimed at the
/// catch-all handler, with the must-be-one bits set.
pub open spec fn missing_gate(catch_all: u64) -> Gate {
    Gate {
        target: catch_all,
        selector: 0,
        options: IdtEntryOptions::minimal_options(),
        reserved: 0,
    }
}

/// One entry of the table: the address of a handler in three pieces, the
/// code segment, the options and a reserved word.
///
/// Reference: <https://wiki.osdev.org/Interrupt_Descriptor_Table#Gate_Descriptor_2>
#[derive(Copy, Clone, Debug)]
pub struct IdtEntry {
    offset_lower: u16,
    gdt_selector: u16,
    options: IdtEntryOptions,
    offset_middle: u16,
    offset_high: u32,
    reserved: u32,
}

impl View for IdtEntry {
    type V = Gate;

    closed spec fn view(&self) -> Gate {
        Gate {
            target: join_address(self.offset_lower, self.offset_middle, self.offset_high),
            selector: self.gdt_selector,
            options: self.options,
            reserved: self.reserved,
        }
    }
}

impl IdtEntry {
    /// Creates a non-present IDT entry (but sets the must-be-one bits) that
    /// points at `catch_all`, the entry address of the handler for vectors
    /// that nothing else is bound to.
    pub fn missing(catch_all: u64) -> (entry: Self)
        ensures
            entry@ == missing_gate(catch_all),
    {
        proof {
            lemma_split_address(catch_all);
        }
        IdtEntry {
            offset_lower: #[verifier::truncate] (catch_all as u16),
            gdt_selector: 0,
            options: IdtEntryOptions::minimal(),
            offset_middle: #[verifier::truncate] ((catch_all >> 16) as u16),
            offset_high: #[verifier::truncate] ((catch_all >> 32) as u32),
            reserved: 0,
        }
    }

    /// Points the entry at `addr` in the code segment `selector` and marks it
    /// present. The other options and the reserved word stay as they are.
    pub fn bind(&mut self, addr: u64, selector: u16)
        ensures
            final(self)@.target == addr,
            final(self)@.selector == selector,
            final(self)@.options.raw() == with_bit(old(self)@.options.raw(), 15, true),
            final(self)@.options@ == (GateOptions { present: true, ..old(self)@.options@ }),
            final(self)@.options.fixed_bits() == old(self)@.options.fixed_bits(),
            final(self)@.reserved == old(self)@.reserved,
    {
        proof {
            lemma_split_address(addr);
        }
        self.offset_lower = #[verifier::truncate] (addr as u16);
        self.offset_middle = #[verifier::truncate] ((addr >> 16) as u16);
        self.offset_high = #[verifier::truncate] ((addr >> 32) as u32);

        self.gdt_selector = selector;

        self.options.set_present(true);
    }

    /// Points the entry at `addr` in the code segment that the CPU runs in, and
    /// marks it present.
    pub fn set_handler_addr(&mut self, addr: u64)
        ensures
            final(self)@.target == addr,
            final(self)@.options.raw() == with_bit(old(self)@.options.raw(), 15, true),
            final(self)@.options@ == (GateOptions { present: true, ..old(self)@.options@ }),
            final(self)@.options.fixed_bits() == old(self)@.options.fixed_bits(),
            final(self)@.reserved == old(self)@.reserved,
    {
        let selector = code_segment_selector();
        self.bind(addr, selector);
    }

    /// Lets the CPU switch to stack `index` of the interrupt stack table, 0 to
    /// 6, before it enters the handler.
    pub fn set_stack_index(&mut self, index: u16)
        requires
            index <= 6,
        ensures
            final(self)@.options.raw() == with_bits(
                old(self)@.options.raw(),
                0,
                2,
                (index + 1) as u16,
            ),
            final(self)@.options@ == (GateOptions {
                stack_index: (index + 1) as u16,
                ..old(self)@.options@
            }),
            final(self)@.options.fixed_bits() == old(self)@.options.fixed_bits(),
            final(self)@.target == old(self)@.target,
            final(self)@.selector == old(self)@.selector,
            final(self)@.reserved == old(self)@.reserved,
    {
        self.options.set_stack_index(index);
    }

    /// The address of the handler's entry point.
    pub fn handler_addr(&self) -> (addr: u64)
        ensures
            addr == self@.target,
    {
        (self.offset_lower as u64) | ((self.offset_middle as u64) << 16) | ((
        self.offset_high as u64) << 32)
    }

    /// The selector of the code segment in which the handler runs.
    pub fn selector(&self) -> (selector: u16)
        ensures
            selector == self@.selector,
    {
        self.gdt_selector
    }

    /// The options word of the entry.
    pub fn options(&self) -> (options: IdtEntryOptions)
        ensures
            options == self@.options,
    {
        self.options
    }

    /// Whether the CPU may use the entry.
    pub fn is_present(&self) -> (present: bool)
        ensures
            present == self@.options@.present,
    {
        self.options.is_present()
    }

    /// The entry as the sixteen bytes that the CPU reads.
    pub fn to_bytes(&self) -> (bytes: [u8; 16])
        ensures
            bytes@ == self@.encode(),
    {
        proof {
            lemma_address_bytes(self.offset_lower, self.offset_middle, self.offset_high);
        }
        let options: u16 = self.options.bits();
        let bytes: [u8; 16] = [
            #[verifier::truncate] (self.offset_lower as u8),
            #[verifier::truncate] ((self.offset_lower >> 8) as u8),
            #[verifier::truncate] (self.gdt_selector as u8),
            #[verifier::truncate] ((self.gdt_selector >> 8) as u8),
            #[verifier::truncate] (options as u8),
            #[verifier::truncate] ((options >> 8) as u8),
            #[verifier::truncate] (self.offset_middle as u8),
            #[verifier::truncate] ((self.offset_middle >> 8) as u8),
            #[verifier::truncate] (self.offset_high as u8),
            #[verifier::truncate] ((self.offset_high >> 8) as u8),
            #[verifier::truncate] ((self.offset_high >> 16) as u8),
            #[verifier::truncate] ((self.offset_high >> 24) as u8),
            #[verifier::truncate] (self.reserved as u8),
            #[verifier::truncate] ((self.reserved >> 8) as u8),
            #[verifier::truncate] ((self.reserved >> 16) as u8),
            #[verifier::truncate] ((self.reserved >> 24) as u8),
        ];
        bytes
    }

    /// Target, selector, options and reserved word together are the whole
    /// entry: two entries that say the same are equal.
    pub proof fn lemma_view_determines_entry(a: Self, b: Self)
        requires
            a@ == b@,
        ensures
            a == b,
    {
        lemma_join_is_injective(
            a.offset_lower,
            a.offset_middle,
            a.offset_high,
            b.offset_lower,
            b.offset_middle,
            b.offset_high,
        );
    }
}

/// Represents the interrupt stack frame pushed by the CPU on interrupt or exception entry.
#[derive(Clone, Copy, Debug, PartialEq, Eq, Structural)]
pub struct InterruptStackFrame {
    /// This value points to the instruction that should be executed when the interrupt
    /// handler returns. For most interrupts, this value points to the instruction immediately
    /// following the last executed instruction. However, for some exceptions (e.g., page faults),
    /// this value points to the faulting instruction, so that the instruction is restarted on
    /// return.
    pub instruction_pointer: u64,
    /// The code segment selector, padded with zeros.
    pub code_segment: u64,
    /// The flags register before the interrupt handler was invoked.
    pub cpu_flags: u64,
    /// The stack pointer at the time of the interrupt.
    pub stack_pointer: u64,
    /// The stack segment descriptor at the time of the interrupt (often zero in 64-bit mode).
    pub stack_segment: u64,
}

/// A handler was offered to a vector of another class.
#[derive(Clone, Copy, Debug, PartialEq, Eq, Structural)]
pub struct ClassMismatch {
    /// The vector that was asked for.
    pub vector: u8,
    /// The class of that vector.
    pub expected: VectorClass,
}

/// What the CPU's table register is loaded with: the size of the table in
/// bytes, less one, and the address of its first byte.
///
/// Reference: <https://wiki.osdev.org/Interrupt_Descriptor_Table#IDTR>
#[derive(Clone, Copy, Debug, PartialEq, Eq, Structural)]
pub struct IdtDescriptor {
    pub size: u16,
    pub offset: u64,
}

impl IdtDescriptor {
    /// The ten bytes of the descriptor as the `lidt` instruction reads them:
    /// the size, then the address, both in little-endian order.
    pub open spec fn encode(self) -> Seq<u8> {
        seq![
            self.size as u8,
            (self.size >> 8) as u8,
            self.offset as u8,
            (self.offset >> 8) as u8,
            (self.offset >> 16) as u8,
            (self.offset >> 24) as u8,
            (self.offset >> 32) as u8,
            (self.offset >> 40) as u8,
            (self.offset >> 48) as u8,
            (self.offset >> 56) as u8,
        ]
    }

    /// The descriptor as the ten bytes that `lidt` reads.
    pub fn to_bytes(&self) -> (bytes: [u8; 10])
        ensures
            bytes@ == self.encode(),
    {
        let bytes: [u8; 10] = [
            #[verifier::truncate] (self.size as u8),
            #[verifier::truncate] ((self.size >> 8) as u8),
            #[verifier::truncate] (self.offset as u8),
            #[verifier::truncate] ((self.offset >> 8) as u8),
            #[verifier::truncate] ((self.offset >> 16) as u8),
            #[verifier::truncate] ((self.offset >> 24) as u8),
            #[verifier::truncate] ((self.offset >> 32) as u8),
            #[verifier::truncate] ((self.offset >> 40) as u8),
            #[verifier::truncate] ((self.offset >> 48) as u8),
            #[verifier::truncate] ((self.offset >> 56) as u8),
        ];
        bytes
    }
}

/// The table of all 256 gates.
///
/// Reference: <https://wiki.osdev.org/Interrupt_Descriptor_Table>
#[derive(Clone, Copy, Debug)]
pub struct InterruptDescriptorTable {
    pub entries: [IdtEntry; 256],
}

/// The address that `add_exceptions` binds to a vector, if it binds one.
pub open spec fn exception_target(handlers: ExceptionHandlers, vector: int) -> Option<u64> {
    if vector == DIVIDE_ERROR_VECTOR {
        Some(handlers.div_error.address())
    } else if vector == BREAKPOINT_VECTOR {
        Some(handlers.breakpoint.address())
    } else if vector == INVALID_OPCODE_VECTOR {
        Some(handlers.invalid_opcode.address())
    } else if vector == DOUBLE_FAULT_VECTOR {
        Some(handlers.double_fault.address())
    } else if vector == GENERAL_PROTECTION_FAULT_VECTOR {
        Some(handlers.general_protection_fault.address())
    } else if vector == PAGE_FAULT_VECTOR {
        Some(handlers.page_fault.address())
    } else {
        None
    }
}

impl InterruptDescriptorTable {
    /// What the entry of `vector` says.
    pub open spec fn gate(&self, vector: int) -> Gate {
        self.entries@[vector]@
    }

    /// The entry of `vector` is what it was in `before`, but for this: it points
    /// at `handler` and is present. The code segment is the one that the CPU
    /// ran in when the handler was bound.
    pub open spec fn rebound(&self, before: &Self, vector: int, handler: u64) -> bool {
        &&& self.gate(vector).target == handler
        &&& self.gate(vector).options.raw() == with_bit(before.gate(vector).options.raw(), 15, true)
        &&& self.gate(vector).options@ == (GateOptions {
            present: true,
            ..before.gate(vector).options@
        })
        &&& self.gate(vector).options.fixed_bits() == before.gate(vector).options.fixed_bits()
        &&& self.gate(vector).reserved == before.gate(vector).reserved
    }

    /// The table in memory: gate after gate, sixteen bytes each.
    pub open spec fn encode(&self) -> Seq<u8> {
        Seq::new(IDT_SIZE as nat, |i: int| self.gate(i / 16).encode()[i % 16])
    }

    /// Creates a new IDT filled with non-present entries. Every one of them
    /// points at `catch_all` and has the must-be-one bits set, so that no
    /// vector leads into the void.
    pub fn new(catch_all: u64) -> (table: InterruptDescriptorTable)
        ensures
            forall|vector: int|
                0 <= vector < 256 ==> (#[trigger] table.entries@[vector])@ == missing_gate(
                    catch_all,
                ),
            forall|vector: int|
                0 <= vector < 256 ==> {
                    &&& (#[trigger] table.entries@[vector])@.target == catch_all
                    &&& !table.entries@[vector]@.options@.present
                    &&& table.entries@[vector]@.options.wf()
                },
    {
        proof {
            IdtEntryOptions::lemma_minimal_options();
        }
        InterruptDescriptorTable { entries: [IdtEntry::missing(catch_all);256] }
    }

    /// Binds `handler`, the entry address of a trampoline, to `vector`: its
    /// entry points at it, in the code segment that the CPU runs in, and is
    /// present. No other entry changes.
    pub fn add(self, vector: usize, handler: u64) -> (table: InterruptDescriptorTable)
        requires
            vector < 256,
        ensures
            table.rebound(&self, vector as int, handler),
            forall|other: int|
                0 <= other < 256 && other != vector ==> table.entries@[other]
                    == self.entries@[other],
    {
        let mut table = self;
        let mut entry = table.entries[vector];
        entry.set_handler_addr(handler);
        table.entries[vector] = entry;
        table
    }

    /// Binds a handler to a vector on which the CPU pushes no error code and
    /// from which a handler may return. On any other vector the table stays as
    /// it is and the error names the vector's class.
    pub fn set_handler(&mut self, vector: u8, handler: Handler) -> (result: Result<
        (),
        ClassMismatch,
    >)
        ensures
            class_of(vector) == VectorClass::NoErrorCode ==> {
                &&& result is Ok
                &&& final(self).rebound(old(self), vector as int, handler.address())
                &&& forall|other: int|
                    0 <= other < 256 && other != vector ==> final(self).entries@[other] == old(
                        self,
                    ).entries@[other]
            },
            class_of(vector) != VectorClass::NoErrorCode ==> {
                &&& result == Err::<(), ClassMismatch>(
                    ClassMismatch { vector, expected: class_of(vector) },
                )
                &&& *final(self) == *old(self)
            },
    {
        self.set_classified(vector, VectorClass::NoErrorCode, handler.addr())
    }

    /// Binds a handler to a vector on which the CPU pushes an error code. On
    /// any other vector the table stays as it is and the error names the
    /// vector's class.
    pub fn set_handler_with_err_code(&mut self, vector: u8, handler: HandlerWithErrCode) -> (result:
        Result<(), ClassMismatch>)
        ensures
            class_of(vector) == VectorClass::ErrorCode ==> {
                &&& result is Ok
                &&& final(self).rebound(old(self), vector as int, handler.address())
                &&& forall|other: int|
                    0 <= other < 256 && other != vector ==> final(self).entries@[other] == old(
                        self,
                    ).entries@[other]
            },
            class_of(vector) != VectorClass::ErrorCode ==> {
                &&& result == Err::<(), ClassMismatch>(
                    ClassMismatch { vector, expected: class_of(vector) },
                )
                &&& *final(self) == *old(self)
            },
    {
        self.set_classified(vector, VectorClass::ErrorCode, handler.addr())
    }

    /// Binds a handler that never returns to a vector that allows no return.
    /// On any other vector the table stays as it is and the error names the
    /// vector's class.
    pub fn set_diverging_handler(&mut self, vector: u8, handler: DivergingHandler) -> (result:
        Result<(), ClassMismatch>)
        ensures
            class_of(vector) == VectorClass::Diverging ==> {
                &&& result is Ok
                &&& final(self).rebound(old(self), vector as int, handler.address())
                &&& forall|other: int|
                    0 <= other < 256 && other != vector ==> final(self).entries@[other] == old(
                        self,
                    ).entries@[other]
            },
            class_of(vector) != VectorClass::Diverging ==> {
                &&& result == Err::<(), ClassMismatch>(
                    ClassMismatch { vector, expected: class_of(vector) },
                )
                &&& *final(self) == *old(self)
            },
    {
        self.set_classified(vector, VectorClass::Diverging, handler.addr())
    }

    /// Binds `handler` to `vector` if the vector is of class `class`.
    fn set_classified(&mut self, vector: u8, class: VectorClass, handler: u64) -> (result: Result<
        (),
        ClassMismatch,
    >)
        ensures
            class_of(vector) == class ==> {
                &&& result is Ok
                &&& final(self).rebound(old(self), vector as int, handler)
                &&& forall|other: int|
                    0 <= other < 256 && other != vector ==> final(self).entries@[other] == old(
                        self,
                    ).entries@[other]
            },
            class_of(vector) != class ==> {
                &&& result == Err::<(), ClassMismatch>(
                    ClassMismatch { vector, expected: class_of(vector) },
                )
                &&& *final(self) == *old(self)
            },
    {
        let expected = vector_class(vector);
        if expected == class {
            let mut entry = self.entries[vector as usize];
            entry.set_handler_addr(handler);
            self.entries[vector as usize] = entry;
            Ok(())
        } else {
            Err(ClassMismatch { vector, expected })
        }
    }

    /// Adds the handlers of the CPU exceptions that the kernel handles: divide
    /// error, breakpoint, invalid opcode, double fault, general protection
    /// fault and page fault. No other gate changes.
    pub fn add_exceptions(self, handlers: &ExceptionHandlers) -> (table: InterruptDescriptorTable)
        ensures
            forall|vector: int|
                #![trigger table.entries@[vector]]
                0 <= vector < 256 ==> match exception_target(*handlers, vector) {
                    Some(target) => table.rebound(&self, vector, target),
                    None => table.entries@[vector] == self.entries@[vector],
                },
    {
        self.add(DIVIDE_ERROR_VECTOR as usize, handlers.div_error.addr()).add(
            BREAKPOINT_VECTOR as usize,
            handlers.breakpoint.addr(),
        ).add(INVALID_OPCODE_VECTOR as usize, handlers.invalid_opcode.addr()).add(
            DOUBLE_FAULT_VECTOR as usize,
            handlers.double_fault.addr(),
        ).add(
            GENERAL_PROTECTION_FAULT_VECTOR as usize,
            handlers.general_protection_fault.addr(),
        ).add(PAGE_FAULT_VECTOR as usize, handlers.page_fault.addr())
    }

    /// The entry of a vector.
    pub fn entry(&self, vector: u8) -> (entry: IdtEntry)
        ensures
            entry == self.entries@[vector as int],
    {
        self.entries[vector as usize]
    }

    /// The descriptor that installs the table once it lies at address `base`.
    pub fn descriptor(&self, base: u64) -> (descriptor: IdtDescriptor)
        ensures
            descriptor.size == IDT_SIZE - 1,
            descriptor.offset == base,
    {
        IdtDescriptor { size: (IDT_ENTRIES * IDT_ENTRY_SIZE - 1) as u16, offset: base }
    }

    /// The table as the 4096 bytes that the CPU reads.
    pub fn to_bytes(&self) -> (bytes: Vec<u8>)
        ensures
            bytes@ == self.encode(),
    {
        let mut bytes: Vec<u8> = Vec::new();
        let mut vector: usize = 0;
        while vector < IDT_ENTRIES
            invariant
                vector <= IDT_ENTRIES,
                bytes@.len() == vector * 16,
                forall|i: int|
                    0 <= i < bytes@.len() ==> bytes@[i] == self.gate(i / 16).encode()[i % 16],
            decreases IDT_ENTRIES - vector,
        {
            let gate: [u8; 16] = self.entries[vector].to_bytes();
            let mut k: usize = 0;
            while k < IDT_ENTRY_SIZE
                invariant
                    k <= IDT_ENTRY_SIZE,
                    vector < IDT_ENTRIES,
                    gate@ == self.gate(vector as int).encode(),
                    bytes@.len() == vector * 16 + k,
                    forall|i: int|
                        0 <= i < bytes@.len() ==> bytes@[i] == self.gate(i / 16).encode()[i % 16],
                decreases IDT_ENTRY_SIZE - k,
            {
                bytes.push(gate[k]);
                k += 1;
            }
            vector += 1;
        }
        bytes
    }
}

proof fn lemma_split_address(addr: u64)
    by (bit_vector)
    ensures
        ((addr as u16) as u64) | ((((addr >> 16) as u16) as u64) << 16) | ((((addr >> 32)
            as u32) as u64) << 32) == addr,
{
}

proof fn lemma_join_is_injective(l1: u16, m1: u16, h1: u32, l2: u16, m2: u16, h2: u32)
    by (bit_vector)
    requires
        (l1 as u64) | ((m1 as u64) << 16) | ((h1 as u64) << 32) == (l2 as u64) | ((m2 as u64) << 16)
            | ((h2 as u64) << 32),
    ensures
        l1 == l2,
        m1 == m2,
        h1 == h2,
{
}

proof fn lemma_address_bytes(l: u16, m: u16, h: u32)
    by (bit_vector)
    ensures
        ({
            let t = (l as u64) | ((m as u64) << 16) | ((h as u64) << 32);
            &&& t as u8 == l as u8
            &&& (t >> 8) as u8 == (l >> 8) as u8
            &&& (t >> 16) as u8 == m as u8
            &&& (t >> 24) as u8 == (m >> 8) as u8
            &&& (t >> 32) as u8 == h as u8
            &&& (t >> 40) as u8 == (h >> 8) as u8
            &&& (t >> 48) as u8 == (h >> 16) as u8
            &&& (t >> 56) as u8 == (h >> 24) as u8
        }),
{
}

proof fn lemma_minimal_fields()
    by (bit_vector)
    ensures
        0x0E00u16 & 0x1EF8 == 0x0E00,
        0x0E00u16 & 0x7 == 0,
        0x0E00u16 & 0x100 == 0,
        (0x0E00u16 >> 13) & 0x3 == 0,
        0x0E00u16 & 0x8000 == 0,
{
}

proof fn lemma_set_present(raw: u16, value: bool)
    by (bit_vector)
    ensures
        ({
            let new = if value {
                raw | (1u16 << 15u16)
            } else {
                raw & !(1u16 << 15u16)
            };
            &&& (new & 0x8000 != 0) == value
            &&& new & 0x7 == raw & 0x7
            &&& (new & 0x100 != 0) == (raw & 0x100 != 0)
            &&& (new >> 13) & 0x3 == (raw >> 13) & 0x3
            &&& new & 0x1EF8 == raw & 0x1EF8
        }),
{
}

proof fn lemma_set_trap_gate(raw: u16, value: bool)
    by (bit_vector)
    ensures
        ({
            let new = if value {
                raw | (1u16 << 8u16)
            } else {
                raw & !(1u16 << 8u16)
            };
            &&& (new & 0x100 != 0) == value
            &&& new & 0x7 == raw & 0x7
            &&& (new & 0x8000 != 0) == (raw & 0x8000 != 0)
            &&& (new >> 13) & 0x3 == (raw >> 13) & 0x3
            &&& new & 0x1EF8 == raw & 0x1EF8
        }),
{
}

proof fn lemma_set_stack_index(raw: u16, value: u16)
    by (bit_vector)
    requires
        value <= 7,
    ensures
        value <= 0xFFFFu16 >> 13u16,
        ({
            let new = (raw & !((0xFFFFu16 >> 13u16) & (0xFFFFu16 << 0u16))) | (value << 0u16);
            &&& new & 0x7 == value
            &&& (new & 0x100 != 0) == (raw & 0x100 != 0)
            &&& (new & 0x8000 != 0) == (raw & 0x8000 != 0)
            &&& (new >> 13) & 0x3 == (raw >> 13) & 0x3
            &&& new & 0x1EF8 == raw & 0x1EF8
        }),
{
}

proof fn lemma_set_privilege_level(raw: u16, value: u16)
    by (bit_vector)
    requires
        value <= 3,
    ensures
        value <= 0xFFFFu16 >> 14u16,
        ({
            let new = (raw & !((0xFFFFu16 >> 1u16) & (0xFFFFu16 << 13u16))) | (value << 13u16);
            &&& (new >> 13) & 0x3 == value
            &&& new & 0x7 == raw & 0x7
            &&& (new & 0x100 != 0) == (raw & 0x100 != 0)
            &&& (new & 0x8000 != 0) == (raw & 0x8000 != 0)
            &&& new & 0x1EF8 == raw & 0x1EF8
        }),
{
}

proof fn lemma_fields_determine_word(a: u16, b: u16)
    by (bit_vector)
    requires
        a & 0x7 == b & 0x7,
        (a & 0x100 != 0) == (b & 0x100 != 0),
        (a >> 13) & 0x3 == (b >> 13) & 0x3,
        (a & 0x8000 != 0) == (b & 0x8000 != 0),
        a & 0x1EF8 == b & 0x1EF8,
    ensures
        a == b,
{
}

} // verus!
