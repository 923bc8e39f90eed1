use moonlight_os::interrupts::exceptions::{
    DivergingHandler, ExceptionHandlers, Handler, HandlerWithErrCode, VectorClass,
    DOUBLE_FAULT_IST_INDEX,
};
use moonlight_os::interrupts::idt::{
    ClassMismatch, IdtEntry, IdtEntryOptions, InterruptDescriptorTable, PrivilegeLevel,
};

fn handlers() -> ExceptionHandlers {
    ExceptionHandlers {
        div_error: Handler::new(0x1000),
        breakpoint: Handler::new(0x1003),
        invalid_opcode: Handler::new(0x1006),
        double_fault: HandlerWithErrCode::new(0x1008),
        general_protection_fault: HandlerWithErrCode::new(0x100d),
        page_fault: HandlerWithErrCode::new(0x100e),
    }
}

#[test]
fn minimal_options_hold_the_must_be_one_bits() {
    let options = IdtEntryOptions::minimal();
    assert_eq!(options.bits(), 0b1110_0000_0000);
    assert!(!options.is_present());
    assert_eq!(options.stack_index(), 0);
    assert_eq!(options.privilege_level(), 0);
    assert!(!options.is_trap_gate());
}

#[test]
fn set_present_toggles_bit_15() {
    let mut options = IdtEntryOptions::minimal();
    options.set_present(true);
    assert_eq!(options.bits(), 0x8E00);
    assert!(options.is_present());
    options.set_present(false);
    assert_eq!(options.bits(), 0x0E00);
}

#[test]
fn disable_interrupts_clears_the_gate_type_bit() {
    let mut options = IdtEntryOptions::minimal();
    options.disable_interrupts(false);
    assert_eq!(options.bits(), 0x0F00);
    assert!(options.is_trap_gate());
    options.disable_interrupts(true);
    assert_eq!(options.bits(), 0x0E00);
    assert!(!options.is_trap_gate());
}

#[test]
fn set_stack_index_stores_the_index_plus_one() {
    for index in 0u16..=6 {
        let mut options = IdtEntryOptions::minimal();
        options.set_present(true);
        options.set_stack_index(index);
        assert_eq!(options.bits(), 0x8E00 | (index + 1));
        assert_eq!(options.stack_index(), index + 1);
    }
    let mut options = IdtEntryOptions::minimal();
    options.set_stack_index(6);
    options.set_stack_index(0);
    assert_eq!(options.bits(), 0x0E01);
}

#[test]
fn set_privilege_level_fills_bits_13_and_14() {
    let levels = [
        (PrivilegeLevel::Ring0, 0x0E00u16, 0u16),
        (PrivilegeLevel::Ring1, 0x2E00, 1),
        (PrivilegeLevel::Ring2, 0x4E00, 2),
        (PrivilegeLevel::Ring3, 0x6E00, 3),
    ];
    for (level, bits, ring) in levels {
        let mut options = IdtEntryOptions::minimal();
        options.set_privilege_level(PrivilegeLevel::Ring3);
        options.set_privilege_level(level);
        assert_eq!(options.bits(), bits);
        assert_eq!(options.privilege_level(), ring);
        assert_eq!(level.level(), ring);
    }
}

#[test]
fn setters_chain_and_leave_the_other_fields() {
    let mut options = IdtEntryOptions::minimal();
    options
        .set_present(true)
        .disable_interrupts(false)
        .set_privilege_level(PrivilegeLevel::Ring3)
        .set_stack_index(4);
    assert_eq!(options.bits(), 0b1110_1111_0000_0101);
    options.set_present(false);
    assert_eq!(options.bits(), 0b0110_1111_0000_0101);
}

#[test]
fn fresh_table_is_fully_populated() {
    let catch_all = 0xFFFF_8000_1234_5678u64;
    let table = InterruptDescriptorTable::new(catch_all);
    assert_eq!(table.entries.len(), 256);
    for vector in 0u16..256 {
        let entry = table.entry(vector as u8);
        assert_eq!(entry.handler_addr(), catch_all);
        assert_eq!(entry.options().bits() & 0x0E00, 0x0E00);
        assert_eq!(entry.options().bits(), 0x0E00);
        assert!(!entry.is_present());
        assert_eq!(entry.selector(), 0);
    }
}

#[test]
fn bound_handler_reads_back() {
    let table = InterruptDescriptorTable::new(0x1111).add(33, 0xDEAD_BEEF_CAFE_F00D);
    let entry = table.entry(33);
    assert_eq!(entry.handler_addr(), 0xDEAD_BEEF_CAFE_F00D);
    assert!(entry.is_present());
    assert_eq!(entry.options().bits(), 0x8E00);
    for vector in 0u16..256 {
        if vector != 33 {
            let other = table.entry(vector as u8);
            assert_eq!(other.handler_addr(), 0x1111);
            assert!(!other.is_present());
        }
    }
}

#[test]
fn add_binds_in_the_running_code_segment() {
    let table = InterruptDescriptorTable::new(0).add(0, 0x4000);
    let again = InterruptDescriptorTable::new(0).add(255, 0x5000);
    assert_eq!(table.entry(0).selector(), again.entry(255).selector());
    assert_ne!(table.entry(0).selector(), 0);
}

#[test]
fn entry_bind_sets_every_field() {
    let mut entry = IdtEntry::missing(0x10);
    entry.set_stack_index(0);
    entry.bind(0x0123_4567_89AB_CDEF, 0x08);
    assert_eq!(entry.handler_addr(), 0x0123_4567_89AB_CDEF);
    assert_eq!(entry.selector(), 0x08);
    assert_eq!(entry.options().bits(), 0x8E01);
    assert_eq!(
        entry.to_bytes(),
        [
            0xEF, 0xCD, 0x08, 0x00, 0x01, 0x8E, 0xAB, 0x89, 0x67, 0x45, 0x23, 0x01, 0, 0, 0, 0
        ]
    );
}

#[test]
fn add_exceptions_binds_the_six_fault_vectors() {
    let table = InterruptDescriptorTable::new(0x9999).add_exceptions(&handlers());
    let expected = [
        (0u8, 0x1000u64),
        (3, 0x1003),
        (6, 0x1006),
        (8, 0x1008),
        (13, 0x100d),
        (14, 0x100e),
    ];
    for vector in 0u16..256 {
        let entry = table.entry(vector as u8);
        match expected.iter().find(|(v, _)| *v as u16 == vector) {
            Some((_, target)) => {
                assert_eq!(entry.handler_addr(), *target);
                assert!(entry.is_present());
            }
            None => {
                assert_eq!(entry.handler_addr(), 0x9999);
                assert!(!entry.is_present());
            }
        }
    }
}

#[test]
fn typed_binders_refuse_a_vector_of_another_class() {
    let mut table = InterruptDescriptorTable::new(0x9999);
    assert_eq!(table.set_handler(3, Handler::new(0x30)), Ok(()));
    assert_eq!(table.entry(3).handler_addr(), 0x30);
    assert_eq!(
        table.set_handler(14, Handler::new(0x31)),
        Err(ClassMismatch { vector: 14, expected: VectorClass::ErrorCode })
    );
    assert_eq!(table.entry(14).handler_addr(), 0x9999);
    assert!(!table.entry(14).is_present());
    assert_eq!(
        table.set_handler(18, Handler::new(0x32)),
        Err(ClassMismatch { vector: 18, expected: VectorClass::Diverging })
    );
    assert_eq!(table.set_handler_with_err_code(14, HandlerWithErrCode::new(0x33)), Ok(()));
    assert_eq!(table.entry(14).handler_addr(), 0x33);
    assert_eq!(
        table.set_handler_with_err_code(32, HandlerWithErrCode::new(0x34)),
        Err(ClassMismatch { vector: 32, expected: VectorClass::NoErrorCode })
    );
    assert_eq!(table.set_diverging_handler(18, DivergingHandler::new(0x35)), Ok(()));
    assert_eq!(table.entry(18).handler_addr(), 0x35);
    assert_eq!(
        table.set_diverging_handler(8, DivergingHandler::new(0x36)),
        Err(ClassMismatch { vector: 8, expected: VectorClass::ErrorCode })
    );
}

#[test]
fn descriptor_holds_the_size_less_one() {
    let table = InterruptDescriptorTable::new(0);
    let descriptor = table.descriptor(0xFFFF_8000_0010_0000);
    assert_eq!(descriptor.size, 4095);
    assert_eq!(descriptor.offset, 0xFFFF_8000_0010_0000);
    assert_eq!(
        descriptor.to_bytes(),
        [0xFF, 0x0F, 0x00, 0x00, 0x10, 0x00, 0x00, 0x80, 0xFF, 0xFF]
    );
}

#[test]
fn table_bytes_are_the_gates_in_order() {
    let mut table = InterruptDescriptorTable::new(0xAABB_CCDD_EEFF_0011).add(2, 0x42);
    table.entries[8].set_stack_index(0);
    let bytes = table.to_bytes();
    assert_eq!(bytes.len(), 4096);
    for vector in 0usize..256 {
        assert_eq!(bytes[16 * vector..16 * vector + 16], table.entries[vector].to_bytes());
    }
    assert_eq!(bytes[0..2], [0x11, 0x00]);
    assert_eq!(bytes[32], 0x42);
    assert_eq!(bytes[8 * 16 + 4], 0x01);
}

#[test]
fn double_fault_entry_switches_to_its_own_stack() {
    let mut idt = InterruptDescriptorTable::new(0x7000).add(0x8, 0x8000);
    idt.entries[0x8].set_stack_index(DOUBLE_FAULT_IST_INDEX);
    let entry = idt.entry(8);
    assert_eq!(entry.handler_addr(), 0x8000);
    assert!(entry.is_present());
    assert_eq!(entry.options().stack_index(), DOUBLE_FAULT_IST_INDEX + 1);
    assert_eq!(entry.options().bits(), 0x8E01);
    assert_eq!(idt.entry(7).options().bits(), 0x0E00);
}
