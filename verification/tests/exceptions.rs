use moonlight_os::interrupts::exceptions::{
    breakpoint_handler, div_error_handler, double_fault_handler, frame_string,
    general_protection_fault_handler, generic_handler, invalid_opcode_handler, page_fault_handler,
    vector_class, Fault, FaultAction, TrampolineLayout, VectorClass, CONTEXT_WORDS,
    SCRATCH_REGISTERS, STACK_ALIGNMENT, WORD_SIZE,
};
use moonlight_os::interrupts::idt::InterruptStackFrame;
use moonlight_os::interrupts::interrupts::init_idt;
use moonlight_os::interrupts::exceptions::{ExceptionHandlers, Handler, HandlerWithErrCode};

fn frame() -> InterruptStackFrame {
    InterruptStackFrame {
        instruction_pointer: 0xFFFF_8000_0020_1234,
        code_segment: 8,
        cpu_flags: 0x0000_0000_0001_0202,
        stack_pointer: 0x0000_5555_0000_0FF8,
        stack_segment: 0,
    }
}

#[test]
fn vector_classes_follow_the_cpu_manual() {
    let with_error_code = [8u8, 10, 11, 12, 13, 14, 17, 21, 29, 30];
    for vector in 0u16..256 {
        let vector = vector as u8;
        let expected = if vector == 18 {
            VectorClass::Diverging
        } else if with_error_code.contains(&vector) {
            VectorClass::ErrorCode
        } else {
            VectorClass::NoErrorCode
        };
        assert_eq!(vector_class(vector), expected, "vector {}", vector);
    }
}

#[test]
fn trampoline_layout_without_error_code() {
    let layout = TrampolineLayout::new(false);
    assert_eq!(layout.saved_bytes, 9 * 8);
    assert_eq!(layout.context_offset, 9 * 8);
    assert_eq!(layout.error_code_offset, None);
    assert_eq!(layout.alignment_padding, 0);
    assert_eq!(layout.discard_bytes, 0);
}

#[test]
fn trampoline_layout_with_error_code() {
    let layout = TrampolineLayout::new(true);
    assert_eq!(layout.saved_bytes, 9 * 8);
    assert_eq!(layout.context_offset, 10 * 8);
    assert_eq!(layout.error_code_offset, Some(9 * 8));
    assert_eq!(layout.alignment_padding, 8);
    assert_eq!(layout.discard_bytes, 8);
}

#[test]
fn trampoline_layout_aligns_the_stack_for_the_call() {
    for with_error_code in [false, true] {
        let layout = TrampolineLayout::new(with_error_code);
        for aligned_top in [0x1000u64, 0x7FFF_FFF0, 0xFFFF_8000_0000_0000] {
            let context = aligned_top - CONTEXT_WORDS * WORD_SIZE;
            let entry = if with_error_code { context - WORD_SIZE } else { context };
            let saved = entry - SCRATCH_REGISTERS * WORD_SIZE;
            assert_eq!(saved + layout.context_offset, context);
            assert_eq!((saved - layout.alignment_padding) % STACK_ALIGNMENT, 0);
            if let Some(offset) = layout.error_code_offset {
                assert_eq!(saved + offset, context - WORD_SIZE);
            }
            assert_eq!(entry + layout.discard_bytes, context);
        }
    }
}

#[test]
fn frame_text_is_the_pretty_debug_text() {
    let frame = frame();
    assert_eq!(frame_string(&frame), format!("{:#?}", frame));
    let zero = InterruptStackFrame {
        instruction_pointer: 0,
        code_segment: 0,
        cpu_flags: 0,
        stack_pointer: 0,
        stack_segment: 0,
    };
    assert_eq!(frame_string(&zero), format!("{:#?}", zero));
    let max = InterruptStackFrame {
        instruction_pointer: u64::MAX,
        code_segment: 10,
        cpu_flags: 99,
        stack_pointer: 100,
        stack_segment: 18446744073709551614,
    };
    assert_eq!(frame_string(&max), format!("{:#?}", max));
}

#[test]
fn invalid_opcode_is_reported_with_the_saved_context_and_halts() {
    let table = init_idt(
        0x9000,
        &ExceptionHandlers {
            div_error: Handler::new(0x1000),
            breakpoint: Handler::new(0x1003),
            invalid_opcode: Handler::new(0x1006),
            double_fault: HandlerWithErrCode::new(0x1008),
            general_protection_fault: HandlerWithErrCode::new(0x100d),
            page_fault: HandlerWithErrCode::new(0x100e),
        },
        0x2000,
        0x2001,
    );
    assert_eq!(table.entry(6).handler_addr(), 0x1006);
    assert!(table.entry(6).is_present());
    assert_eq!(Fault::from_vector(6), Fault::InvalidOpcode);

    let frame = frame();
    let report = invalid_opcode_handler(&frame);
    assert_eq!(report.action, FaultAction::Halt);
    assert_eq!(report.message, format!("EXCEPTION: INVALID OPCODE\n{:#?}", frame));
    assert!(report.message.contains(&format!("{}", frame.instruction_pointer)));
    assert!(report.message.contains("instruction_pointer: 18446603336223298100,"));
    assert!(report.message.contains(&format!("{}", frame.cpu_flags)));
    assert!(report.message.contains("cpu_flags: 66050"));
    assert_eq!(Fault::from_vector(6).report(&frame, 0), report);
}

#[test]
fn every_fault_but_the_breakpoint_halts() {
    let frame = frame();
    assert_eq!(div_error_handler(&frame).action, FaultAction::Halt);
    assert_eq!(invalid_opcode_handler(&frame).action, FaultAction::Halt);
    assert_eq!(double_fault_handler(&frame, 0).action, FaultAction::Halt);
    assert_eq!(general_protection_fault_handler(&frame, 0x10).action, FaultAction::Halt);
    assert_eq!(page_fault_handler(&frame, 2).action, FaultAction::Halt);
    assert_eq!(generic_handler(&frame).action, FaultAction::Halt);
    assert_eq!(breakpoint_handler(&frame).action, FaultAction::Resume);
    for fault in [
        Fault::DivisionError,
        Fault::InvalidOpcode,
        Fault::DoubleFault,
        Fault::GeneralProtectionFault,
        Fault::PageFault,
        Fault::Generic,
    ] {
        assert!(fault.is_fatal());
    }
    assert!(!Fault::Breakpoint.is_fatal());
}

#[test]
fn fault_messages_name_the_fault() {
    let frame = frame();
    let text = format!("{:#?}", frame);
    assert_eq!(div_error_handler(&frame).message, format!("EXCEPTION: DIVISION ERROR\n{}", text));
    assert_eq!(breakpoint_handler(&frame).message, format!("EXCEPTION: BREAKPOINT\n{}", text));
    assert_eq!(
        double_fault_handler(&frame, 0).message,
        format!("EXCEPTION: DOUBLE FAULT\n{}", text)
    );
    assert_eq!(
        general_protection_fault_handler(&frame, 0x18).message,
        format!("EXCEPTION: GENERAL PROTECTION FAULT\n{}", text)
    );
    assert_eq!(
        page_fault_handler(&frame, 6).message,
        format!("EXCEPTION: PAGE FAULT occured\nError Code: 6\n{}", text)
    );
    assert_eq!(generic_handler(&frame).message, format!("EXCEPTION: GENERIC\n{}", text));
}

#[test]
fn vectors_without_a_handler_are_generic_faults() {
    let own = [
        (0u8, Fault::DivisionError),
        (3, Fault::Breakpoint),
        (6, Fault::InvalidOpcode),
        (8, Fault::DoubleFault),
        (13, Fault::GeneralProtectionFault),
        (14, Fault::PageFault),
    ];
    for vector in 0u16..256 {
        let vector = vector as u8;
        let expected = own
            .iter()
            .find(|(v, _)| *v == vector)
            .map(|(_, fault)| *fault)
            .unwrap_or(Fault::Generic);
        assert_eq!(Fault::from_vector(vector), expected);
    }
    assert_eq!(Fault::Generic.name(), "GENERIC");
    assert_eq!(Fault::PageFault.name(), "PAGE FAULT");
}
