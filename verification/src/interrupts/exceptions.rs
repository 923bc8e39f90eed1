//! CPU exceptions: which vectors there are, how a trampoline reaches the
//! handler of one, and what the handler decides.
//!
//! The C calling convention, which the handlers follow:
//! - the first six integer arguments are passed in the registers `rdi`, `rsi`,
//!   `rdx`, `rcx`, `r8`, `r9`;
//! - the stack pointer is a multiple of 16 at every `call`;
//! - `rax`, `rcx`, `rdx`, `rsi`, `rdi`, `r8`, `r9`, `r10` and `r11` belong to
//!   the callee.
//!
//! The CPU follows none of this when it enters a handler. A trampoline stands
//! between the two: it saves the registers that the callee may clobber, hands
//! the address of the saved execution context to the handler, and returns with
//! `iretq`. The trampolines themselves are assembly and live in the kernel
//! image; the numbers that they are written with are computed here.

use vstd::prelude::*;
use vstd::string::StringExecFns;
use crate::interrupts::idt::InterruptStackFrame;
use crate::text::{
    append_decimal, contains, decimal, lemma_contains_extended, lemma_contains_middle,
    lemma_decimal_is_not_empty,
};

verus! {

/// Vector of the divide error.
pub const DIVIDE_ERROR_VECTOR: u8 = 0;

/// Vector of the breakpoint trap.
pub const BREAKPOINT_VECTOR: u8 = 3;

/// Vector of the invalid opcode fault.
pub const INVALID_OPCODE_VECTOR: u8 = 6;

/// Vector of the double fault.
pub const DOUBLE_FAULT_VECTOR: u8 = 8;

/// Vector of the general protection fault.
pub const GENERAL_PROTECTION_FAULT_VECTOR: u8 = 13;

/// Vector of the page fault.
pub const PAGE_FAULT_VECTOR: u8 = 14;

/// Vector of the machine check, from which no handler may return.
pub const MACHINE_CHECK_VECTOR: u8 = 18;

/// The stack of the interrupt stack table on which the double fault is
/// handled, so that it can be handled when the kernel stack is gone.
pub const DOUBLE_FAULT_IST_INDEX: u16 = 0;

/// How the CPU enters the handler of a vector, and whether it may come back.
#[derive(Clone, Copy, Debug, PartialEq, Eq, Structural)]
pub enum VectorClass {
    /// The CPU pushes the saved execution context and nothing else.
    NoErrorCode,
    /// The CPU pushes an error code on top of the saved execution context.
    ErrorCode,
    /// The handler must not return.
    Diverging,
}

/// The class of each of the 256 vectors.
pub open spec fn class_of(vector: u8) -> VectorClass {
    if vector == MACHINE_CHECK_VECTOR {
        VectorClass::Diverging
    } else if vector == 8 || (10 <= vector && vector <= 14) || vector == 17 || vector == 21
        || vector == 29 || vector == 30 {
        VectorClass::ErrorCode
    } else {
        VectorClass::NoErrorCode
    }
}

/// The class of a vector.
pub fn vector_class(vector: u8) -> (class: VectorClass)
    ensures
        class == class_of(vector),
{
    match vector {
        18 => VectorClass::Diverging,
        8 | 10 | 11 | 12 | 13 | 14 | 17 | 21 | 29 | 30 => VectorClass::ErrorCode,
        _ => VectorClass::NoErrorCode,
    }
}

/// Entry address of a trampoline for a vector without an error code.
#[derive(Clone, Copy, Debug, PartialEq, Eq, Structural)]
pub struct Handler(u64);

/// Entry address of a trampoline for a vector with an error code.
#[derive(Clone, Copy, Debug, PartialEq, Eq, Structural)]
pub struct HandlerWithErrCode(u64);

/// Entry address of a trampoline whose handler never returns.
#[derive(Clone, Copy, Debug, PartialEq, Eq, Structural)]
pub struct DivergingHandler(u64);

impl Handler {
    pub closed spec fn address(&self) -> u64 {
        self.0
    }

    pub fn new(addr: u64) -> (handler: Self)
        ensures
            handler.address() == addr,
    {
        Handler(addr)
    }

    pub fn addr(&self) -> (addr: u64)
        ensures
            addr == self.address(),
    {
        self.0
    }
}

impl HandlerWithErrCode {
    pub closed spec fn address(&self) -> u64 {
        self.0
    }

    pub fn new(addr: u64) -> (handler: Self)
        ensures
            handler.address() == addr,
    {
        HandlerWithErrCode(addr)
    }

    pub fn addr(&self) -> (addr: u64)
        ensures
            addr == self.address(),
    {
        self.0
    }
}

impl DivergingHandler {
    pub closed spec fn address(&self) -> u64 {
        self.0
    }

    pub fn new(addr: u64) -> (handler: Self)
        ensures
            handler.address() == addr,
    {
        DivergingHandler(addr)
    }

    pub fn addr(&self) -> (addr: u64)
        ensures
            addr == self.address(),
    {
        self.0
    }
}

/// The trampolines of the exceptions that the kernel handles, each of the kind
/// that its vector asks for.
#[derive(Clone, Copy, Debug)]
pub struct ExceptionHandlers {
    pub div_error: Handler,
    pub breakpoint: Handler,
    pub invalid_opcode: Handler,
    pub double_fault: HandlerWithErrCode,
    pub general_protection_fault: HandlerWithErrCode,
    pub page_fault: HandlerWithErrCode,
}

/// Size of a stack slot in bytes.
pub const WORD_SIZE: u64 = 8;

/// What the C calling convention wants the stack pointer to be a multiple of
/// at a `call`.
pub const STACK_ALIGNMENT: u64 = 16;

/// Number of registers that a trampoline saves: `rax`, `rcx`, `rdx`, `rsi`,
/// `rdi`, `r8`, `r9`, `r10`, `r11`.
pub const SCRATCH_REGISTERS: u64 = 9;

/// Number of words in the saved execution context: instruction pointer, code
/// segment, flags, stack pointer, stack segment.
pub const CONTEXT_WORDS: u64 = 5;

/// The numbers that a trampoline is written with. Offsets are in bytes and
/// count from the stack pointer as it is once the scratch registers are saved.
#[derive(Clone, Copy, Debug, PartialEq, Eq, Structural)]
pub struct TrampolineLayout {
    /// Bytes that the saved registers take.
    pub saved_bytes: u64,
    /// Where the error code lies, on a vector that has one.
    pub error_code_offset: Option<u64>,
    /// Where the saved execution context begins.
    pub context_offset: u64,
    /// What to take from the stack pointer before the `call`, and to give
    /// back after it.
    pub alignment_padding: u64,
    /// What to drop between the last `pop` and `iretq`: the error code.
    pub discard_bytes: u64,
}

/// The stack pointer on entry to a trampoline. The CPU rounds the interrupted
/// stack down to `aligned_top`, a multiple of 16, pushes the five words of the
/// saved execution context and then, on some vectors, an error code.
pub open spec fn entry_stack_pointer(aligned_top: int, with_error_code: bool) -> int {
    aligned_top - CONTEXT_WORDS * WORD_SIZE - if with_error_code {
        WORD_SIZE as int
    } else {
        0
    }
}

/// Where the saved execution context begins: at its lowest word, the return
/// instruction pointer.
pub open spec fn context_address(aligned_top: int) -> int {
    aligned_top - CONTEXT_WORDS * WORD_SIZE
}

/// The layout of a trampoline for a vector with or without an error code.
pub open spec fn layout_of(with_error_code: bool) -> TrampolineLayout {
    if with_error_code {
        TrampolineLayout {
            saved_bytes: 72,
            error_code_offset: Some(72),
            context_offset: 80,
            alignment_padding: 8,
            discard_bytes: 8,
        }
    } else {
        TrampolineLayout {
            saved_bytes: 72,
            error_code_offset: None,
            context_offset: 72,
            alignment_padding: 0,
            discard_bytes: 0,
        }
    }
}

impl TrampolineLayout {
    /// Computes the layout from the number of saved registers.
    pub fn new(with_error_code: bool) -> (layout: TrampolineLayout)
        ensures
            layout == layout_of(with_error_code),
    {
        let saved_bytes: u64 = SCRATCH_REGISTERS * WORD_SIZE;
        let context_bytes: u64 = CONTEXT_WORDS * WORD_SIZE;
        if with_error_code {
            let pushed: u64 = context_bytes + WORD_SIZE + saved_bytes;
            TrampolineLayout {
                saved_bytes,
                error_code_offset: Some(saved_bytes),
                context_offset: saved_bytes + WORD_SIZE,
                alignment_padding: (STACK_ALIGNMENT - pushed % STACK_ALIGNMENT) % STACK_ALIGNMENT,
                discard_bytes: WORD_SIZE,
            }
        } else {
            let pushed: u64 = context_bytes + saved_bytes;
            TrampolineLayout {
                saved_bytes,
                error_code_offset: None,
                context_offset: saved_bytes,
                alignment_padding: (STACK_ALIGNMENT - pushed % STACK_ALIGNMENT) % STACK_ALIGNMENT,
                discard_bytes: 0,
            }
        }
    }

    /// Whatever stack the CPU interrupted: once the scratch registers are
    /// saved, the context offset leads to the saved execution context and the
    /// error code offset to the error code; with the padding taken off, the
    /// stack pointer is aligned for the `call`; and after the registers are
    /// restored and the error code is dropped, the stack pointer is at the
    /// saved execution context, where `iretq` expects it.
    pub proof fn lemma_layout_is_sound(aligned_top: int, with_error_code: bool)
        requires
            aligned_top % 16 == 0,
        ensures
            ({
                let layout = layout_of(with_error_code);
                let entry = entry_stack_pointer(aligned_top, with_error_code);
                let saved = entry - layout.saved_bytes;
                &&& layout.saved_bytes == SCRATCH_REGISTERS * WORD_SIZE
                &&& saved + layout.context_offset == context_address(aligned_top)
                &&& with_error_code ==> layout.error_code_offset is Some && saved
                    + layout.error_code_offset->0 == context_address(aligned_top) - WORD_SIZE
                &&& !with_error_code ==> layout.error_code_offset is None
                &&& (saved - layout.alignment_padding) % 16 == 0
                &&& 0 <= layout.alignment_padding < 16
                &&& entry + layout.discard_bytes == context_address(aligned_top)
            }),
    {
    }
}

/// The exceptions that the kernel tells apart.
#[derive(Clone, Copy, Debug, PartialEq, Eq, Structural)]
pub enum Fault {
    DivisionError,
    Breakpoint,
    InvalidOpcode,
    DoubleFault,
    GeneralProtectionFault,
    PageFault,
    /// Any vector that has no handler of its own.
    Generic,
}

/// What happens once a fault is reported.
#[derive(Clone, Copy, Debug, PartialEq, Eq, Structural)]
pub enum FaultAction {
    /// The interrupted code goes on.
    Resume,
    /// The processor waits for a reset; nothing runs any more.
    Halt,
}

/// What a fault handler decides: the text to show and what to do then.
#[derive(Debug, PartialEq, Eq)]
pub struct FaultReport {
    pub message: String,
    pub action: FaultAction,
}

/// The saved execution context as text, one field to a line.
pub open spec fn frame_text(frame: InterruptStackFrame) -> Seq<char> {
    "InterruptStackFrame {\n    instruction_pointer: "@ + decimal(
        frame.instruction_pointer as nat,
    ) + ",\n    code_segment: "@ + decimal(frame.code_segment as nat) + ",\n    cpu_flags: "@
        + decimal(frame.cpu_flags as nat) + ",\n    stack_pointer: "@ + decimal(
        frame.stack_pointer as nat,
    ) + ",\n    stack_segment: "@ + decimal(frame.stack_segment as nat) + ",\n}"@
}

/// The text that reports a fault: its name, the error code where the fault is
/// told apart by it, and the saved execution context.
pub open spec fn diagnostic(
    fault: Fault,
    frame: InterruptStackFrame,
    error_code: u64,
) -> Seq<char> {
    if fault == Fault::PageFault {
        "EXCEPTION: "@ + fault.name_text() + " occured\nError Code: "@ + decimal(
            error_code as nat,
        ) + "\n"@ + frame_text(frame)
    } else {
        "EXCEPTION: "@ + fault.name_text() + "\n"@ + frame_text(frame)
    }
}

/// The saved execution context as text.
pub fn frame_string(frame: &InterruptStackFrame) -> (text: String)
    ensures
        text@ == frame_text(*frame),
{
    let mut text = String::from_str("InterruptStackFrame {\n    instruction_pointer: ");
    append_decimal(&mut text, frame.instruction_pointer);
    text.append(",\n    code_segment: ");
    append_decimal(&mut text, frame.code_segment);
    text.append(",\n    cpu_flags: ");
    append_decimal(&mut text, frame.cpu_flags);
    text.append(",\n    stack_pointer: ");
    append_decimal(&mut text, frame.stack_pointer);
    text.append(",\n    stack_segment: ");
    append_decimal(&mut text, frame.stack_segment);
    text.append(",\n}");
    text
}

impl Fault {
    /// The name under which a fault is reported.
    pub open spec fn name_text(self) -> Seq<char> {
        match self {
            Fault::DivisionError => "DIVISION ERROR"@,
            Fault::Breakpoint => "BREAKPOINT"@,
            Fault::InvalidOpcode => "INVALID OPCODE"@,
            Fault::DoubleFault => "DOUBLE FAULT"@,
            Fault::GeneralProtectionFault => "GENERAL PROTECTION FAULT"@,
            Fault::PageFault => "PAGE FAULT"@,
            Fault::Generic => "GENERIC"@,
        }
    }

    /// The fault that a vector stands for.
    pub open spec fn of_vector(vector: u8) -> Fault {
        if vector == DIVIDE_ERROR_VECTOR {
            Fault::DivisionError
        } else if vector == BREAKPOINT_VECTOR {
            Fault::Breakpoint
        } else if vector == INVALID_OPCODE_VECTOR {
            Fault::InvalidOpcode
        } else if vector == DOUBLE_FAULT_VECTOR {
            Fault::DoubleFault
        } else if vector == GENERAL_PROTECTION_FAULT_VECTOR {
            Fault::GeneralProtectionFault
        } else if vector == PAGE_FAULT_VECTOR {
            Fault::PageFault
        } else {
            Fault::Generic
        }
    }

    /// Every fault but the breakpoint is the end of the faulting context.
    pub open spec fn fatal(self) -> bool {
        self != Fault::Breakpoint
    }

    /// What follows once a fault is reported.
    pub open spec fn action(self) -> FaultAction {
        if self.fatal() {
            FaultAction::Halt
        } else {
            FaultAction::Resume
        }
    }

    /// The fault that a vector stands for. A vector without a handler of its
    /// own is a generic fault.
    pub fn from_vector(vector: u8) -> (fault: Fault)
        ensures
            fault == Fault::of_vector(vector),
    {
        match vector {
            0 => Fault::DivisionError,
            3 => Fault::Breakpoint,
            6 => Fault::InvalidOpcode,
            8 => Fault::DoubleFault,
            13 => Fault::GeneralProtectionFault,
            14 => Fault::PageFault,
            _ => Fault::Generic,
        }
    }

    /// The name under which the fault is reported.
    pub fn name(&self) -> (name: &'static str)
        ensures
            name@ == self.name_text(),
    {
        match self {
            Fault::DivisionError => "DIVISION ERROR",
            Fault::Breakpoint => "BREAKPOINT",
            Fault::InvalidOpcode => "INVALID OPCODE",
            Fault::DoubleFault => "DOUBLE FAULT",
            Fault::GeneralProtectionFault => "GENERAL PROTECTION FAULT",
            Fault::PageFault => "PAGE FAULT",
            Fault::Generic => "GENERIC",
        }
    }

    /// Whether the fault ends the faulting context.
    pub fn is_fatal(&self) -> (fatal: bool)
        ensures
            fatal == self.fatal(),
    {
        match self {
            Fault::Breakpoint => false,
            _ => true,
        }
    }

    /// Reports the fault: the text names it and shows the saved execution
    /// context, and the action is to halt unless the fault is a breakpoint.
    /// `error_code` is read for a page fault alone.
    pub fn report(&self, stack_frame: &InterruptStackFrame, error_code: u64) -> (report:
        FaultReport)
        ensures
            report.message@ == diagnostic(*self, *stack_frame, error_code),
            report.action == self.action(),
    {
        let mut message = String::from_str("EXCEPTION: ");
        message.append(self.name());
        match self {
            Fault::PageFault => {
                message.append(" occured\nError Code: ");
                append_decimal(&mut message, error_code);
            },
            _ => {},
        }
        message.append("\n");
        let frame = frame_string(stack_frame);
        message.append(frame.as_str());
        let action = if self.is_fatal() {
            FaultAction::Halt
        } else {
            FaultAction::Resume
        };
        FaultReport { message, action }
    }

    /// Whatever the fault, its report shows the instruction pointer and the flags as
    /// they were saved on entry, each with at least one digit.
    pub proof fn lemma_report_shows_context(
        self,
        frame: InterruptStackFrame,
        error_code: u64,
    )
        ensures
            decimal(frame.instruction_pointer as nat).len() >= 1,
            decimal(frame.cpu_flags as nat).len() >= 1,
            contains(
                diagnostic(self, frame, error_code),
                decimal(frame.instruction_pointer as nat),
            ),
            contains(diagnostic(self, frame, error_code), decimal(frame.cpu_flags as nat)),
    {
        lemma_decimal_is_not_empty(frame.instruction_pointer as nat);
        lemma_decimal_is_not_empty(frame.cpu_flags as nat);
        let ip = decimal(frame.instruction_pointer as nat);
        let cs = decimal(frame.code_segment as nat);
        let flags = decimal(frame.cpu_flags as nat);
        let sp = decimal(frame.stack_pointer as nat);
        let ss = decimal(frame.stack_segment as nat);
        let h0 = "InterruptStackFrame {\n    instruction_pointer: "@;
        let h1 = ",\n    code_segment: "@;
        let h2 = ",\n    cpu_flags: "@;
        let h3 = ",\n    stack_pointer: "@;
        let h4 = ",\n    stack_segment: "@;
        let h5 = ",\n}"@;
        let text = frame_text(frame);
        assert(contains(text, ip)) by {
            let tail = h1 + cs + h2 + flags + h3 + sp + h4 + ss + h5;
            assert(text =~= h0 + ip + tail);
            lemma_contains_middle(h0, ip, tail);
        }
        assert(contains(text, flags)) by {
            let head = h0 + ip + h1 + cs + h2;
            let tail = h3 + sp + h4 + ss + h5;
            assert(text =~= head + flags + tail);
            lemma_contains_middle(head, flags, tail);
        }
        let whole = diagnostic(self, frame, error_code);
        let head = if self == Fault::PageFault {
            "EXCEPTION: "@ + self.name_text() + " occured\nError Code: "@ + decimal(
                error_code as nat,
            ) + "\n"@
        } else {
            "EXCEPTION: "@ + self.name_text() + "\n"@
        };
        assert(whole =~= head + text + Seq::<char>::empty());
        lemma_contains_extended(head, text, Seq::<char>::empty(), ip);
        lemma_contains_extended(head, text, Seq::<char>::empty(), flags);
    }
}

// Reference: https://os.phil-opp.com/cpu-exceptions/#the-interrupt-calling-convention
/// Handler of the divide error: reports and halts.
pub fn div_error_handler(stack_frame: &InterruptStackFrame) -> (report: FaultReport)
    ensures
        report.message@ == diagnostic(Fault::DivisionError, *stack_frame, 0),
        report.action == FaultAction::Halt,
{
    Fault::DivisionError.report(stack_frame, 0)
}

/// Handler of the invalid opcode fault: reports and halts.
pub fn invalid_opcode_handler(stack_frame: &InterruptStackFrame) -> (report: FaultReport)
    ensures
        report.message@ == diagnostic(Fault::InvalidOpcode, *stack_frame, 0),
        report.action == FaultAction::Halt,
{
    Fault::InvalidOpcode.report(stack_frame, 0)
}

/// Handler of the breakpoint trap: reports and lets the interrupted code go on.
pub fn breakpoint_handler(stack_frame: &InterruptStackFrame) -> (report: FaultReport)
    ensures
        report.message@ == diagnostic(Fault::Breakpoint, *stack_frame, 0),
        report.action == FaultAction::Resume,
{
    Fault::Breakpoint.report(stack_frame, 0)
}

/// Handler of the double fault: reports and halts. The error code of a double
/// fault is always zero and is not shown.
pub fn double_fault_handler(stack_frame: &InterruptStackFrame, _error_code: u64) -> (report:
    FaultReport)
    ensures
        report.message@ == diagnostic(Fault::DoubleFault, *stack_frame, 0),
        report.action == FaultAction::Halt,
{
    Fault::DoubleFault.report(stack_frame, 0)
}

/// Handler of the general protection fault: reports and halts.
pub fn general_protection_fault_handler(
    stack_frame: &InterruptStackFrame,
    _error_code: u64,
) -> (report: FaultReport)
    ensures
        report.message@ == diagnostic(Fault::GeneralProtectionFault, *stack_frame, 0),
        report.action == FaultAction::Halt,
{
    Fault::GeneralProtectionFault.report(stack_frame, 0)
}

/// Handler of the page fault: reports, error code included, and halts.
pub fn page_fault_handler(stack_frame: &InterruptStackFrame, error_code: u64) -> (report:
    FaultReport)
    ensures
        report.message@ == diagnostic(Fault::PageFault, *stack_frame, error_code),
        report.action == FaultAction::Halt,
{
    Fault::PageFault.report(stack_frame, error_code)
}

/// Handler of every vector that has none of its own: reports and halts.
pub fn generic_handler(stack_frame: &InterruptStackFrame) -> (report: FaultReport)
    ensures
        report.message@ == diagnostic(Fault::Generic, *stack_frame, 0),
        report.action == FaultAction::Halt,
{
    Fault::Generic.report(stack_frame, 0)
}

} // verus!
