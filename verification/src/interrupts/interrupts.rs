//! The device interrupts: timer and keyboard.

use vstd::prelude::*;
use pc_keyboard::layouts::Us104Key;
use pc_keyboard::{DecodedKey, HandleControl, KeyEvent, Keyboard, ScancodeSet1};
use crate::interrupts::exceptions::{
    ExceptionHandlers, DOUBLE_FAULT_IST_INDEX, DOUBLE_FAULT_VECTOR,
};
use crate::interrupts::idt::{
    exception_target, missing_gate, IdtEntryOptions, InterruptDescriptorTable,
};
use crate::pic::ChainedPics;
use crate::port::PortWrite;
use crate::shell::shell::{prompted, Line, Shell, LINE_CAPACITY};
use crate::vga_buffer::{Screen, Writer};

verus! {

/// First vector of the master controller.
pub const PIC_1_OFFSET: u8 = 32;

/// First vector of the slave controller.
pub const PIC_2_OFFSET: u8 = 40;

/// Vector of the timer, line 0 of the master.
pub const TIMER_VECTOR: u8 = 32;

/// Vector of the keyboard, line 1 of the master.
pub const KEYBOARD_VECTOR: u8 = 33;

/// The byte that announces a scancode of two bytes.
pub const EXTENDED_KEY_CODE: u8 = 0xE0;

/// The scancode decoder of the pc_keyboard crate, for the US layout with 104
/// keys and scancode set 1. It remembers the prefix bytes and the modifier
/// keys that it has seen.
#[verifier::external_body]
pub struct KeyboardDecoder {
    inner: Keyboard<Us104Key, ScancodeSet1>,
}

/// A key going down or up, as the pc_keyboard crate reports it.
#[verifier::external_type_specification]
#[verifier::external_body]
pub struct ExKeyEvent(KeyEvent);

/// The reason for which the pc_keyboard crate refuses a byte.
#[verifier::external_type_specification]
#[verifier::external_body]
pub struct ExKeyboardError(pc_keyboard::Error);

/// What a key event decodes to.
#[derive(Clone, Copy, Debug, PartialEq, Eq, Structural)]
pub enum Key {
    /// A character.
    Unicode(char),
    /// A key that stands for no character.
    RawKey,
}

/// What a decoder remembers from one byte to the next.
pub ghost struct DecoderState {
    /// The prefix byte has come, and the byte that it announces has not.
    pub extended: bool,
    /// The left shift key is down.
    pub lshift: bool,
    /// The right shift key is down.
    pub rshift: bool,
    /// The left control key is down.
    pub lctrl: bool,
    /// The right control key is down.
    pub rctrl: bool,
    /// Num lock is on.
    pub numlock: bool,
    /// Caps lock is on.
    pub capslock: bool,
    /// The right alt key is down.
    pub alt_gr: bool,
}

impl DecoderState {
    /// What a decoder remembers that has seen nothing: no prefix, no key
    /// down, num lock on.
    pub open spec fn fresh() -> DecoderState {
        DecoderState {
            extended: false,
            lshift: false,
            rshift: false,
            lctrl: false,
            rctrl: false,
            numlock: true,
            capslock: false,
            alt_gr: false,
        }
    }

    /// What is remembered once a byte is taken in. A prefix byte that comes
    /// with no prefix before it is remembered; any other byte ends what was
    /// begun. No byte alone changes a modifier key.
    pub open spec fn after_byte(self, byte: u8) -> DecoderState {
        DecoderState { extended: !self.extended && byte == EXTENDED_KEY_CODE, ..self }
    }
}

/// What a decoder remembers.
pub uninterp spec fn decoder_state(decoder: KeyboardDecoder) -> DecoderState;

/// What `Keyboard::add_byte` of the pc_keyboard crate returns for `byte`, in
/// a decoder that remembers `state`: the key that goes down or up, nothing
/// after a prefix byte, or the reason for which the byte is refused.
pub uninterp spec fn added_byte(state: DecoderState, byte: u8) -> Result<
    Option<KeyEvent>,
    pc_keyboard::Error,
>;

/// What `Keyboard::process_keyevent` of the pc_keyboard crate makes of
/// `event`, in a decoder that remembers `state`: the key that it returns, and
/// what the decoder remembers afterwards.
pub uninterp spec fn processed_event(state: DecoderState, event: KeyEvent) -> (
    Option<Key>,
    DecoderState,
);

/// What comes of what `add_byte` gave: an event is processed, and neither a
/// prefix byte nor a refused byte gives a key or changes what is remembered.
pub open spec fn key_of_outcome(
    state: DecoderState,
    outcome: Result<Option<KeyEvent>, pc_keyboard::Error>,
) -> (Option<Key>, DecoderState) {
    match outcome {
        Ok(Some(event)) => processed_event(state, event),
        _ => (None, state),
    }
}

/// The key that a scancode decodes to in a decoder that remembers `state`,
/// and what the decoder remembers afterwards: the byte is taken in, and the
/// event that it completes, if it completes one, is processed.
pub open spec fn decoded(state: DecoderState, scancode: u8) -> (Option<Key>, DecoderState) {
    key_of_outcome(state.after_byte(scancode), added_byte(state, scancode))
}

impl View for KeyboardDecoder {
    type V = DecoderState;

    open spec fn view(&self) -> DecoderState {
        decoder_state(*self)
    }
}

impl KeyboardDecoder {
    /// Calls `Keyboard::new` of the pc_keyboard crate, with the control keys
    /// passed through as they are.
    ///
    /// The crate builds the decoder from constants: it waits for the first
    /// byte of a scancode, no modifier key is down, and num lock is on.
    #[verifier::external_body]
    fn us104() -> (decoder: KeyboardDecoder)
        ensures
            decoder_state(decoder) == DecoderState::fresh(),
    {
        KeyboardDecoder { inner: Keyboard::new(Us104Key, ScancodeSet1, HandleControl::Ignore) }
    }

    /// A decoder that has seen no byte yet.
    pub fn new() -> (decoder: KeyboardDecoder)
        ensures
            decoder@ == DecoderState::fresh(),
    {
        KeyboardDecoder::us104()
    }

    /// Calls `Keyboard::add_byte` of the pc_keyboard crate.
    ///
    /// The crate hands the byte to the state machine of scancode set 1, which
    /// reads and writes nothing of the decoder but whether a prefix is
    /// pending. What it returns is named [`added_byte`]. It remembers a prefix
    /// byte that comes with no prefix pending, and after any other byte no
    /// prefix is pending, whether the byte is refused or not.
    #[verifier::external_body]
    fn add_byte(&mut self, byte: u8) -> (outcome: Result<Option<KeyEvent>, pc_keyboard::Error>)
        ensures
            outcome == added_byte(decoder_state(*old(self)), byte),
            decoder_state(*final(self)) == decoder_state(*old(self)).after_byte(byte),
    {
        self.inner.add_byte(byte)
    }

    /// Calls `Keyboard::process_keyevent` of the pc_keyboard crate.
    ///
    /// The crate reads the event and the modifier keys, and nothing else that
    /// changes. The key that it returns and the modifier keys that it leaves
    /// are named [`processed_event`].
    #[verifier::external_body]
    fn process_keyevent(&mut self, event: KeyEvent) -> (key: Option<Key>)
        ensures
            (key, decoder_state(*final(self))) == processed_event(
                decoder_state(*old(self)),
                event,
            ),
    {
        match self.inner.process_keyevent(event) {
            Some(DecodedKey::Unicode(character)) => Some(Key::Unicode(character)),
            Some(DecodedKey::RawKey(_)) => Some(Key::RawKey),
            None => None,
        }
    }

    /// Takes what `add_byte` gave. An event is processed: a key comes out if
    /// the event is the press of a key that is no modifier. After a prefix
    /// byte or a refused byte there is no event, no key comes out and the
    /// decoder stays as it is.
    pub fn key_of(&mut self, outcome: Result<Option<KeyEvent>, pc_keyboard::Error>) -> (key:
        Option<Key>)
        ensures
            (key, final(self)@) == key_of_outcome(old(self)@, outcome),
    {
        match outcome {
            Ok(Some(event)) => self.process_keyevent(event),
            _ => None,
        }
    }

    /// Feeds one scancode to the decoder. A key comes out when the scancode
    /// completes the press of a key; a prefix byte, a release, a modifier key
    /// or a byte that the decoder refuses gives none.
    pub fn decode(&mut self, scancode: u8) -> (key: Option<Key>)
        ensures
            (key, final(self)@) == decoded(old(self)@, scancode),
    {
        let outcome = self.add_byte(scancode);
        self.key_of(outcome)
    }
}

/// The address that `init_idt` binds to a vector, if it binds one: the six
/// exceptions, the timer and the keyboard.
pub open spec fn bound_target(
    handlers: ExceptionHandlers,
    timer: u64,
    keyboard: u64,
    vector: int,
) -> Option<u64> {
    if vector == TIMER_VECTOR {
        Some(timer)
    } else if vector == KEYBOARD_VECTOR {
        Some(keyboard)
    } else {
        exception_target(handlers, vector)
    }
}

/// The field of the interrupt stack table in the entry of a vector: the
/// double fault runs on a stack of its own, every other handler on the stack
/// that was interrupted.
pub open spec fn stack_field(vector: int) -> u16 {
    if vector == DOUBLE_FAULT_VECTOR {
        (DOUBLE_FAULT_IST_INDEX + 1) as u16
    } else {
        0
    }
}

/// Builds the table of the kernel: the handlers of the exceptions, of the
/// timer and of the keyboard at their vectors, each in a present entry in the
/// code segment that the CPU runs in, and `catch_all` behind every other
/// vector. The double fault gets a stack of its own.
pub fn init_idt(catch_all: u64, handlers: &ExceptionHandlers, timer: u64, keyboard: u64) -> (table:
    InterruptDescriptorTable)
    ensures
        forall|vector: int|
            #![trigger table.entries@[vector]]
            0 <= vector < 256 ==> match bound_target(*handlers, timer, keyboard, vector) {
                Some(target) => {
                    &&& table.gate(vector).target == target
                    &&& table.gate(vector).options@.present
                    &&& table.gate(vector).options@.stack_index == stack_field(vector)
                    &&& !table.gate(vector).options@.trap_gate
                    &&& table.gate(vector).options@.privilege_level == 0
                    &&& table.gate(vector).options.wf()
                    &&& table.gate(vector).reserved == 0
                },
                None => table.gate(vector) == missing_gate(catch_all),
            },
{
    let fresh = InterruptDescriptorTable::new(catch_all);
    let with_exceptions = fresh.add_exceptions(handlers);
    let with_timer = with_exceptions.add(PIC_1_OFFSET as usize, timer);
    let mut idt = with_timer.add(KEYBOARD_VECTOR as usize, keyboard);
    let mut double_fault = idt.entries[DOUBLE_FAULT_VECTOR as usize];
    double_fault.set_stack_index(DOUBLE_FAULT_IST_INDEX);
    idt.entries[DOUBLE_FAULT_VECTOR as usize] = double_fault;
    proof {
        IdtEntryOptions::lemma_minimal_options();
    }
    idt
}

/// What a decoded key does to the line and to the screen. A line feed enters
/// the line, a backspace takes a character back, any other character joins
/// the line. A key that stands for no character does nothing, and neither
/// does one that the line cannot take.
pub open spec fn delivered(line: Line, screen: Screen, key: Option<Key>) -> (Line, Screen) {
    match key {
        Some(Key::Unicode(character)) => {
            if character == '\n' {
                (Line::empty(), prompted(line.interpreted(screen.line_broken())))
            } else if line.cursor >= LINE_CAPACITY {
                (line, screen)
            } else if character == '\u{8}' {
                (
                    line.erased(),
                    if line.cursor > 0 {
                        screen.erased()
                    } else {
                        screen
                    },
                )
            } else {
                (line.added(character), screen.put(character as u8))
            }
        },
        _ => (line, screen),
    }
}

/// Hands a decoded key to the shell.
pub fn deliver_key(key: Option<Key>, shell: &mut Shell, writer: &mut Writer)
    requires
        old(shell).wf(),
        old(writer).wf(),
    ensures
        final(shell).wf(),
        final(writer).wf(),
        (final(shell)@, final(writer)@) == delivered(old(shell)@, old(writer)@, key),
{
    match key {
        Some(Key::Unicode(character)) => {
            if character == '\n' {
                shell.enter(writer);
            } else if shell.len() >= LINE_CAPACITY {
            } else if character == '\u{8}' {
                shell.backspace(writer);
            } else {
                shell.add(character, writer);
            }
        },
        _ => {},
    }
}

/// Keyboard interrupt: decodes the scancode that was read from the keyboard,
/// hands the key to the shell if there is one, and acknowledges the
/// interrupt, whatever the scancode was.
///
/// The decoder has taken the scancode in. Line and screen are what the key
/// that the scancode decodes to makes of them: a line feed enters the line, a
/// backspace takes a character back, any other character joins the line, and
/// without a key they stay as they are. The writes are the acknowledgment of
/// the keyboard vector, the same for every scancode.
pub fn keyboard_interrupt_handler(
    keyboard: &mut KeyboardDecoder,
    scancode: u8,
    shell: &mut Shell,
    writer: &mut Writer,
    pics: &ChainedPics,
) -> (writes: Vec<PortWrite>)
    requires
        old(shell).wf(),
        old(writer).wf(),
    ensures
        final(keyboard)@ == decoded(old(keyboard)@, scancode).1,
        (final(shell)@, final(writer)@) == delivered(
            old(shell)@,
            old(writer)@,
            decoded(old(keyboard)@, scancode).0,
        ),
        writes@ == pics.eoi_sequence(KEYBOARD_VECTOR),
        final(shell).wf(),
        final(writer).wf(),
{
    let key = keyboard.decode(scancode);
    deliver_key(key, shell, writer);
    pics.notify_end_of_interrupt(KEYBOARD_VECTOR)
}

/// Timer interrupt: nothing to do but to acknowledge it.
pub fn timer_interrupt_handler(pics: &ChainedPics) -> (writes: Vec<PortWrite>)
    ensures
        writes@ == pics.eoi_sequence(PIC_1_OFFSET),
{
    pics.notify_end_of_interrupt(PIC_1_OFFSET)
}

} // verus!
