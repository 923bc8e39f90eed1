//! The command shell.
//!
//! Two shells live here. The one of this file reads a short command from the
//! keyboard, scancode by scancode, and answers it once; the line editor of
//! [`shell`] is fed by the keyboard interrupt.

use vstd::prelude::*;
use vstd::string::StringSliceAdditionalSpecFns;
use vstd::utf8::valid_utf8;
use crate::interrupts::interrupts::{decoded, DecoderState, Key, KeyboardDecoder};
use crate::vga_buffer::{Color, ColorCode, Screen, Writer, UNPRINTABLE};

pub mod shell;

verus! {

/// Bytes that a command can have.
pub const COMMAND_CAPACITY: usize = 16;

/// The screen with `foreground` on `background` for the characters to come.
pub open spec fn in_colors(screen: Screen, foreground: Color, background: Color) -> Screen {
    Screen { color: ColorCode::of(foreground, background), ..screen }
}

/// The screen with the prompt on it: the prompt text in pink, and white for
/// what follows.
pub open spec fn prompt_screen(screen: Screen) -> Screen {
    in_colors(
        in_colors(screen, Color::Pink, Color::Black).written_all("MoonlightOS> ".spec_bytes()),
        Color::White,
        Color::Black,
    )
}

/// Number of bytes that a character takes in UTF-8.
pub open spec fn utf8_width(c: char) -> int {
    if (c as u32) < 0x80 {
        1
    } else if (c as u32) < 0x800 {
        2
    } else if (c as u32) < 0x10000 {
        3
    } else {
        4
    }
}

/// The screen with `count` blocks put on it.
pub open spec fn with_blocks(screen: Screen, count: int) -> Screen
    decreases count,
{
    if count <= 0 {
        screen
    } else {
        with_blocks(screen, count - 1).put(UNPRINTABLE)
    }
}

/// The screen with one character printed on it: an ASCII character as a
/// string of one byte, any other character as one block for each byte of
/// its UTF-8 form.
pub open spec fn printed(screen: Screen, c: char) -> Screen {
    if (c as u32) < 0x80 {
        screen.written(c as u8)
    } else {
        with_blocks(screen, utf8_width(c))
    }
}

/// What `read_input` has collected so far.
pub ghost struct Input {
    /// The bytes of the command; only the first `index` count.
    pub buffer: Seq<u8>,
    /// Number of bytes collected.
    pub index: int,
    /// Whether the line feed has been seen.
    pub finished: bool,
    /// The scancode seen last, which is not taken twice in a row.
    pub last_scancode: Option<u8>,
}

impl Input {
    /// Nothing collected yet.
    pub open spec fn empty() -> Input {
        Input {
            buffer: Seq::new(COMMAND_CAPACITY as nat, |i: int| 0u8),
            index: 0,
            finished: false,
            last_scancode: None,
        }
    }

    pub open spec fn wf(self) -> bool {
        &&& self.buffer.len() == COMMAND_CAPACITY
        &&& 0 <= self.index <= COMMAND_CAPACITY
    }

    /// Reading goes on until the line feed, or until the buffer is full.
    pub open spec fn wants_more(self) -> bool {
        !self.finished && self.index < COMMAND_CAPACITY
    }

    /// The command: the bytes collected.
    pub open spec fn command(self) -> Seq<u8> {
        self.buffer.subrange(0, self.index)
    }

    /// Input and screen after a scancode that decodes to `key`. A scancode
    /// that repeats the last one is the same key held down and is passed
    /// over. A line feed ends the command. A backspace drops the last byte,
    /// if there is one, and puts the backspace byte on the screen. Any other
    /// character joins the command with its low byte and is printed.
    pub open spec fn stepped(self, screen: Screen, scancode: u8, key: Option<Key>) -> (
        Input,
        Screen,
    ) {
        if !self.wants_more() || self.last_scancode == Some(scancode) {
            (self, screen)
        } else {
            let seen = Input { last_scancode: Some(scancode), ..self };
            match key {
                Some(Key::Unicode(character)) => {
                    if character == '\n' {
                        (Input { finished: true, ..seen }, screen)
                    } else if character == '\u{8}' {
                        if seen.index > 0 {
                            (Input { index: seen.index - 1, ..seen }, screen.put(0x08))
                        } else {
                            (seen, screen)
                        }
                    } else {
                        (
                            Input {
                                buffer: seen.buffer.update(seen.index, character as u8),
                                index: seen.index + 1,
                                ..seen
                            },
                            printed(screen, character),
                        )
                    }
                },
                _ => (seen, screen),
            }
        }
    }
}

/// The command that is read from the keyboard.
pub struct InputLine {
    buffer: [u8; 16],
    buffer_index: usize,
    finished: bool,
    last_scancode: Option<u8>,
}

impl View for InputLine {
    type V = Input;

    closed spec fn view(&self) -> Input {
        Input {
            buffer: self.buffer@,
            index: self.buffer_index as int,
            finished: self.finished,
            last_scancode: self.last_scancode,
        }
    }
}

impl InputLine {
    pub open spec fn wf(&self) -> bool {
        self@.wf()
    }

    /// An input with nothing collected.
    pub fn new() -> (input: InputLine)
        ensures
            input.wf(),
            input@ == Input::empty(),
    {
        let input = InputLine {
            buffer: [0u8;16],
            buffer_index: 0,
            finished: false,
            last_scancode: None,
        };
        assert(input@.buffer =~= Input::empty().buffer);
        input
    }

    /// Whether another scancode is wanted.
    pub fn wants_more(&self) -> (more: bool)
        ensures
            more == self@.wants_more(),
    {
        !self.finished && self.buffer_index < COMMAND_CAPACITY
    }

    /// The command: the bytes collected.
    pub fn command(&self) -> (command: Vec<u8>)
        requires
            self.wf(),
        ensures
            command@ == self@.command(),
    {
        let mut command: Vec<u8> = Vec::new();
        let mut i: usize = 0;
        while i < self.buffer_index
            invariant
                i <= self.buffer_index <= COMMAND_CAPACITY,
                command@ == self.buffer@.subrange(0, i as int),
            decreases self.buffer_index - i,
        {
            command.push(self.buffer[i]);
            i += 1;
        }
        command
    }

    /// Takes a scancode that decodes to `key`.
    pub fn take_key(&mut self, scancode: u8, key: Option<Key>, writer: &mut Writer)
        requires
            old(self).wf(),
            old(writer).wf(),
        ensures
            final(self).wf(),
            final(writer).wf(),
            (final(self)@, final(writer)@) == old(self)@.stepped(old(writer)@, scancode, key),
    {
        if !self.wants_more() {
            return ;
        }
        // Check if this scancode is same as the previous one (key repeat)

        if is_last(self.last_scancode, scancode) {
            return ;
        }
        self.last_scancode = Some(scancode);

        match key {
            Some(Key::Unicode(character)) => {
                if character == '\n' {
                    self.finished = true;
                } else if character == '\u{8}' {
                    if self.buffer_index > 0 {
                        self.buffer_index -= 1;
                        writer.write_byte(0x08);
                    }
                } else {
                    self.buffer[self.buffer_index] = #[verifier::truncate] (character as u8);
                    print_char(writer, character);
                    self.buffer_index += 1;
                }
            },
            _ => {},
        }
    }
}

/// Whether `scancode` is the scancode seen last.
fn is_last(last_scancode: Option<u8>, scancode: u8) -> (same: bool)
    ensures
        same == (last_scancode == Some(scancode)),
{
    match last_scancode {
        Some(last) => last == scancode,
        None => false,
    }
}

/// Prints one character as the formatting machinery would: as the string of
/// its UTF-8 bytes.
fn print_char(writer: &mut Writer, c: char)
    requires
        old(writer).wf(),
    ensures
        final(writer).wf(),
        final(writer)@ == printed(old(writer)@, c),
{
    let code: u32 = c as u32;
    if code < 0x80 {
        let byte: u8 = code as u8;
        proof {
            writer@.lemma_written_wf(byte);
        }
        if 0x20 <= byte && byte <= 0x7e {
            writer.write_byte(byte);
        } else if byte == 0x0a {
            writer.new_line();
        } else {
            writer.write_byte(UNPRINTABLE);
        }
    } else {
        let width: usize = if code < 0x800 {
            2
        } else if code < 0x10000 {
            3
        } else {
            4
        };
        let mut i: usize = 0;
        while i < width
            invariant
                i <= width,
                writer.wf(),
                writer@ == with_blocks(old(writer)@, i as int),
            decreases width - i,
        {
            proof {
                writer@.lemma_written_wf(UNPRINTABLE);
            }
            writer.write_byte(UNPRINTABLE);
            i += 1;
        }
    }
}

/// Shows the prompt and begins to read a command.
pub fn run_shell(writer: &mut Writer) -> (input: InputLine)
    requires
        old(writer).wf(),
    ensures
        final(writer).wf(),
        final(writer)@ == prompt_screen(old(writer)@),
        input.wf(),
        input@ == Input::empty(),
{
    writer.set_colors(Color::Pink, Color::Black);
    writer.write_string("MoonlightOS> ");
    writer.set_colors(Color::White, Color::Black);

    InputLine::new()
}

/// One round of reading: takes the scancode that was read from the keyboard
/// and says whether another one is wanted. Every scancode is decoded on its
/// own, by a decoder that has seen nothing before, and input and screen are
/// what the key that comes out makes of them.
pub fn read_input(input: &mut InputLine, scancode: u8, writer: &mut Writer) -> (more: bool)
    requires
        old(input).wf(),
        old(writer).wf(),
    ensures
        final(input).wf(),
        final(writer).wf(),
        (final(input)@, final(writer)@) == old(input)@.stepped(
            old(writer)@,
            scancode,
            decoded(DecoderState::fresh(), scancode).0,
        ),
        more == final(input)@.wants_more(),
{
    let mut keyboard = KeyboardDecoder::new();
    let key = keyboard.decode(scancode);
    input.take_key(scancode, key, writer);
    input.wants_more()
}

/// What is left to do once a command is answered.
#[derive(Clone, Copy, Debug, PartialEq, Eq, Structural)]
pub enum CommandOutcome {
    /// Nothing.
    Done,
    /// Rain, line after line, without end.
    MatrixRain,
}

/// The screen after the answer to a command.
pub open spec fn answered(command: Seq<u8>, screen: Screen) -> Screen {
    if command == "ping".spec_bytes() {
        in_colors(
            in_colors(screen, Color::White, Color::Black).written_all("\npong\n".spec_bytes()),
            Color::White,
            Color::Black,
        )
    } else if command == "hello".spec_bytes() {
        in_colors(
            in_colors(screen, Color::White, Color::Black).written_all(
                "\nHello, world!\n".spec_bytes(),
            ),
            Color::White,
            Color::Black,
        )
    } else if command == "help".spec_bytes() {
        in_colors(
            in_colors(screen, Color::White, Color::Black).written_all(
                "\nCommands:\n".spec_bytes(),
            ).written_all("ping - pong\n".spec_bytes()).written_all(
                "hello - hello, world!\n".spec_bytes(),
            ).written_all("help - this help message\n".spec_bytes()).written_all(
                "matrix - matrix rain\n".spec_bytes(),
            ),
            Color::White,
            Color::Black,
        )
    } else if command == "matrix".spec_bytes() {
        in_colors(screen, Color::LightGreen, Color::Black)
    } else {
        in_colors(
            in_colors(screen, Color::Magenta, Color::Black).written_all(
                "\nUnknown command\n".spec_bytes(),
            ),
            Color::White,
            Color::Black,
        )
    }
}

/// What is left to do after the answer to a command: the rain after
/// `matrix`, nothing after any other command.
pub open spec fn outcome_of(command: Seq<u8>) -> CommandOutcome {
    if command == "ping".spec_bytes() {
        CommandOutcome::Done
    } else if command == "hello".spec_bytes() {
        CommandOutcome::Done
    } else if command == "help".spec_bytes() {
        CommandOutcome::Done
    } else if command == "matrix".spec_bytes() {
        CommandOutcome::MatrixRain
    } else {
        CommandOutcome::Done
    }
}

/// Whether `command` is the name `name`, byte for byte.
fn is_named(command: &[u8], name: &str) -> (same: bool)
    ensures
        same == (command@ == name.spec_bytes()),
{
    let bytes = name.as_bytes();
    if command.len() != bytes.len() {
        return false;
    }
    let mut i: usize = 0;
    while i < bytes.len()
        invariant
            i <= bytes.len(),
            command@.len() == bytes@.len(),
            bytes@ == name.spec_bytes(),
            forall|j: int| 0 <= j < i ==> command@[j] == bytes@[j],
        decreases bytes.len() - i,
    {
        if command[i] != bytes[i] {
            return false;
        }
        i += 1;
    }
    assert(command@ =~= name.spec_bytes());
    true
}

/// Answers a command. The bytes of the command have to be text; what is not
/// one of the known commands is answered with a complaint. After `matrix`
/// the rain is still to come.
pub fn process_command(command: &[u8], writer: &mut Writer) -> (outcome: CommandOutcome)
    requires
        valid_utf8(command@),
        old(writer).wf(),
    ensures
        final(writer).wf(),
        final(writer)@ == answered(command@, old(writer)@),
        outcome == outcome_of(command@),
{
    if is_named(command, "ping") {
        writer.set_colors(Color::White, Color::Black);
        writer.write_string("\npong\n");
        writer.reset_colors();
        CommandOutcome::Done
    } else if is_named(command, "hello") {
        writer.set_colors(Color::White, Color::Black);
        writer.write_string("\nHello, world!\n");
        writer.reset_colors();
        CommandOutcome::Done
    } else if is_named(command, "help") {
        writer.set_colors(Color::White, Color::Black);
        writer.write_string("\nCommands:\n");
        writer.write_string("ping - pong\n");
        writer.write_string("hello - hello, world!\n");
        writer.write_string("help - this help message\n");
        writer.write_string("matrix - matrix rain\n");
        writer.reset_colors();
        CommandOutcome::Done
    } else if is_named(command, "matrix") {
        writer.set_colors(Color::LightGreen, Color::Black);
        CommandOutcome::MatrixRain
    } else {
        writer.set_colors(Color::Magenta, Color::Black);
        writer.write_string("\nUnknown command\n");
        writer.reset_colors();
        CommandOutcome::Done
    }
}

/// The screen after round `j` of the rain, and the number of the next round.
/// Rounds 0 to 3 write one line each; the round after them writes nothing and
/// leads to round 1, so that the first line falls once.
pub open spec fn rained(j: u32, screen: Screen) -> (u32, Screen) {
    if j == 0 {
        (1, screen.written_all("      $  ^   $      $   $\n".spec_bytes()))
    } else if j == 1 {
        (2, screen.written_all("       &    o       &   *      O   \n".spec_bytes()))
    } else if j == 2 {
        (3, screen.written_all("  Y    !   &   &     $    P     L\n".spec_bytes()))
    } else if j == 3 {
        (4, screen.written_all("  ^   $   &   !   *       (    \n".spec_bytes()))
    } else {
        (1, screen)
    }
}

/// One round of the rain. Returns the number of the next round.
pub fn matrix_rain(j: u32, writer: &mut Writer) -> (next: u32)
    requires
        old(writer).wf(),
    ensures
        final(writer).wf(),
        (next, final(writer)@) == rained(j, old(writer)@),
{
    let mut j = j;
    match j {
        0 => writer.write_string("      $  ^   $      $   $\n"),
        1 => writer.write_string("       &    o       &   *      O   \n"),
        2 => writer.write_string("  Y    !   &   &     $    P     L\n"),
        3 => writer.write_string("  ^   $   &   !   *       (    \n"),
        _ => j = 0,
    }
    j += 1;
    j
}

} // verus!
