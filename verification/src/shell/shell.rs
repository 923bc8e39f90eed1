//! The line editor behind the prompt, and the commands that it knows.

use vstd::prelude::*;
use vstd::string::{StrSliceExecFns, StringSliceAdditionalSpecFns};
use crate::vga_buffer::{Color, ColorCode, Screen, Writer};

verus! {

/// Characters that a line can hold.
pub const LINE_CAPACITY: usize = 256;

/// What the shell shows when it waits for a line.
pub open spec fn prompt_text() -> Seq<u8> {
    "MoonlightOS> ".spec_bytes()
}

/// The commands of the shell. A line is the command whose name it starts
/// with; where more than one name fits, the first of this list wins.
#[derive(Clone, Copy, Debug, PartialEq, Eq, Structural)]
pub enum Command {
    Help,
    OsInfo,
    Echo,
    Clear,
    Unknown,
}

/// What the shell holds: the characters of the line, and how many of them
/// count.
pub ghost struct Line {
    pub buffer: Seq<char>,
    pub cursor: int,
}

/// `buffer` begins with the characters of `name`.
pub open spec fn starts_with(buffer: Seq<char>, name: Seq<char>) -> bool {
    forall|i: int| 0 <= i < name.len() ==> buffer[i] == name[i]
}

/// The screen with `color` for the characters to come.
pub open spec fn colored(screen: Screen, foreground: Color, background: Color) -> Screen {
    Screen { color: ColorCode::of(foreground, background), ..screen }
}

/// The screen with one more line of text on it.
pub open spec fn with_line(screen: Screen, text: Seq<u8>) -> Screen {
    screen.written_all(text).line_broken()
}

/// The screen with a fresh prompt on it: the prompt text in pink, and white
/// for what follows.
pub open spec fn prompted(screen: Screen) -> Screen {
    colored(
        colored(screen, Color::Pink, Color::Black).written_all(prompt_text()),
        Color::White,
        Color::Black,
    )
}

/// The screen with the complaint about a line that is no command, in pink.
pub open spec fn complained(screen: Screen) -> Screen {
    colored(
        colored(screen, Color::Pink, Color::Black).written_all("Unknown command!".spec_bytes()),
        Color::White,
        Color::Black,
    ).line_broken()
}

/// The screen with the list of commands on it.
pub open spec fn help_screen(screen: Screen) -> Screen {
    let border = "+-------------------------------------------+".spec_bytes();
    let s1 = with_line(screen, border);
    let s2 = with_line(s1, "| Available commands:                       |".spec_bytes());
    let s3 = with_line(s2, "| ping  --> prints pong                     |".spec_bytes());
    let s4 = with_line(s3, "| echo  --> prints any string               |".spec_bytes());
    let s5 = with_line(s4, "| help  --> lists available commands        |".spec_bytes());
    let s6 = with_line(s5, "| clear --> clears the screen               |".spec_bytes());
    let s7 = with_line(s6, "| osinfo --> prints OS information          |".spec_bytes());
    with_line(s7, border)
}

/// The name of the system in big letters.
pub open spec fn osinfo_art() -> Seq<u8> {
    r#"
        __  __                   _ _       _     _    ___  ____  
       |  \/  | ___   ___  _ __ | (_) __ _| |__ | |_ / _ \/ ___| 
       | |\/| |/ _ \ / _ \| '_ \| | |/ _` | '_ \| __| | | \___ \ 
       | |  | | (_) | (_) | | | | | | (_| | | | | |_| |_| |___) |
       |_|  |_|\___/ \___/|_| |_|_|_|\__, |_| |_|\__|\___/|____/ 
                                     |___/      
"#.spec_bytes()
}

/// The screen with the name and the version of the system on it.
pub open spec fn osinfo_screen(screen: Screen) -> Screen {
    let art = colored(
        colored(screen, Color::Cyan, Color::Black).written_all(osinfo_art()),
        Color::White,
        Color::Black,
    ).line_broken();
    let name = with_line(art, "OS Name: MoonlightOS".spec_bytes());
    with_line(name, "OS Version: 1.0.0".spec_bytes())
}

impl Line {
    /// The line of a shell that waits for its first character.
    pub open spec fn empty() -> Line {
        Line { buffer: Seq::new(LINE_CAPACITY as nat, |i: int| '\0'), cursor: 0 }
    }

    /// The buffer has its 256 places, the cursor is within it or just behind
    /// it, and every place behind the cursor is empty.
    pub open spec fn wf(self) -> bool {
        &&& self.buffer.len() == LINE_CAPACITY
        &&& 0 <= self.cursor <= LINE_CAPACITY
        &&& forall|i: int| self.cursor < i < LINE_CAPACITY ==> self.buffer[i] == '\0'
    }

    /// The command that the line asks for.
    pub open spec fn command(self) -> Command {
        if starts_with(self.buffer, "help"@) {
            Command::Help
        } else if starts_with(self.buffer, "osinfo"@) {
            Command::OsInfo
        } else if starts_with(self.buffer, "echo"@) {
            Command::Echo
        } else if starts_with(self.buffer, "clear"@) {
            Command::Clear
        } else {
            Command::Unknown
        }
    }

    /// The line with one more character.
    pub open spec fn added(self, c: char) -> Line {
        Line { buffer: self.buffer.update(self.cursor, c), cursor: self.cursor + 1 }
    }

    /// The line with the cursor one place back and the place that the cursor
    /// left emptied. An empty line stays as it is.
    pub open spec fn erased(self) -> Line {
        if self.cursor > 0 {
            Line { buffer: self.buffer.update(self.cursor, '\0'), cursor: self.cursor - 1 }
        } else {
            self
        }
    }

    /// What `echo` shows of the line from place `i` on: nothing up to the first
    /// quotation mark, then every character up to the second one, at which the
    /// line is broken.
    pub open spec fn echoed_from(self, screen: Screen, i: int, started: bool) -> Screen
        decreases self.cursor - i,
    {
        if i >= self.cursor {
            screen
        } else if self.buffer[i] == '"' {
            if started {
                screen.line_broken()
            } else {
                self.echoed_from(screen, i + 1, true)
            }
        } else if started {
            self.echoed_from(screen.put(self.buffer[i] as u8), i + 1, true)
        } else {
            self.echoed_from(screen, i + 1, false)
        }
    }

    /// What `echo` shows: the text between the quotation marks, if the line
    /// ends with one, and a complaint if it does not.
    pub open spec fn echoed(self, screen: Screen) -> Screen {
        if self.buffer[self.cursor - 1] != '"' {
            complained(screen)
        } else {
            self.echoed_from(screen, 0, false)
        }
    }

    /// What the command of the line leaves on the screen.
    pub open spec fn interpreted(self, screen: Screen) -> Screen {
        match self.command() {
            Command::Help => help_screen(screen),
            Command::OsInfo => osinfo_screen(screen),
            Command::Echo => self.echoed(screen),
            Command::Clear => screen.cleared(),
            Command::Unknown => with_line(screen, "Unknown command!".spec_bytes()),
        }
    }

    /// A line that asks for `echo` has a last character for `echo` to look
    /// at.
    pub proof fn lemma_echo_has_a_last_character(self)
        requires
            self.wf(),
            self.command() == Command::Echo,
        ensures
            self.cursor >= 1,
    {
        reveal_strlit("echo");
        assert(self.buffer[1] == "echo"@[1]);
    }
}

/// The line editor: the characters typed since the last prompt.
pub struct Shell {
    buffer: [char; 256],
    cursor: usize,
}

impl View for Shell {
    type V = Line;

    closed spec fn view(&self) -> Line {
        Line { buffer: self.buffer@, cursor: self.cursor as int }
    }
}

impl Shell {
    /// The cursor is within the buffer or just behind it.
    pub open spec fn wf(&self) -> bool {
        self@.wf()
    }

    /// A shell with an empty line.
    pub fn new() -> (shell: Shell)
        ensures
            shell.wf(),
            shell@ == Line::empty(),
    {
        let shell = Shell { buffer: ['\0';256], cursor: 0 };
        assert(shell@.buffer =~= Line::empty().buffer);
        shell
    }

    /// Number of characters in the line.
    pub fn len(&self) -> (cursor: usize)
        ensures
            cursor == self@.cursor,
    {
        self.cursor
    }

    /// The character at place `i` of the buffer.
    pub fn char_at(&self, i: usize) -> (c: char)
        requires
            i < LINE_CAPACITY,
        ensures
            c == self@.buffer[i as int],
    {
        self.buffer[i]
    }

    /// Empties the line and shows the prompt.
    pub fn init(&mut self, writer: &mut Writer)
        requires
            old(writer).wf(),
        ensures
            final(self).wf(),
            final(self)@ == Line::empty(),
            final(writer).wf(),
            final(writer)@ == prompted(old(writer)@),
    {
        self.buffer = ['\0';256];
        self.cursor = 0;
        assert(self@.buffer =~= Line::empty().buffer);

        writer.set_colors(Color::Pink, Color::Black);
        writer.write_string("MoonlightOS> ");
        writer.reset_colors();
    }

    /// Takes one character into the line and shows it. The line must have
    /// room for it.
    pub fn add(&mut self, c: char, writer: &mut Writer)
        requires
            old(self).wf(),
            old(self)@.cursor < LINE_CAPACITY,
            old(writer).wf(),
        ensures
            final(self).wf(),
            final(self)@ == old(self)@.added(c),
            final(writer).wf(),
            final(writer)@ == old(writer)@.put(c as u8),
    {
        self.buffer[self.cursor] = c;
        self.cursor += 1;

        writer.write_char(c);
    }

    /// Takes the last character back, on the screen too. The cursor must
    /// stand within the buffer.
    pub fn backspace(&mut self, writer: &mut Writer)
        requires
            old(self).wf(),
            old(self)@.cursor < LINE_CAPACITY,
            old(writer).wf(),
        ensures
            final(self).wf(),
            final(self)@ == old(self)@.erased(),
            final(writer).wf(),
            final(writer)@ == if old(self)@.cursor > 0 {
                old(writer)@.erased()
            } else {
                old(writer)@
            },
    {
        if self.cursor > 0 {
            self.buffer[self.cursor] = '\0';
            self.cursor -= 1;

            writer.backspace();
        }
    }

    /// Ends the line: breaks it on the screen, runs its command and shows a
    /// fresh prompt.
    pub fn enter(&mut self, writer: &mut Writer)
        requires
            old(self).wf(),
            old(writer).wf(),
        ensures
            final(self).wf(),
            final(self)@ == Line::empty(),
            final(writer).wf(),
            final(writer)@ == prompted(old(self)@.interpreted(old(writer)@.line_broken())),
    {
        writer.new_line();

        self.interpret(writer);
        self.init(writer);
    }

    /// Runs the command of the line.
    fn interpret(&mut self, writer: &mut Writer)
        requires
            old(self).wf(),
            old(writer).wf(),
        ensures
            *final(self) == *old(self),
            final(writer).wf(),
            final(writer)@ == old(self)@.interpreted(old(writer)@),
    {
        if self.is_command("help") {
            Shell::help(writer);
        } else if self.is_command("osinfo") {
            Shell::osinfo(writer);
        } else if self.is_command("echo") {
            proof {
                self@.lemma_echo_has_a_last_character();
            }
            self.echo(writer);
        } else if self.is_command("clear") {
            Shell::clear(writer);
        } else {
            write_line(writer, "Unknown command!");
        }
    }

    /// Whether the line starts with `command`, one of the names of the
    /// commands.
    fn is_command(&self, command: &str) -> (matches: bool)
        requires
            self.wf(),
            command@ == "help"@ || command@ == "osinfo"@ || command@ == "echo"@ || command@
                == "clear"@,
        ensures
            matches == starts_with(self@.buffer, command@),
    {
        proof {
            reveal_strlit("help");
            reveal_strlit("osinfo");
            reveal_strlit("echo");
            reveal_strlit("clear");
        }
        let length = command.unicode_len();
        let mut i: usize = 0;
        while i < length
            invariant
                i <= length,
                length == command@.len(),
                length <= 6,
                forall|j: int| 0 <= j < i ==> self.buffer@[j] == command@[j],
            decreases length - i,
        {
            if command.get_char(i) != self.buffer[i] {
                return false;
            }
            i += 1;
        }
        true
    }

    //commands
    /// Lists the commands.
    fn help(writer: &mut Writer)
        requires
            old(writer).wf(),
        ensures
            final(writer).wf(),
            final(writer)@ == help_screen(old(writer)@),
    {
        let border = "+-------------------------------------------+";

        write_line(writer, border);
        write_line(writer, "| Available commands:                       |");
        write_line(writer, "| ping  --> prints pong                     |");
        write_line(writer, "| echo  --> prints any string               |");
        write_line(writer, "| help  --> lists available commands        |");
        write_line(writer, "| clear --> clears the screen               |");
        write_line(writer, "| osinfo --> prints OS information          |");
        write_line(writer, border);
    }

    /// Shows the text between the quotation marks of the line.
    fn echo(&self, writer: &mut Writer)
        requires
            self.wf(),
            self@.cursor >= 1,
            old(writer).wf(),
        ensures
            final(writer).wf(),
            final(writer)@ == self@.echoed(old(writer)@),
    {
        let mut message_started = false;
        if self.buffer[self.cursor - 1] != '"' {
            writer.set_colors(Color::Pink, Color::Black);
            writer.write_string("Unknown command!");
            writer.reset_colors();
            writer.new_line();
            return ;
        }
        let mut i: usize = 0;
        while i < self.cursor
            invariant
                i <= self.cursor,
                self.wf(),
                writer.wf(),
                self@.buffer[self@.cursor - 1] == '"',
                self@.echoed_from(writer@, i as int, message_started) == self@.echoed_from(
                    old(writer)@,
                    0,
                    false,
                ),
            decreases self.cursor - i,
        {
            let c = self.buffer[i];

            if c == '"' {
                if message_started {
                    writer.new_line();
                    return ;
                } else {
                    message_started = true;
                }
            } else if message_started {
                writer.write_char(c);
            }
            i += 1;
        }
    }

    /// Empties the screen.
    fn clear(writer: &mut Writer)
        requires
            old(writer).wf(),
        ensures
            final(writer).wf(),
            final(writer)@ == old(writer)@.cleared(),
    {
        writer.clear_screen();
    }

    /// Shows the name and the version of the system.
    fn osinfo(writer: &mut Writer)
        requires
            old(writer).wf(),
        ensures
            final(writer).wf(),
            final(writer)@ == osinfo_screen(old(writer)@),
    {
        let art = r#"
        __  __                   _ _       _     _    ___  ____  
       |  \/  | ___   ___  _ __ | (_) __ _| |__ | |_ / _ \/ ___| 
       | |\/| |/ _ \ / _ \| '_ \| | |/ _` | '_ \| __| | | \___ \ 
       | |  | | (_) | (_) | | | | | | (_| | | | | |_| |_| |___) |
       |_|  |_|\___/ \___/|_| |_|_|_|\__, |_| |_|\__|\___/|____/ 
                                     |___/      
"#;

        writer.set_colors(Color::Cyan, Color::Black);
        writer.write_string(art);
        writer.reset_colors();
        writer.new_line();
        write_line(writer, "OS Name: MoonlightOS");
        write_line(writer, "OS Version: 1.0.0");
    }
}

/// Writes `text` and breaks the line.
fn write_line(writer: &mut Writer, text: &str)
    requires
        old(writer).wf(),
    ensures
        final(writer).wf(),
        final(writer)@ == with_line(old(writer)@, text.spec_bytes()),
{
    writer.write_string(text);
    writer.new_line();
}

} // verus!
