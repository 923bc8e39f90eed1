//! The text screen: 25 rows of 80 cells, and the writer that fills them.
//!
//! The writer keeps the screen as a value. The kernel image copies the cells
//! to the display memory and puts the cursor where [`Writer::set_cursor_position`]
//! says.

use vstd::prelude::*;
use vstd::string::StringSliceAdditionalSpecFns;
use crate::port::{PortWrite, VGA_DATA_PORT, VGA_INDEX_PORT};

verus! {

/// The sixteen colors of the text mode.
#[allow(dead_code)]
#[derive(Clone, Copy, Debug, PartialEq, Eq, Structural)]
pub enum Color {
    Black,
    Blue,
    Green,
    Cyan,
    Red,
    Magenta,
    Brown,
    LightGray,
    DarkGray,
    LightBlue,
    LightGreen,
    LightCyan,
    Pink,
    LightMagenta,
    Yellow,
    White,
}

impl Color {
    /// The number of the color, 0 to 15.
    pub open spec fn number(self) -> u8 {
        match self {
            Color::Black => 0,
            Color::Blue => 1,
            Color::Green => 2,
            Color::Cyan => 3,
            Color::Red => 4,
            Color::Magenta => 5,
            Color::Brown => 6,
            Color::LightGray => 7,
            Color::DarkGray => 8,
            Color::LightBlue => 9,
            Color::LightGreen => 10,
            Color::LightCyan => 11,
            Color::Pink => 12,
            Color::LightMagenta => 13,
            Color::Yellow => 14,
            Color::White => 15,
        }
    }

    /// The number of the color, 0 to 15.
    pub fn code(&self) -> (number: u8)
        ensures
            number == self.number(),
            number <= 15,
    {
        match self {
            Color::Black => 0,
            Color::Blue => 1,
            Color::Green => 2,
            Color::Cyan => 3,
            Color::Red => 4,
            Color::Magenta => 5,
            Color::Brown => 6,
            Color::LightGray => 7,
            Color::DarkGray => 8,
            Color::LightBlue => 9,
            Color::LightGreen => 10,
            Color::LightCyan => 11,
            Color::Pink => 12,
            Color::LightMagenta => 13,
            Color::Yellow => 14,
            Color::White => 15,
        }
    }
}

/// The color byte of a cell: the foreground color in the low four bits, the
/// background color in the next three, and the blink bit on top.
#[derive(Debug, Clone, Copy, PartialEq, Eq, Structural)]
pub struct ColorCode(pub u8);

impl ColorCode {
    /// The color byte of `foreground` on `background`.
    pub open spec fn of(foreground: Color, background: Color) -> ColorCode {
        ColorCode((background.number() << 4) | foreground.number())
    }

    /// The color byte of `foreground` on `background`.
    pub fn new(foreground: Color, background: Color) -> (code: ColorCode)
        ensures
            code == ColorCode::of(foreground, background),
    {
        ColorCode((background.code() << 4) | foreground.code())
    }
}

/// One cell of the screen: a character and its colors.
#[derive(Debug, Clone, Copy, PartialEq, Eq, Structural)]
pub struct ScreenChar {
    pub ascii_char: u8,
    pub color_code: ColorCode,
}

/// Rows of the screen.
pub const BUFFER_HEIGHT: usize = 25;

/// Cells in a row.
pub const BUFFER_WIDTH: usize = 80;

/// Cells of the screen.
pub const BUFFER_CELLS: usize = 2000;

/// The byte that stands for a character which the screen cannot show.
pub const UNPRINTABLE: u8 = 0xfe;

/// An empty cell.
pub open spec fn null_char() -> ScreenChar {
    ScreenChar { ascii_char: 0, color_code: ColorCode(15) }
}

/// The colors that the writer goes back to: white on black.
pub open spec fn default_colors() -> ColorCode {
    ColorCode(15)
}

/// The screen and the place of the next character.
pub ghost struct Screen {
    /// The cells, row after row.
    pub cells: Seq<ScreenChar>,
    /// The row of the next character.
    pub row: int,
    /// The column of the next character; 80 when the row is full.
    pub column: int,
    /// The colors of the next character.
    pub color: ColorCode,
}

impl Screen {
    /// All cells are there and the next character has a place.
    pub open spec fn wf(self) -> bool {
        &&& self.cells.len() == BUFFER_CELLS
        &&& 0 <= self.row < BUFFER_HEIGHT
        &&& 0 <= self.column <= BUFFER_WIDTH
    }

    /// The cell in `row` and `column`.
    pub open spec fn cell(self, row: int, column: int) -> ScreenChar {
        self.cells[row * BUFFER_WIDTH + column]
    }

    /// The index of the cell under the cursor.
    pub open spec fn cursor_index(self) -> int {
        self.row * BUFFER_WIDTH + self.column
    }

    /// The screen with `row` emptied.
    pub open spec fn row_cleared(self, row: int) -> Screen {
        Screen {
            cells: Seq::new(
                self.cells.len(),
                |i: int|
                    if row * BUFFER_WIDTH <= i < (row + 1) * BUFFER_WIDTH {
                        null_char()
                    } else {
                        self.cells[i]
                    },
            ),
            ..self
        }
    }

    /// The screen one row further up: the first row is gone, the last row is
    /// empty, and the next character has moved up with its row.
    pub open spec fn scrolled(self) -> Screen {
        Screen {
            cells: Seq::new(
                self.cells.len(),
                |i: int|
                    if i < (BUFFER_HEIGHT - 1) * BUFFER_WIDTH {
                        self.cells[i + BUFFER_WIDTH]
                    } else {
                        null_char()
                    },
            ),
            row: self.row - 1,
            ..self
        }
    }

    /// The screen after a line break: the next character starts the next row,
    /// and the screen scrolls when there is no next row.
    pub open spec fn line_broken(self) -> Screen {
        let moved = Screen { row: self.row + 1, column: 0, ..self };
        if moved.row >= BUFFER_HEIGHT {
            moved.scrolled()
        } else {
            moved
        }
    }

    /// The screen after one byte is put on it as it is: in the next cell, after
    /// a line break if the row is full.
    pub open spec fn put(self, byte: u8) -> Screen {
        let at = if self.column >= BUFFER_WIDTH {
            self.line_broken()
        } else {
            self
        };
        Screen {
            cells: at.cells.update(
                at.cursor_index(),
                ScreenChar { ascii_char: byte, color_code: at.color },
            ),
            column: at.column + 1,
            ..at
        }
    }

    /// The screen after one byte of a string: a printable byte is put on it, a
    /// line feed breaks the line, any other byte shows as a block.
    pub open spec fn written(self, byte: u8) -> Screen {
        if 0x20 <= byte <= 0x7e {
            self.put(byte)
        } else if byte == 0x0a {
            self.line_broken()
        } else {
            self.put(UNPRINTABLE)
        }
    }

    /// The screen after the bytes of a string, first to last.
    pub open spec fn written_all(self, bytes: Seq<u8>) -> Screen
        decreases bytes.len(),
    {
        if bytes.len() == 0 {
            self
        } else {
            self.written_all(bytes.drop_last()).written(bytes.last())
        }
    }

    /// The screen with the last character of the row taken back. At the start
    /// of a row there is nothing to take back.
    pub open spec fn erased(self) -> Screen {
        if self.column == 0 {
            self
        } else {
            Screen {
                cells: self.cells.update(self.cursor_index() - 1, null_char()),
                column: self.column - 1,
                ..self
            }
        }
    }

    /// The empty screen, with the next character in the top left corner.
    pub open spec fn cleared(self) -> Screen {
        Screen {
            cells: Seq::new(self.cells.len(), |i: int| null_char()),
            row: 0,
            column: 0,
            ..self
        }
    }

    /// A line break leaves the screen in order.
    pub proof fn lemma_line_broken_wf(self)
        requires
            self.wf(),
        ensures
            self.line_broken().wf(),
            self.line_broken().column == 0,
            self.line_broken().color == self.color,
    {
    }

    /// A byte leaves the screen in order.
    pub proof fn lemma_written_wf(self, byte: u8)
        requires
            self.wf(),
        ensures
            self.written(byte).wf(),
            self.put(byte).wf(),
            self.written(byte).color == self.color,
    {
        self.lemma_line_broken_wf();
    }

    /// A string leaves the screen in order and the colors as they are.
    pub proof fn lemma_written_all_wf(self, bytes: Seq<u8>)
        requires
            self.wf(),
        ensures
            self.written_all(bytes).wf(),
            self.written_all(bytes).color == self.color,
        decreases bytes.len(),
    {
        if bytes.len() > 0 {
            self.lemma_written_all_wf(bytes.drop_last());
            self.written_all(bytes.drop_last()).lemma_written_wf(bytes.last());
        }
    }
}

/// Writes characters to the screen and keeps track of where the next one goes.
pub struct Writer {
    row_position: usize,
    column_position: usize,
    color_code: ColorCode,
    buffer: [ScreenChar; 2000],
}

impl View for Writer {
    type V = Screen;

    closed spec fn view(&self) -> Screen {
        Screen {
            cells: self.buffer@,
            row: self.row_position as int,
            column: self.column_position as int,
            color: self.color_code,
        }
    }
}

impl Writer {
    /// The writer is in order when its screen is.
    pub open spec fn wf(&self) -> bool {
        self@.wf()
    }

    /// A writer on an empty screen, light gray on black, with the next
    /// character in the top left corner.
    pub fn new() -> (writer: Writer)
        ensures
            writer.wf(),
            writer@.row == 0,
            writer@.column == 0,
            writer@.color == ColorCode::of(Color::LightGray, Color::Black),
            forall|i: int| 0 <= i < BUFFER_CELLS ==> writer@.cells[i] == null_char(),
    {
        Writer {
            row_position: 0,
            column_position: 0,
            color_code: ColorCode::new(Color::LightGray, Color::Black),
            buffer: [ScreenChar { ascii_char: 0, color_code: ColorCode(15) };2000],
        }
    }

    /// The row of the next character.
    pub fn row_position(&self) -> (row: usize)
        ensures
            row == self@.row,
    {
        self.row_position
    }

    /// The column of the next character.
    pub fn column_position(&self) -> (column: usize)
        ensures
            column == self@.column,
    {
        self.column_position
    }

    /// The colors of the next character.
    pub fn color_code(&self) -> (color: ColorCode)
        ensures
            color == self@.color,
    {
        self.color_code
    }

    /// The cell in `row` and `column`.
    pub fn char_at(&self, row: usize, column: usize) -> (cell: ScreenChar)
        requires
            row < BUFFER_HEIGHT,
            column < BUFFER_WIDTH,
        ensures
            cell == self@.cell(row as int, column as int),
    {
        self.buffer[row * BUFFER_WIDTH + column]
    }

    /// The cells of the screen, row after row.
    pub fn cells(&self) -> (cells: &[ScreenChar; 2000])
        ensures
            cells@ == self@.cells,
    {
        &self.buffer
    }

    /// Puts one byte on the screen as it is.
    pub fn write_byte(&mut self, byte: u8)
        requires
            old(self).wf(),
        ensures
            final(self).wf(),
            final(self)@ == old(self)@.put(byte),
    {
        if self.column_position >= BUFFER_WIDTH {
            self.new_line();
        }
        let row = self.row_position;
        let col = self.column_position;

        self.buffer[row * BUFFER_WIDTH + col] = ScreenChar {
            ascii_char: byte,
            color_code: self.color_code,
        };

        self.column_position += 1;
    }

    /// Puts the low byte of a character on the screen.
    pub fn write_char(&mut self, c: char)
        requires
            old(self).wf(),
        ensures
            final(self).wf(),
            final(self)@ == old(self)@.put(c as u8),
    {
        self.write_byte(#[verifier::truncate] (c as u8));
    }

    /// Writes a string: printable bytes as they are, a line feed as a line
    /// break, and a block for every other byte.
    pub fn write_string(&mut self, s: &str)
        requires
            old(self).wf(),
        ensures
            final(self).wf(),
            final(self)@ == old(self)@.written_all(s.spec_bytes()),
    {
        let bytes = s.as_bytes();
        let mut i: usize = 0;
        while i < bytes.len()
            invariant
                i <= bytes.len(),
                bytes@ == s.spec_bytes(),
                self.wf(),
                self@ == old(self)@.written_all(bytes@.subrange(0, i as int)),
            decreases bytes.len() - i,
        {
            let byte = bytes[i];
            proof {
                let before = bytes@.subrange(0, i as int);
                let now = bytes@.subrange(0, i + 1);
                assert(now.drop_last() =~= before);
                self@.lemma_written_wf(byte);
            }
            if 0x20 <= byte && byte <= 0x7e {
                self.write_byte(byte);
            } else if byte == 0x0a {
                self.new_line();
            } else {
                self.write_byte(UNPRINTABLE);
            }
            i += 1;
        }
        assert(bytes@.subrange(0, i as int) =~= bytes@);
    }

    /// Moves every row one row up and empties the last one.
    pub fn scroll(&mut self)
        requires
            old(self)@.cells.len() == BUFFER_CELLS,
            old(self)@.row >= 1,
        ensures
            final(self)@ == old(self)@.scrolled(),
    {
        let mut i: usize = BUFFER_WIDTH;
        while i < BUFFER_CELLS
            invariant
                BUFFER_WIDTH <= i <= BUFFER_CELLS,
                self.row_position == old(self).row_position,
                self.column_position == old(self).column_position,
                self.color_code == old(self).color_code,
                forall|j: int|
                    0 <= j < i - BUFFER_WIDTH ==> self.buffer@[j] == old(self).buffer@[j
                        + BUFFER_WIDTH],
                forall|j: int|
                    i - BUFFER_WIDTH <= j < BUFFER_CELLS ==> self.buffer@[j] == old(
                        self,
                    ).buffer@[j],
            decreases BUFFER_CELLS - i,
        {
            let character = self.buffer[i];
            self.buffer[i - BUFFER_WIDTH] = character;
            i += 1;
        }
        self.clear_row(BUFFER_HEIGHT - 1);
        self.row_position -= 1;
        assert(self@.cells =~= old(self)@.scrolled().cells);
    }

    /// Breaks the line.
    pub fn new_line(&mut self)
        requires
            old(self).wf(),
        ensures
            final(self).wf(),
            final(self)@ == old(self)@.line_broken(),
    {
        self.row_position += 1;
        self.column_position = 0;

        if self.row_position >= BUFFER_HEIGHT {
            self.scroll();
        }
    }

    /// Takes back the last character of the row, if there is one.
    pub fn backspace(&mut self)
        requires
            old(self).wf(),
        ensures
            final(self).wf(),
            final(self)@ == old(self)@.erased(),
    {
        if self.column_position == 0 {
            return ;
        }
        self.column_position -= 1;
        let row = self.row_position;
        let col = self.column_position;
        self.buffer[row * BUFFER_WIDTH + col] = ScreenChar {
            ascii_char: 0,
            color_code: ColorCode(15),
        };
    }

    /// Empties one row.
    fn clear_row(&mut self, row: usize)
        requires
            row < BUFFER_HEIGHT,
            old(self)@.cells.len() == BUFFER_CELLS,
        ensures
            final(self)@ == old(self)@.row_cleared(row as int),
    {
        let mut col: usize = 0;
        while col < BUFFER_WIDTH
            invariant
                col <= BUFFER_WIDTH,
                row < BUFFER_HEIGHT,
                self.row_position == old(self).row_position,
                self.column_position == old(self).column_position,
                self.color_code == old(self).color_code,
                forall|j: int|
                    0 <= j < BUFFER_CELLS ==> self.buffer@[j] == if row * BUFFER_WIDTH <= j < row
                        * BUFFER_WIDTH + col {
                        null_char()
                    } else {
                        old(self).buffer@[j]
                    },
            decreases BUFFER_WIDTH - col,
        {
            self.buffer[row * BUFFER_WIDTH + col] = ScreenChar {
                ascii_char: 0,
                color_code: ColorCode(15),
            };
            col += 1;
        }
        assert(self@.cells =~= old(self)@.row_cleared(row as int).cells);
    }

    /// Empties the screen and goes back to the top left corner.
    pub fn clear_screen(&mut self)
        requires
            old(self)@.cells.len() == BUFFER_CELLS,
        ensures
            final(self).wf(),
            final(self)@ == old(self)@.cleared(),
    {
        let mut row: usize = 0;
        while row < BUFFER_HEIGHT
            invariant
                row <= BUFFER_HEIGHT,
                self.row_position == old(self).row_position,
                self.column_position == old(self).column_position,
                self.color_code == old(self).color_code,
                forall|j: int|
                    0 <= j < BUFFER_CELLS ==> self.buffer@[j] == if j < row * BUFFER_WIDTH {
                        null_char()
                    } else {
                        old(self).buffer@[j]
                    },
            decreases BUFFER_HEIGHT - row,
        {
            self.clear_row(row);
            row += 1;
        }
        self.row_position = 0;
        self.column_position = 0;
        assert(self@.cells =~= old(self)@.cleared().cells);
    }

    /// What puts the blinking cursor under the next character: the low byte
    /// of its cell index to register 0x0f of the display controller, the high
    /// byte to register 0x0e.
    ///
    /// Reference: <https://wiki.osdev.org/Text_Mode_Cursor#Moving_the_Cursor_2>
    pub fn set_cursor_position(&self) -> (writes: [PortWrite; 4])
        requires
            self.wf(),
        ensures
            writes@ == seq![
                PortWrite { port: VGA_INDEX_PORT, value: 0x0f },
                PortWrite { port: VGA_DATA_PORT, value: (self@.cursor_index() % 256) as u8 },
                PortWrite { port: VGA_INDEX_PORT, value: 0x0e },
                PortWrite { port: VGA_DATA_PORT, value: (self@.cursor_index() / 256) as u8 },
            ],
    {
        let index: usize = self.row_position * BUFFER_WIDTH + self.column_position;
        let low: u8 = (index % 256) as u8;
        let high: u8 = (index / 256) as u8;
        let writes: [PortWrite; 4] = [
            PortWrite { port: VGA_INDEX_PORT, value: 0x0f },
            PortWrite { port: VGA_DATA_PORT, value: low },
            PortWrite { port: VGA_INDEX_PORT, value: 0x0e },
            PortWrite { port: VGA_DATA_PORT, value: high },
        ];
        assert(writes@ =~= seq![
            PortWrite { port: VGA_INDEX_PORT, value: 0x0f },
            PortWrite { port: VGA_DATA_PORT, value: (self@.cursor_index() % 256) as u8 },
            PortWrite { port: VGA_INDEX_PORT, value: 0x0e },
            PortWrite { port: VGA_DATA_PORT, value: (self@.cursor_index() / 256) as u8 },
        ]);
        writes
    }

    /// Sets the colors of the characters to come.
    pub fn set_colors(&mut self, foreground: Color, background: Color)
        ensures
            final(self)@ == (Screen { color: ColorCode::of(foreground, background), ..old(self)@ }),
    {
        self.color_code = ColorCode::new(foreground, background);
    }

    /// Goes back to white on black.
    pub fn reset_colors(&mut self)
        ensures
            final(self)@ == (Screen {
                color: ColorCode::of(Color::White, Color::Black),
                ..old(self)@
            }),
    {
        self.set_colors(Color::White, Color::Black);
    }
}

} // verus!
