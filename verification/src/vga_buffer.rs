//! Text output on a character-cell screen of 25 rows and 80 columns.
//!
//! The [`Writer`] keeps the whole screen as plain cells. Text always goes to the
//! bottom row; a line feed, or a byte arriving at a full row, scrolls everything
//! up by one row. What the screen holds after an operation is stated over
//! [`Screen`], the mathematical model of a writer.
use vstd::prelude::*;
use vstd::string::StringSliceAdditionalSpecFns;
use vstd::utf8::encode_utf8;

verus! {

/// Number of text rows of the screen.
pub const BUFFER_HEIGHT: usize = 25;

/// Number of character cells in a row.
pub const BUFFER_WIDTH: usize = 80;

/// Number of character cells of the whole screen.
pub const BUFFER_CELLS: usize = 2000;

/// The byte shown in place of anything that is not printable ASCII.
pub const UNPRINTABLE: u8 = 0xfe;

/// The sixteen colours of the text mode.
#[derive(Debug, Clone, Copy, PartialEq, Eq, Structural)]
pub enum Color {
    Black,
    Blue,
    Green,
    Cyan,
    Red,
    Magenta,
    Brown,
    LightGray,
    DarkGray,
    LightBlue,
    LightGreen,
    LightCyan,
    LightRed,
    Pink,
    Yellow,
    White,
}

impl Color {
    /// The four-bit number of the colour.
    pub open spec fn spec_code(self) -> u8 {
        match self {
            Color::Black => 0,
            Color::Blue => 1,
            Color::Green => 2,
            Color::Cyan => 3,
            Color::Red => 4,
            Color::Magenta => 5,
            Color::Brown => 6,
            Color::LightGray => 7,
            Color::DarkGray => 8,
            Color::LightBlue => 9,
            Color::LightGreen => 10,
            Color::LightCyan => 11,
            Color::LightRed => 12,
            Color::Pink => 13,
            Color::Yellow => 14,
            Color::White => 15,
        }
    }

    /// The four-bit number of the colour.
    #[verifier::when_used_as_spec(spec_code)]
    pub fn code(self) -> (code: u8)
        ensures
            code == self.spec_code(),
            code < 16,
    {
        match self {
            Color::Black => 0,
            Color::Blue => 1,
            Color::Green => 2,
            Color::Cyan => 3,
            Color::Red => 4,
            Color::Magenta => 5,
            Color::Brown => 6,
            Color::LightGray => 7,
            Color::DarkGray => 8,
            Color::LightBlue => 9,
            Color::LightGreen => 10,
            Color::LightCyan => 11,
            Color::LightRed => 12,
            Color::Pink => 13,
            Color::Yellow => 14,
            Color::White => 15,
        }
    }
}

/// A foreground and a background colour packed into one attribute byte:
/// the background in the upper four bits, the foreground in the lower four.
#[derive(Debug, Clone, Copy, PartialEq, Eq, Structural)]
pub struct ColorCode(pub u8);

impl ColorCode {
    /// The attribute byte for the two colours.
    pub open spec fn spec_new(foreground: Color, background: Color) -> ColorCode {
        ColorCode((background.spec_code() * 16 + foreground.spec_code()) as u8)
    }

    /// Packs the two colours into an attribute byte.
    #[verifier::when_used_as_spec(spec_new)]
    pub fn new(foreground: Color, background: Color) -> (code: ColorCode)
        ensures
            code == ColorCode::spec_new(foreground, background),
            code.0 / 16 == background.spec_code(),
            code.0 % 16 == foreground.spec_code(),
    {
        let fg: u8 = foreground.code();
        let bg: u8 = background.code();
        assert((bg << 4 | fg) == bg * 16 + fg) by (bit_vector)
            requires
                fg < 16,
                bg < 16,
        ;
        ColorCode(bg << 4 | fg)
    }
}

/// One character cell: the byte shown and its colours.
#[derive(Debug, Clone, Copy, PartialEq, Eq, Structural)]
pub struct ScreenChar {
    pub ascii_character: u8,
    pub color_code: ColorCode,
}

/// The cell that an erased position holds under the given colours.
pub open spec fn blank(color_code: ColorCode) -> ScreenChar {
    ScreenChar { ascii_character: 0x20, color_code }
}

/// The byte that is shown for `byte`: printable ASCII and the line feed stand
/// for themselves, everything else for [`UNPRINTABLE`].
pub open spec fn displayed(byte: u8) -> u8 {
    if (0x20 <= byte && byte <= 0x7e) || byte == 0x0a {
        byte
    } else {
        UNPRINTABLE
    }
}

/// The mathematical model of a [`Writer`]: the cells in row-major order, the
/// column at which the next byte lands in the bottom row, and the colours in use.
pub struct Screen {
    pub cells: Seq<ScreenChar>,
    pub column: int,
    pub color_code: ColorCode,
}

impl Screen {
    /// The screen has all its cells and the column lies within a row or just
    /// behind its last cell.
    pub open spec fn wf(self) -> bool {
        &&& self.cells.len() == BUFFER_CELLS
        &&& 0 <= self.column <= BUFFER_WIDTH
    }

    /// The cell at a row and a column.
    pub open spec fn at(self, row: int, col: int) -> ScreenChar {
        self.cells[row * BUFFER_WIDTH + col]
    }

    /// The screen with one row overwritten by blanks.
    pub open spec fn clear_row(self, row: int) -> Screen {
        Screen {
            cells: Seq::new(
                self.cells.len(),
                |i: int|
                    if row * BUFFER_WIDTH <= i < (row + 1) * BUFFER_WIDTH {
                        blank(self.color_code)
                    } else {
                        self.cells[i]
                    },
            ),
            ..self
        }
    }

    /// The screen after a line feed: every row moves up by one, the top row is
    /// lost, the bottom row is blank and the column is back at the left edge.
    pub open spec fn new_line(self) -> Screen {
        Screen {
            cells: Seq::new(
                self.cells.len(),
                |i: int|
                    if i < BUFFER_CELLS - BUFFER_WIDTH {
                        self.cells[i + BUFFER_WIDTH]
                    } else {
                        blank(self.color_code)
                    },
            ),
            column: 0,
            color_code: self.color_code,
        }
    }

    /// The screen after one byte was written as it is.
    pub open spec fn write_byte(self, byte: u8) -> Screen {
        if byte == 0x0a {
            self.new_line()
        } else {
            let start = if self.column >= BUFFER_WIDTH {
                self.new_line()
            } else {
                self
            };
            Screen {
                cells: start.cells.update(
                    (BUFFER_HEIGHT - 1) * BUFFER_WIDTH + start.column,
                    ScreenChar { ascii_character: byte, color_code: start.color_code },
                ),
                column: start.column + 1,
                color_code: start.color_code,
            }
        }
    }

    /// The screen after a run of bytes was written, each as [`displayed`].
    pub open spec fn write_bytes(self, bytes: Seq<u8>) -> Screen
        decreases bytes.len(),
    {
        if bytes.len() == 0 {
            self
        } else {
            self.write_bytes(bytes.drop_last()).write_byte(displayed(bytes.last()))
        }
    }

    /// The screen after a text was written: the bytes of its UTF-8 encoding,
    /// each as [`displayed`].
    pub open spec fn print(self, text: Seq<char>) -> Screen {
        self.write_bytes(encode_utf8(text))
    }

    /// Writing keeps a screen well formed.
    pub proof fn lemma_write_byte_wf(self, byte: u8)
        requires
            self.wf(),
        ensures
            self.write_byte(byte).wf(),
            self.write_byte(byte).color_code == self.color_code,
    {
    }

    /// Writing a run of bytes keeps a screen well formed.
    pub proof fn lemma_write_bytes_wf(self, bytes: Seq<u8>)
        requires
            self.wf(),
        ensures
            self.write_bytes(bytes).wf(),
            self.write_bytes(bytes).color_code == self.color_code,
        decreases bytes.len(),
    {
        if bytes.len() > 0 {
            self.lemma_write_bytes_wf(bytes.drop_last());
            self.write_bytes(bytes.drop_last()).lemma_write_byte_wf(displayed(bytes.last()));
        }
    }

    /// Writing two runs one after the other is writing their concatenation.
    pub proof fn lemma_write_bytes_concat(self, first: Seq<u8>, second: Seq<u8>)
        ensures
            self.write_bytes(first).write_bytes(second) == self.write_bytes(first + second),
        decreases second.len(),
    {
        if second.len() == 0 {
            assert(first + second =~= first);
        } else {
            self.lemma_write_bytes_concat(first, second.drop_last());
            assert((first + second).drop_last() =~= first + second.drop_last());
            assert((first + second).last() == second.last());
        }
    }
}

/// The cells of the screen, row after row.
pub struct Buffer {
    chars: Vec<ScreenChar>,
}

/// Writes bytes and strings to the bottom row of a screen and scrolls it.
pub struct Writer {
    column_position: usize,
    color_code: ColorCode,
    buffer: Buffer,
}

impl View for Writer {
    type V = Screen;

    closed spec fn view(&self) -> Screen {
        Screen {
            cells: self.buffer.chars@,
            column: self.column_position as int,
            color_code: self.color_code,
        }
    }
}

impl Writer {
    /// The writer holds a whole screen and a column within it.
    pub open spec fn wf(&self) -> bool {
        self@.wf()
    }

    /// A writer over a blank screen, with the column at the left edge.
    pub fn new(color_code: ColorCode) -> (writer: Writer)
        ensures
            writer.wf(),
            writer@.column == 0,
            writer@.color_code == color_code,
            forall|i: int| 0 <= i < BUFFER_CELLS ==> writer@.cells[i] == blank(color_code),
    {
        let mut chars: Vec<ScreenChar> = Vec::new();
        let mut i: usize = 0;
        while i < BUFFER_CELLS
            invariant
                i <= BUFFER_CELLS,
                chars@.len() == i,
                forall|k: int| 0 <= k < i ==> chars@[k] == blank(color_code),
            decreases BUFFER_CELLS - i,
        {
            chars.push(ScreenChar { ascii_character: 0x20, color_code });
            i += 1;
        }
        Writer { column_position: 0, color_code, buffer: Buffer { chars } }
    }

    /// The column at which the next byte lands.
    pub fn column_position(&self) -> (column: usize)
        ensures
            column == self@.column,
    {
        self.column_position
    }

    /// The colours that the writer uses.
    pub fn color_code(&self) -> (color_code: ColorCode)
        ensures
            color_code == self@.color_code,
    {
        self.color_code
    }

    /// The cell at a row and a column.
    pub fn cell(&self, row: usize, col: usize) -> (cell: ScreenChar)
        requires
            self.wf(),
            row < BUFFER_HEIGHT,
            col < BUFFER_WIDTH,
        ensures
            cell == self@.at(row as int, col as int),
    {
        self.buffer.chars[row * BUFFER_WIDTH + col]
    }

    /// Writes one byte as it is: a line feed starts a new line, any other byte
    /// goes to the bottom row, after a new line if the row is full.
    pub fn write_byte(&mut self, byte: u8)
        requires
            old(self).wf(),
        ensures
            final(self).wf(),
            final(self)@ == old(self)@.write_byte(byte),
    {
        if byte == 0x0a {
            self.new_line();
        } else {
            if self.column_position >= BUFFER_WIDTH {
                self.new_line();
            }
            let row: usize = BUFFER_HEIGHT - 1;
            let col: usize = self.column_position;
            let color_code = self.color_code;
            self.buffer.chars.set(
                row * BUFFER_WIDTH + col,
                ScreenChar { ascii_character: byte, color_code },
            );
            self.column_position += 1;
        }
    }

    /// Writes a string byte by byte; whatever is not printable ASCII or a line
    /// feed is shown as [`UNPRINTABLE`].
    pub fn write_string(&mut self, s: &str)
        requires
            old(self).wf(),
        ensures
            final(self).wf(),
            final(self)@ == old(self)@.write_bytes(s.spec_bytes()),
            final(self)@ == old(self)@.print(s@),
    {
        let bytes = s.as_bytes();
        let mut i: usize = 0;
        while i < bytes.len()
            invariant
                i <= bytes@.len(),
                bytes@ == s.spec_bytes(),
                self.wf(),
                self@ == old(self)@.write_bytes(bytes@.subrange(0, i as int)),
            decreases bytes@.len() - i,
        {
            let byte: u8 = bytes[i];
            proof {
                assert(bytes@.subrange(0, i + 1).drop_last() =~= bytes@.subrange(0, i as int));
            }
            if (0x20 <= byte && byte <= 0x7e) || byte == 0x0a {
                self.write_byte(byte);
            } else {
                self.write_byte(UNPRINTABLE);
            }
            i += 1;
        }
        proof {
            assert(bytes@.subrange(0, i as int) =~= bytes@);
        }
    }

    /// Moves every row up by one, blanks the bottom row and returns the column
    /// to the left edge.
    fn new_line(&mut self)
        requires
            old(self).wf(),
        ensures
            final(self).wf(),
            final(self)@ == old(self)@.new_line(),
    {
        let mut row: usize = 1;
        while row < BUFFER_HEIGHT
            invariant
                1 <= row <= BUFFER_HEIGHT,
                self.buffer.chars@.len() == BUFFER_CELLS,
                self.column_position == old(self).column_position,
                self.color_code == old(self).color_code,
                forall|i: int|
                    0 <= i < (row - 1) * BUFFER_WIDTH ==> self.buffer.chars@[i] == old(
                        self,
                    ).buffer.chars@[i + BUFFER_WIDTH],
                forall|i: int|
                    (row - 1) * BUFFER_WIDTH <= i < BUFFER_CELLS ==> self.buffer.chars@[i] == old(
                        self,
                    ).buffer.chars@[i],
            decreases BUFFER_HEIGHT - row,
        {
            let mut col: usize = 0;
            while col < BUFFER_WIDTH
                invariant
                    1 <= row < BUFFER_HEIGHT,
                    col <= BUFFER_WIDTH,
                    self.buffer.chars@.len() == BUFFER_CELLS,
                    self.column_position == old(self).column_position,
                    self.color_code == old(self).color_code,
                    forall|i: int|
                        0 <= i < (row - 1) * BUFFER_WIDTH + col ==> self.buffer.chars@[i] == old(
                            self,
                        ).buffer.chars@[i + BUFFER_WIDTH],
                    forall|i: int|
                        (row - 1) * BUFFER_WIDTH + col <= i < BUFFER_CELLS
                            ==> self.buffer.chars@[i] == old(self).buffer.chars@[i],
                decreases BUFFER_WIDTH - col,
            {
                let character = self.buffer.chars[row * BUFFER_WIDTH + col];
                self.buffer.chars.set((row - 1) * BUFFER_WIDTH + col, character);
                col += 1;
            }
            row += 1;
        }
        self.clear_row(BUFFER_HEIGHT - 1);
        self.column_position = 0;
        assert(self@.cells =~= old(self)@.new_line().cells);
    }

    /// Overwrites one row with blanks.
    fn clear_row(&mut self, row: usize)
        requires
            old(self).buffer.chars@.len() == BUFFER_CELLS,
            row < BUFFER_HEIGHT,
        ensures
            final(self)@ == old(self)@.clear_row(row as int),
    {
        let blank = ScreenChar { ascii_character: 0x20, color_code: self.color_code };
        let mut col: usize = 0;
        while col < BUFFER_WIDTH
            invariant
                row < BUFFER_HEIGHT,
                col <= BUFFER_WIDTH,
                blank == self::blank(old(self).color_code),
                self.buffer.chars@.len() == BUFFER_CELLS,
                self.column_position == old(self).column_position,
                self.color_code == old(self).color_code,
                forall|i: int|
                    row * BUFFER_WIDTH <= i < row * BUFFER_WIDTH + col
                        ==> self.buffer.chars@[i] == blank,
                forall|i: int|
                    0 <= i < BUFFER_CELLS && !(row * BUFFER_WIDTH <= i < row * BUFFER_WIDTH + col)
                        ==> self.buffer.chars@[i] == old(self).buffer.chars@[i],
            decreases BUFFER_WIDTH - col,
        {
            self.buffer.chars.set(row * BUFFER_WIDTH + col, blank);
            col += 1;
        }
        assert(self@.cells =~= old(self)@.clear_row(row as int).cells);
    }
}

} // verus!
