//! The VGA text console: a 25 x 80 grid of character cells that scrolls.
//!
//! Every cell of the hardware buffer is one 16-bit word, the character code in
//! its low byte and the colour attribute in its high byte. The writer reaches
//! the cells through volatile reads and writes, and its behaviour is stated
//! over the [`Screen`] it displays.

use vstd::prelude::*;
use vstd::string::StringSliceAdditionalSpecFns;
use volatile::Volatile;

verus! {

/// The number of text rows.
pub const BUFFER_HEIGHT: usize = 25;

/// The number of text columns.
pub const BUFFER_WIDTH: usize = 80;

/// The cell that stands for a byte that cannot be shown.
pub const UNPRINTABLE: u8 = 0xfe;

/// The colours of the VGA text mode.
#[derive(Debug, Clone, Copy, PartialEq, Eq, Structural)]
pub enum Color {
    Black,
    Blue,
    Green,
    Cyan,
    Red,
    Magenta,
    Brown,
    LightGray,
    DarkGray,
    LightBlue,
    LightGreen,
    LightCyan,
    LightRed,
    Pink,
    Yellow,
    White,
}

impl Color {
    /// The four-bit number the hardware knows the colour by.
    pub open spec fn number(self) -> u8 {
        match self {
            Color::Black => 0,
            Color::Blue => 1,
            Color::Green => 2,
            Color::Cyan => 3,
            Color::Red => 4,
            Color::Magenta => 5,
            Color::Brown => 6,
            Color::LightGray => 7,
            Color::DarkGray => 8,
            Color::LightBlue => 9,
            Color::LightGreen => 10,
            Color::LightCyan => 11,
            Color::LightRed => 12,
            Color::Pink => 13,
            Color::Yellow => 14,
            Color::White => 15,
        }
    }

    /// The colour's hardware number.
    pub fn to_u8(self) -> (n: u8)
        ensures
            n == self.number(),
            n < 16,
    {
        match self {
            Color::Black => 0,
            Color::Blue => 1,
            Color::Green => 2,
            Color::Cyan => 3,
            Color::Red => 4,
            Color::Magenta => 5,
            Color::Brown => 6,
            Color::LightGray => 7,
            Color::DarkGray => 8,
            Color::LightBlue => 9,
            Color::LightGreen => 10,
            Color::LightCyan => 11,
            Color::LightRed => 12,
            Color::Pink => 13,
            Color::Yellow => 14,
            Color::White => 15,
        }
    }
}

/// A foreground and a background colour in one attribute byte.
#[derive(Debug, Clone, Copy, PartialEq, Eq, Structural)]
pub struct ColorCode(pub u8);

impl ColorCode {
    /// The attribute byte: the background in the high four bits, the
    /// foreground in the low four.
    pub open spec fn attribute(foreground: Color, background: Color) -> u8 {
        (background.number() * 16 + foreground.number()) as u8
    }

    /// The attribute byte of `foreground` on `background`.
    pub fn new(foreground: Color, background: Color) -> (code: ColorCode)
        ensures
            code.0 == Self::attribute(foreground, background),
    {
        let high: u8 = background.to_u8();
        let low: u8 = foreground.to_u8();
        assert((high << 4) | low == high * 16 + low) by (bit_vector)
            requires
                high < 16,
                low < 16,
        ;
        ColorCode((high << 4) | low)
    }
}

/// What one cell of the screen shows.
#[derive(Debug, Clone, Copy, PartialEq, Eq, Structural)]
pub struct ScreenChar {
    pub ascii_character: u8,
    pub color_code: ColorCode,
}

impl ScreenChar {
    /// The 16-bit word that the hardware holds for this cell.
    pub open spec fn word(self) -> u16 {
        (self.color_code.0 * 256 + self.ascii_character) as u16
    }

    /// The cell that a 16-bit word of the hardware buffer shows.
    pub open spec fn of_word(word: u16) -> ScreenChar {
        ScreenChar { ascii_character: (word % 256) as u8, color_code: ColorCode((word / 256) as u8) }
    }

    /// The 16-bit word that the hardware holds for this cell.
    pub fn encode(self) -> (word: u16)
        ensures
            word == self.word(),
            ScreenChar::of_word(word) == self,
    {
        let low: u8 = self.ascii_character;
        let high: u8 = self.color_code.0;
        assert(((high as u16) << 8) | (low as u16) == high * 256 + low) by (bit_vector);
        ((high as u16) << 8) | (low as u16)
    }

    /// The cell that a 16-bit word of the hardware buffer shows.
    pub fn decode(word: u16) -> (shown: ScreenChar)
        ensures
            shown == ScreenChar::of_word(word),
            shown.word() == word,
    {
        assert((word & 0xff) == word % 256 && (word >> 8) == word / 256) by (bit_vector);
        ScreenChar { ascii_character: (word & 0xff) as u8, color_code: ColorCode((word >> 8) as u8) }
    }
}

/// The cells of the hardware text buffer, row by row.
pub type Cells = [[Volatile<u16>; BUFFER_WIDTH]; BUFFER_HEIGHT];

/// The word that a volatile cell holds: what `Volatile::read` returns, and
/// what the last `Volatile::write` stored.
pub uninterp spec fn cell_value(cell: Volatile<u16>) -> u16;

/// `volatile::Volatile`, of which the verifier knows the name only.
#[verifier::external_type_specification]
#[verifier::external_body]
#[verifier::reject_recursive_types(T)]
pub struct ExVolatile<T: Copy>(Volatile<T>);

/// `Volatile::read`: a volatile load of the cell's word, which leaves the
/// cell as it is.
#[verifier::external_body]
fn cell_read(cell: &Volatile<u16>) -> (word: u16)
    ensures
        word == cell_value(*cell),
{
    cell.read()
}

/// `Volatile::write`: a volatile store, after which the cell holds `word`.
#[verifier::external_body]
fn cell_write(cell: &mut Volatile<u16>, word: u16)
    ensures
        cell_value(*final(cell)) == word,
{
    cell.write(word)
}

/// What the hardware buffer shows, cell by cell.
pub open spec fn shown(cells: Cells) -> Seq<Seq<ScreenChar>> {
    Seq::new(
        BUFFER_HEIGHT as nat,
        |row: int|
            Seq::new(
                BUFFER_WIDTH as nat,
                |col: int| ScreenChar::of_word(cell_value(cells[row][col])),
            ),
    )
}

/// The byte that the console shows for `byte`: printable ASCII and the
/// newline stand for themselves, every other byte for [`UNPRINTABLE`].
pub open spec fn displayed(byte: u8) -> u8 {
    if (0x20 <= byte <= 0x7e) || byte == 0x0a {
        byte
    } else {
        UNPRINTABLE
    }
}

/// The console as a mathematical value: the grid of cells, the column at
/// which the next character goes, and the colour it is written in.
pub struct Screen {
    pub column: nat,
    pub color: ColorCode,
    pub rows: Seq<Seq<ScreenChar>>,
}

impl Screen {
    /// Whether the screen is a full grid of [`BUFFER_HEIGHT`] rows and
    /// [`BUFFER_WIDTH`] columns.
    pub open spec fn wf(self) -> bool {
        &&& self.rows.len() == BUFFER_HEIGHT
        &&& forall|row: int| 0 <= row < BUFFER_HEIGHT ==> (#[trigger] self.rows[row]).len() == BUFFER_WIDTH
    }

    /// A blank in the screen's colour.
    pub open spec fn blank(self) -> ScreenChar {
        ScreenChar { ascii_character: 0x20, color_code: self.color }
    }

    /// A row of blanks.
    pub open spec fn blank_row(self) -> Seq<ScreenChar> {
        Seq::new(BUFFER_WIDTH as nat, |col: int| self.blank())
    }

    /// The screen with one row blanked.
    pub open spec fn clear_row(self, row: int) -> Screen {
        Screen { rows: self.rows.update(row, self.blank_row()), ..self }
    }

    /// The screen scrolled up by one row: the top row is lost, the bottom row
    /// is blank, and writing goes on at its first column.
    pub open spec fn new_line(self) -> Screen {
        Screen {
            column: 0,
            color: self.color,
            rows: Seq::new(
                BUFFER_HEIGHT as nat,
                |row: int|
                    if row < BUFFER_HEIGHT - 1 {
                        self.rows[row + 1]
                    } else {
                        self.blank_row()
                    },
            ),
        }
    }

    /// The screen with `byte` put at the current column of the bottom row.
    pub open spec fn put(self, byte: u8) -> Screen {
        let last = BUFFER_HEIGHT - 1;
        let shown = ScreenChar { ascii_character: byte, color_code: self.color };
        Screen {
            column: self.column + 1,
            color: self.color,
            rows: self.rows.update(last, self.rows[last].update(self.column as int, shown)),
        }
    }

    /// The screen after one byte is written: a newline scrolls, any other
    /// byte is put on the bottom row, after a scroll if that row is full.
    pub open spec fn write_byte(self, byte: u8) -> Screen {
        if byte == 0x0a {
            self.new_line()
        } else if self.column >= BUFFER_WIDTH {
            self.new_line().put(byte)
        } else {
            self.put(byte)
        }
    }

    /// The screen after the bytes of a text are written in turn, each as the
    /// byte that is [`displayed`] for it.
    pub open spec fn write_bytes(self, bytes: Seq<u8>) -> Screen
        decreases bytes.len(),
    {
        if bytes.len() == 0 {
            self
        } else {
            self.write_bytes(bytes.drop_last()).write_byte(displayed(bytes.last()))
        }
    }
}

/// Writes bytes and strings to the text buffer, wrapping lines at
/// [`BUFFER_WIDTH`] and scrolling at the bottom row.
pub struct Writer {
    column_position: usize,
    color_code: ColorCode,
    buffer: &'static mut Cells,
}

impl View for Writer {
    type V = Screen;

    closed spec fn view(&self) -> Screen {
        Screen {
            column: self.column_position as nat,
            color: self.color_code,
            rows: shown(*self.buffer),
        }
    }
}

impl Writer {
    /// What a writer displays is a full grid.
    pub proof fn lemma_full_grid(self)
        ensures
            self@.wf(),
    {
    }

    /// A writer on `buffer` that starts at the first column of the bottom row
    /// and leaves what the buffer shows as it is.
    pub fn new(buffer: &'static mut Cells, color_code: ColorCode) -> (writer: Writer)
        ensures
            writer@ == (Screen { column: 0, color: color_code, rows: shown(*old(buffer)) }),
            writer@.wf(),
    {
        Writer { column_position: 0, color_code, buffer }
    }

    /// The column at which the next character goes.
    pub fn column_position(&self) -> (column: usize)
        ensures
            column == self@.column,
    {
        self.column_position
    }

    /// Overwrites one row with blanks in the writer's colour.
    pub fn clear_row(&mut self, row: usize)
        requires
            row < BUFFER_HEIGHT,
        ensures
            final(self)@ == old(self)@.clear_row(row as int),
            old(self)@.wf() && final(self)@.wf(),
    {
        let blank: u16 = ScreenChar { ascii_character: 0x20, color_code: self.color_code }.encode();
        let mut col: usize = 0;
        while col < BUFFER_WIDTH
            invariant
                row < BUFFER_HEIGHT,
                col <= BUFFER_WIDTH,
                self.column_position == old(self).column_position,
                self.color_code == old(self).color_code,
                ScreenChar::of_word(blank) == old(self)@.blank(),
                forall|r: int, c: int|
                    0 <= r < BUFFER_HEIGHT && 0 <= c < BUFFER_WIDTH && r != row
                        ==> (#[trigger] self.buffer[r][c]) == old(self).buffer[r][c],
                forall|c: int|
                    0 <= c < col ==> cell_value(#[trigger] self.buffer[row as int][c]) == blank,
                forall|c: int|
                    col <= c < BUFFER_WIDTH ==> (#[trigger] self.buffer[row as int][c]) == old(
                        self,
                    ).buffer[row as int][c],
            decreases BUFFER_WIDTH - col,
        {
            cell_write(&mut self.buffer[row][col], blank);
            col += 1;
        }
        assert(self@.rows =~~= old(self)@.clear_row(row as int).rows);
    }

    /// Moves every row up by one, blanks the bottom row and goes back to its
    /// first column.
    pub fn new_line(&mut self)
        ensures
            final(self)@ == old(self)@.new_line(),
            old(self)@.wf() && final(self)@.wf(),
    {
        let mut row: usize = 1;
        while row < BUFFER_HEIGHT
            invariant
                1 <= row <= BUFFER_HEIGHT,
                self.column_position == old(self).column_position,
                self.color_code == old(self).color_code,
                forall|r: int, c: int|
                    0 <= r < row - 1 && 0 <= c < BUFFER_WIDTH ==> cell_value(
                        #[trigger] self.buffer[r][c],
                    ) == cell_value(old(self).buffer[r + 1][c]),
                forall|r: int, c: int|
                    row - 1 <= r < BUFFER_HEIGHT && 0 <= c < BUFFER_WIDTH ==> (
                    #[trigger] self.buffer[r][c]) == old(self).buffer[r][c],
            decreases BUFFER_HEIGHT - row,
        {
            let mut col: usize = 0;
            while col < BUFFER_WIDTH
                invariant
                    1 <= row < BUFFER_HEIGHT,
                    col <= BUFFER_WIDTH,
                    self.column_position == old(self).column_position,
                    self.color_code == old(self).color_code,
                    forall|r: int, c: int|
                        0 <= r < row - 1 && 0 <= c < BUFFER_WIDTH ==> cell_value(
                            #[trigger] self.buffer[r][c],
                        ) == cell_value(old(self).buffer[r + 1][c]),
                    forall|c: int|
                        0 <= c < col ==> cell_value(#[trigger] self.buffer[row - 1][c])
                            == cell_value(old(self).buffer[row as int][c]),
                    forall|c: int|
                        col <= c < BUFFER_WIDTH ==> (#[trigger] self.buffer[row - 1][c]) == old(
                            self,
                        ).buffer[row - 1][c],
                    forall|r: int, c: int|
                        row <= r < BUFFER_HEIGHT && 0 <= c < BUFFER_WIDTH ==> (
                        #[trigger] self.buffer[r][c]) == old(self).buffer[r][c],
                decreases BUFFER_WIDTH - col,
            {
                let character: u16 = cell_read(&self.buffer[row][col]);
                cell_write(&mut self.buffer[row - 1][col], character);
                col += 1;
            }
            row += 1;
        }
        let ghost scrolled = self@;
        assert forall|r: int, c: int|
            0 <= r < BUFFER_HEIGHT - 1 && 0 <= c < BUFFER_WIDTH implies scrolled.rows[r][c] == old(
            self,
        )@.rows[r + 1][c] by {
            assert(cell_value(self.buffer[r][c]) == cell_value(old(self).buffer[r + 1][c]));
        }
        self.clear_row(BUFFER_HEIGHT - 1);
        self.column_position = 0;
        assert(self@.rows =~~= old(self)@.new_line().rows);
    }

    /// Writes one byte at the current column of the bottom row and moves one
    /// column on. A newline scrolls instead, and so does a byte that finds
    /// the row full, before it is written.
    pub fn write_byte(&mut self, byte: u8)
        ensures
            final(self)@ == old(self)@.write_byte(byte),
            old(self)@.wf() && final(self)@.wf(),
    {
        if byte == 0x0a {
            self.new_line();
        } else {
            if self.column_position >= BUFFER_WIDTH {
                self.new_line();
            }
            let row: usize = BUFFER_HEIGHT - 1;
            let col: usize = self.column_position;
            let color_code = self.color_code;
            let ghost before = self@;
            let word: u16 = ScreenChar { ascii_character: byte, color_code }.encode();
            cell_write(&mut self.buffer[row][col], word);
            self.column_position += 1;
            assert(self@.rows =~~= before.put(byte).rows);
        }
    }

    /// Writes the bytes of `s` in turn. A byte that is neither printable
    /// ASCII nor a newline is written as [`UNPRINTABLE`].
    pub fn write_string(&mut self, s: &str)
        ensures
            final(self)@ == old(self)@.write_bytes(s.spec_bytes()),
            old(self)@.wf() && final(self)@.wf(),
    {
        let bytes = s.as_bytes();
        let mut index: usize = 0;
        while index < bytes.len()
            invariant
                index <= bytes.len(),
                bytes@ == s.spec_bytes(),
                self@ == old(self)@.write_bytes(bytes@.take(index as int)),
            decreases bytes.len() - index,
        {
            let byte: u8 = bytes[index];
            assert(bytes@.take(index + 1).drop_last() =~= bytes@.take(index as int));
            if (0x20 <= byte && byte <= 0x7e) || byte == 0x0a {
                self.write_byte(byte);
            } else {
                self.write_byte(UNPRINTABLE);
            }
            index += 1;
        }
        assert(bytes@.take(index as int) =~= bytes@);
    }

    /// What the cell at `row` and `col` shows, if there is such a cell.
    pub fn char_at(&self, row: usize, col: usize) -> (shown: Option<ScreenChar>)
        ensures
            shown is Some <==> row < BUFFER_HEIGHT && col < BUFFER_WIDTH,
            shown is Some ==> shown->0 == self@.rows[row as int][col as int],
    {
        if row < BUFFER_HEIGHT && col < BUFFER_WIDTH {
            Some(ScreenChar::decode(cell_read(&self.buffer[row][col])))
        } else {
            None
        }
    }
}

/// `core::fmt::Error`, of which the verifier knows the name only.
#[verifier::external_type_specification]
#[verifier::external_body]
pub struct ExFmtError(core::fmt::Error);

impl core::fmt::Write for Writer {
    /// Writes `s` as [`Writer::write_string`] does; it never fails.
    fn write_str(&mut self, s: &str) -> (result: core::fmt::Result)
        ensures
            result is Ok,
            final(self)@ == old(self)@.write_bytes(s.spec_bytes()),
    {
        self.write_string(s);
        Ok(())
    }
}

/// Writing a byte to a full grid leaves a full grid in the same colour,
/// and the column never passes the end of the row.
pub proof fn lemma_write_byte_keeps_grid(screen: Screen, byte: u8)
    requires
        screen.wf(),
        screen.column <= BUFFER_WIDTH,
    ensures
        screen.write_byte(byte).wf(),
        screen.write_byte(byte).column <= BUFFER_WIDTH,
        screen.write_byte(byte).color == screen.color,
{
}

/// Writing a text to a full grid leaves a full grid in the same colour,
/// and the column never passes the end of the row.
pub proof fn lemma_write_bytes_keeps_grid(screen: Screen, bytes: Seq<u8>)
    requires
        screen.wf(),
        screen.column <= BUFFER_WIDTH,
    ensures
        screen.write_bytes(bytes).wf(),
        screen.write_bytes(bytes).column <= BUFFER_WIDTH,
        screen.write_bytes(bytes).color == screen.color,
    decreases bytes.len(),
{
    if bytes.len() > 0 {
        lemma_write_bytes_keeps_grid(screen, bytes.drop_last());
        lemma_write_byte_keeps_grid(
            screen.write_bytes(bytes.drop_last()),
            displayed(bytes.last()),
        );
    }
}

/// Writing one text after another is writing the two as one.
pub proof fn lemma_write_bytes_concat(screen: Screen, first: Seq<u8>, second: Seq<u8>)
    ensures
        screen.write_bytes(first + second) == screen.write_bytes(first).write_bytes(second),
    decreases second.len(),
{
    if second.len() == 0 {
        assert(first + second =~= first);
    } else {
        lemma_write_bytes_concat(screen, first, second.drop_last());
        assert((first + second).drop_last() =~= first + second.drop_last());
    }
}

/// A text that ends a line leaves the bottom row blank and the column at
/// its start, and the text of the row above is what was written last.
pub proof fn lemma_newline_starts_a_blank_row(screen: Screen)
    requires
        screen.wf(),
    ensures
        screen.write_byte(0x0a).column == 0,
        screen.write_byte(0x0a).rows[BUFFER_HEIGHT - 1] == screen.blank_row(),
        screen.write_byte(0x0a).rows[BUFFER_HEIGHT - 2] == screen.rows[BUFFER_HEIGHT - 1],
{
}

} // verus!
