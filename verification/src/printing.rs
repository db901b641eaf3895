//! The text console: a grid of character cells with a cursor that wraps and scrolls.

use vstd::prelude::*;
use vstd::string::StringSliceAdditionalSpecFns;

verus! {

/// Number of rows of the display.
pub const ROW_MAX: usize = 25;

/// Number of columns of the display.
pub const COL_MAX: usize = 80;

/// Number of bytes that one row of cells takes: a character and an attribute for each column.
pub const ROW_BYTES: usize = 160;

/// Number of bytes of the whole display.
pub const BUFFER_LEN: usize = 4000;

/// The line-feed character.
pub const LINE_FEED: u8 = 10;

/// The sixteen colors of the text mode palette.
#[derive(Clone, Copy, Debug, PartialEq, Eq, Structural)]
pub enum Color {
    Black,
    Blue,
    Green,
    Cyan,
    Red,
    Magenta,
    Brown,
    LightGray,
    DarkGray,
    LightBlue,
    LightGreen,
    LightCyan,
    LightRed,
    Pink,
    Yellow,
    White,
}

impl Color {
    /// The palette index of the color, a value below 16.
    pub open spec fn code(self) -> u8 {
        match self {
            Color::Black => 0u8,
            Color::Blue => 1u8,
            Color::Green => 2u8,
            Color::Cyan => 3u8,
            Color::Red => 4u8,
            Color::Magenta => 5u8,
            Color::Brown => 6u8,
            Color::LightGray => 7u8,
            Color::DarkGray => 8u8,
            Color::LightBlue => 9u8,
            Color::LightGreen => 10u8,
            Color::LightCyan => 11u8,
            Color::LightRed => 12u8,
            Color::Pink => 13u8,
            Color::Yellow => 14u8,
            Color::White => 15u8,
        }
    }

    /// Returns the palette index of the color.
    pub fn as_u8(self) -> (n: u8)
        ensures
            n == self.code(),
            n < 16,
    {
        match self {
            Color::Black => 0u8,
            Color::Blue => 1u8,
            Color::Green => 2u8,
            Color::Cyan => 3u8,
            Color::Red => 4u8,
            Color::Magenta => 5u8,
            Color::Brown => 6u8,
            Color::LightGray => 7u8,
            Color::DarkGray => 8u8,
            Color::LightBlue => 9u8,
            Color::LightGreen => 10u8,
            Color::LightCyan => 11u8,
            Color::LightRed => 12u8,
            Color::Pink => 13u8,
            Color::Yellow => 14u8,
            Color::White => 15u8,
        }
    }
}

/// The attribute byte of a cell: background in the high nibble, foreground in the low one.
pub open spec fn attribute(fg: Color, bg: Color) -> u8 {
    (bg.code() * 16 + fg.code()) as u8
}



/// The display as a mathematical value: colors, cursor and the bytes of all cells, row by row.
pub struct Console {
    pub fg: Color,
    pub bg: Color,
    pub row: int,
    pub col: int,
    pub cells: Seq<u8>,
}

/// The bytes of a display after it moved up by one row: every row takes the content of the
/// row below it, and the last row is blank.
pub open spec fn scrolled(cells: Seq<u8>) -> Seq<u8> {
    Seq::new(
        cells.len(),
        |i: int| if i + ROW_BYTES < cells.len() { cells[i + ROW_BYTES] } else { 0u8 },
    )
}

/// The character code that the bytes of a display hold for the cell at the given position.
pub open spec fn cell_char(cells: Seq<u8>, row: int, col: int) -> u8 {
    cells[2 * (row * COL_MAX + col)]
}

/// The attribute byte that the bytes of a display hold for the cell at the given position.
pub open spec fn cell_attr(cells: Seq<u8>, row: int, col: int) -> u8 {
    cells[2 * (row * COL_MAX + col) + 1]
}

/// The row that the cursor stands on once it has moved down by `lines` rows from `row`,
/// held back at the last row of the display.
pub open spec fn clamped_row(row: int, lines: int) -> int {
    if row + lines < ROW_MAX { row + lines } else { ROW_MAX - 1 }
}

impl Console {
    /// The cursor is on the display and the cells are those of a whole display.
    pub open spec fn wf(self) -> bool {
        &&& 0 <= self.row < ROW_MAX
        &&& 0 <= self.col < COL_MAX
        &&& self.cells.len() == BUFFER_LEN
    }

    /// The character code of the cell at the given position.
    pub open spec fn char_at(self, row: int, col: int) -> u8 {
        cell_char(self.cells, row, col)
    }

    /// The attribute byte of the cell at the given position.
    pub open spec fn attr_at(self, row: int, col: int) -> u8 {
        cell_attr(self.cells, row, col)
    }

    /// Every cell of the display holds character zero and attribute zero.
    pub open spec fn is_blank(self) -> bool {
        forall|i: int| 0 <= i < self.cells.len() ==> self.cells[i] == 0
    }

    /// The display after the cursor moved to the start of the next row, before any scrolling.
    pub open spec fn next_line(self) -> Console {
        Console { row: self.row + 1, col: 0, ..self }
    }

    /// The display after `c` was put into the cell under the cursor with the current colors
    /// and the cursor moved on by one cell, before any scrolling.
    pub open spec fn put(self, c: u8) -> Console {
        let at = 2 * (self.row * COL_MAX + self.col);
        let cells = self.cells.update(at, c).update(at + 1, attribute(self.fg, self.bg));
        if self.col + 1 >= COL_MAX {
            Console { row: self.row + 1, col: 0, cells, ..self }
        } else {
            Console { col: self.col + 1, cells, ..self }
        }
    }

    /// Brings the cursor back onto the display: where it left the last row, the content
    /// moves up by one row and the cursor goes back to the last row.
    pub open spec fn settle(self) -> Console {
        if self.row >= ROW_MAX {
            Console { row: self.row - 1, cells: scrolled(self.cells), ..self }
        } else {
            self
        }
    }

    /// The display after one byte was written to it.
    pub open spec fn write_char(self, c: u8) -> Console {
        if c == LINE_FEED {
            self.next_line().settle()
        } else {
            self.put(c).settle()
        }
    }

    /// The display after the bytes were written to it, first to last.
    pub open spec fn write_bytes(self, bytes: Seq<u8>) -> Console
        decreases bytes.len(),
    {
        if bytes.len() == 0 {
            self
        } else {
            self.write_bytes(bytes.drop_last()).write_char(bytes.last())
        }
    }
}

/// The text console: the current colors, the cursor and the content of the display.
pub struct Screen {
    pub fg: Color,
    pub bg: Color,
    pub row: usize,
    pub col: usize,
    /// The cells of the display, row by row: for each cell its character, then its attribute.
    pub buffer: Vec<u8>,
}

impl View for Screen {
    type V = Console;

    open spec fn view(&self) -> Console {
        Console {
            fg: self.fg,
            bg: self.bg,
            row: self.row as int,
            col: self.col as int,
            cells: self.buffer@,
        }
    }
}

impl Default for Screen {
    /// The console as it is at boot: blank, the cursor at the origin, red on black.
    fn default() -> (screen: Screen)
        ensures
            screen.wf(),
            screen@.is_blank(),
            screen@.fg == Color::Red,
            screen@.bg == Color::Black,
            screen@.row == 0,
            screen@.col == 0,
    {
        Screen::new(Color::Red, Color::Black)
    }
}

/// Moves the content of the display up by one row and blanks the last row.
fn scroll(buffer: &mut Vec<u8>)
    requires
        old(buffer)@.len() == BUFFER_LEN,
    ensures
        final(buffer)@ == scrolled(old(buffer)@),
{
    let ghost before = buffer@;
    let mut i: usize = ROW_BYTES;
    while i < BUFFER_LEN
        invariant
            ROW_BYTES <= i <= BUFFER_LEN,
            buffer@.len() == BUFFER_LEN,
            before.len() == BUFFER_LEN,
            forall|j: int| 0 <= j < i - ROW_BYTES ==> buffer@[j] == before[j + ROW_BYTES],
            forall|j: int| i - ROW_BYTES <= j < BUFFER_LEN ==> buffer@[j] == before[j],
        decreases BUFFER_LEN - i,
    {
        let byte = buffer[i];
        buffer[i - ROW_BYTES] = byte;
        i += 1;
    }
    let mut k: usize = BUFFER_LEN - ROW_BYTES;
    while k < BUFFER_LEN
        invariant
            BUFFER_LEN - ROW_BYTES <= k <= BUFFER_LEN,
            buffer@.len() == BUFFER_LEN,
            before.len() == BUFFER_LEN,
            forall|j: int| 0 <= j < BUFFER_LEN - ROW_BYTES ==> buffer@[j] == before[j + ROW_BYTES],
            forall|j: int| BUFFER_LEN - ROW_BYTES <= j < k ==> buffer@[j] == 0,
        decreases BUFFER_LEN - k,
    {
        buffer[k] = 0;
        k += 1;
    }
    assert(buffer@ =~= scrolled(before));
}

impl Screen {
    /// The cursor is on the display and the buffer holds a whole display.
    pub open spec fn wf(&self) -> bool {
        self@.wf()
    }

    /// A blank display with the cursor at its origin and the given colors.
    pub fn new(fg: Color, bg: Color) -> (screen: Screen)
        ensures
            screen.wf(),
            screen@.is_blank(),
            screen@.fg == fg,
            screen@.bg == bg,
            screen@.row == 0,
            screen@.col == 0,
    {
        let mut buffer: Vec<u8> = Vec::new();
        while buffer.len() < BUFFER_LEN
            invariant
                buffer@.len() <= BUFFER_LEN,
                forall|i: int| 0 <= i < buffer@.len() ==> buffer@[i] == 0,
            decreases BUFFER_LEN - buffer@.len(),
        {
            buffer.push(0);
        }
        Screen { fg, bg, row: 0, col: 0, buffer }
    }

    /// Writes one byte at the cursor. A line-feed moves the cursor to the start of the next
    /// row and writes no cell; any other byte fills the cell under the cursor with the
    /// current colors and moves the cursor on, to the next row after the last column. When
    /// the cursor leaves the last row, the display scrolls up by one row.
    pub fn print_char(&mut self, c: u8)
        requires
            old(self).wf(),
        ensures
            final(self).wf(),
            final(self)@ == old(self)@.write_char(c),
            c == LINE_FEED ==> final(self).col == 0 && final(self).row == clamped_row(
                old(self).row as int,
                1,
            ),
    {
        if c == LINE_FEED {
            self.row += 1;
            self.col = 0;
        } else {
            let offset: usize = self.row * COL_MAX + self.col;
            let attr: u8 = self.bg.as_u8() * 16 + self.fg.as_u8();
            self.buffer[offset * 2] = c;
            self.buffer[offset * 2 + 1] = attr;
            self.col += 1;
            if self.col >= COL_MAX {
                self.col = 0;
                self.row += 1;
            }
        }
        if self.row >= ROW_MAX {
            scroll(&mut self.buffer);
            self.row -= 1;
        }
    }

    /// Writes the bytes of `s` one after the other.
    pub fn print_string(&mut self, s: &str)
        requires
            old(self).wf(),
        ensures
            final(self).wf(),
            final(self)@ == old(self)@.write_bytes(s.spec_bytes()),
    {
        let bytes = s.as_bytes();
        let ghost start = self@;
        let mut i: usize = 0;
        while i < bytes.len()
            invariant
                i <= bytes@.len(),
                self.wf(),
                self@ == start.write_bytes(bytes@.take(i as int)),
            decreases bytes@.len() - i,
        {
            proof {
                assert(bytes@.take(i + 1).drop_last() =~= bytes@.take(i as int));
            }
            self.print_char(bytes[i]);
            i += 1;
        }
        proof {
            assert(bytes@.take(i as int) =~= bytes@);
        }
    }
}


/// Scrolling keeps the content: every row but the first is found one row higher, cell for
/// cell, and the last row is blank. What the first row held is gone.
pub proof fn scroll_preserves_content(cells: Seq<u8>)
    requires
        cells.len() == BUFFER_LEN,
    ensures
        scrolled(cells).len() == BUFFER_LEN,
        forall|row: int, col: int|
            1 <= row < ROW_MAX && 0 <= col < COL_MAX ==> #[trigger] cell_char(
                scrolled(cells),
                row - 1,
                col,
            ) == cell_char(cells, row, col),
        forall|row: int, col: int|
            1 <= row < ROW_MAX && 0 <= col < COL_MAX ==> #[trigger] cell_attr(
                scrolled(cells),
                row - 1,
                col,
            ) == cell_attr(cells, row, col),
        forall|col: int|
            0 <= col < COL_MAX ==> #[trigger] cell_char(scrolled(cells), ROW_MAX - 1, col) == 0,
        forall|col: int|
            0 <= col < COL_MAX ==> #[trigger] cell_attr(scrolled(cells), ROW_MAX - 1, col) == 0,
{
}

/// A line-feed puts the cursor into column 0 of the next row and changes no cell, unless the
/// cursor stood on the last row: then it stays on that row and the display scrolls.
pub proof fn line_feed_starts_next_row(s: Console)
    requires
        s.wf(),
    ensures
        s.write_char(LINE_FEED).wf(),
        s.write_char(LINE_FEED).col == 0,
        s.write_char(LINE_FEED).row == clamped_row(s.row, 1),
        s.write_char(LINE_FEED).cells == if s.row + 1 < ROW_MAX {
            s.cells
        } else {
            scrolled(s.cells)
        },
        s.write_char(LINE_FEED).fg == s.fg,
        s.write_char(LINE_FEED).bg == s.bg,
{
}

/// Any other byte lands in the cell under the cursor, with the attribute of the current
/// colors, before the display scrolls if it has to.
pub proof fn put_fills_cursor_cell(s: Console, c: u8)
    requires
        s.wf(),
    ensures
        s.put(c).char_at(s.row, s.col) == c,
        s.put(c).attr_at(s.row, s.col) == attribute(s.fg, s.bg),
        forall|i: int|
            0 <= i < BUFFER_LEN && i != 2 * (s.row * COL_MAX + s.col) && i != 2 * (s.row * COL_MAX
                + s.col) + 1 ==> s.put(c).cells[i] == s.cells[i],
{
}

/// Writing keeps the cursor on the display, whatever the bytes are.
pub proof fn write_bytes_keeps_cursor_in_bounds(s: Console, bytes: Seq<u8>)
    requires
        s.wf(),
    ensures
        s.write_bytes(bytes).wf(),
        s.write_bytes(bytes).fg == s.fg,
        s.write_bytes(bytes).bg == s.bg,
    decreases bytes.len(),
{
    if bytes.len() > 0 {
        write_bytes_keeps_cursor_in_bounds(s, bytes.drop_last());
    }
}

/// After `n` bytes, none of them a line-feed, the cursor stands in column `(col + n) mod
/// width`, and has gone down by `(col + n) div width` rows, held back at the last row, where
/// the display scrolls instead. From column 0 these are `n mod width` and `n div width`.
pub proof fn cursor_after_plain_writes(s: Console, bytes: Seq<u8>)
    requires
        s.wf(),
        forall|i: int| 0 <= i < bytes.len() ==> bytes[i] != LINE_FEED,
    ensures
        s.write_bytes(bytes).wf(),
        s.write_bytes(bytes).col == (s.col + bytes.len()) % (COL_MAX as int),
        s.write_bytes(bytes).row == clamped_row(s.row, (s.col + bytes.len()) / (COL_MAX as int)),
    decreases bytes.len(),
{
    if bytes.len() > 0 {
        cursor_after_plain_writes(s, bytes.drop_last());
    }
}

/// Writing two runs of bytes one after the other is writing their concatenation.
pub proof fn write_bytes_concat(s: Console, first: Seq<u8>, second: Seq<u8>)
    ensures
        s.write_bytes(first + second) == s.write_bytes(first).write_bytes(second),
    decreases second.len(),
{
    if second.len() == 0 {
        assert(first + second =~= first);
    } else {
        write_bytes_concat(s, first, second.drop_last());
        assert((first + second).drop_last() =~= first + second.drop_last());
    }
}

} // verus!
