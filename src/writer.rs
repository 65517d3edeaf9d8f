//! The text writer: a cursor column and a colour over the grid, with line
//! wrap and scrolling.
use crate::cell::{decode, Color, ColorCode, ScreenChar};
use crate::laws::well_shaped;
use crate::grid::{cell_word, grid_rows, read_cell, write_cell, Grid, BUFFER_HEIGHT, BUFFER_WIDTH};
use vstd::prelude::*;
use vstd::string::StringSliceAdditionalSpecFns;

verus! {

/// The byte that text output puts on screen for `b`: printable ASCII and the
/// newline pass unchanged, every other byte becomes the block glyph 0xFE.
pub open spec fn glyph(b: u8) -> u8 {
    if (0x20 <= b && b <= 0x7e) || b == 10 {
        b
    } else {
        0xfe
    }
}

/// A space drawn in `color`.
pub open spec fn blank(color: ColorCode) -> ScreenChar {
    ScreenChar { ascii_character: 0x20, color_code: color }
}

/// A whole row of spaces drawn in `color`.
pub open spec fn blank_row(color: ColorCode) -> Seq<ScreenChar> {
    Seq::new(80, |c: int| blank(color))
}

/// The rows after a line break: each row takes the contents of the one below
/// it, and the bottom row is blanked in `color`.
pub open spec fn scroll(rows: Seq<Seq<ScreenChar>>, color: ColorCode) -> Seq<Seq<ScreenChar>> {
    rows.subrange(1, 25).push(blank_row(color))
}

/// The rows with `ch` put at column `col` of the bottom row.
pub open spec fn place(rows: Seq<Seq<ScreenChar>>, col: int, ch: ScreenChar) -> Seq<Seq<ScreenChar>> {
    rows.update(24, rows[24].update(col, ch))
}

/// Rows and cursor column after one byte is written in `color`: a newline
/// breaks the line; any other byte first breaks the line if it is full, then
/// lands at the cursor on the bottom row.
pub open spec fn step(rows: Seq<Seq<ScreenChar>>, column: nat, color: ColorCode, b: u8) -> (
    Seq<Seq<ScreenChar>>,
    nat,
) {
    if b == 10 {
        (scroll(rows, color), 0)
    } else if column >= 80 {
        (place(scroll(rows, color), 0, ScreenChar { ascii_character: b, color_code: color }), 1)
    } else {
        (place(rows, column as int, ScreenChar { ascii_character: b, color_code: color }), column + 1)
    }
}

/// Rows and cursor column after the text bytes `bytes` are written in `color`,
/// each through `glyph`.
pub open spec fn run(rows: Seq<Seq<ScreenChar>>, column: nat, color: ColorCode, bytes: Seq<u8>) -> (
    Seq<Seq<ScreenChar>>,
    nat,
)
    decreases bytes.len(),
{
    if bytes.len() == 0 {
        (rows, column)
    } else {
        let prev = run(rows, column, color, bytes.drop_last());
        step(prev.0, prev.1, color, glyph(bytes.last()))
    }
}

/// Writes text to the bottom row of a grid and scrolls the grid as lines fill.
pub struct Writer {
    column_position: usize,
    color_code: ColorCode,
    buffer: &'static mut Grid,
}

impl Writer {
    #[verifier::type_invariant]
    closed spec fn inv(self) -> bool {
        self.column_position <= 80
    }

    /// The grid's cells, row by row; row 24 receives output.
    pub closed spec fn rows(&self) -> Seq<Seq<ScreenChar>> {
        grid_rows(*self.buffer)
    }

    /// The column at which the next character lands, 0 to 80.
    pub closed spec fn cursor(&self) -> nat {
        self.column_position as nat
    }

    /// The colour that output is drawn in.
    pub closed spec fn color(&self) -> ColorCode {
        self.color_code
    }

    /// A writer over `buffer` with the cursor at the start of the bottom row.
    pub fn new(color_code: ColorCode, buffer: &'static mut Grid) -> (r: Writer)
        ensures
            r.cursor() == 0,
            r.color() == color_code,
            r.rows() == grid_rows(*old(buffer)),
            well_shaped(r.rows()),
    {
        Writer { column_position: 0, color_code, buffer }
    }

    /// The grid always has 25 rows of 80 cells.
    pub proof fn lemma_in_grid(&self)
        ensures
            well_shaped(self.rows()),
    {
    }

    pub fn column(&self) -> (r: usize)
        ensures
            r == self.cursor(),
            r <= 80,
    {
        proof {
            use_type_invariant(self);
        }
        self.column_position
    }

    pub fn color_code(&self) -> (r: ColorCode)
        ensures
            r == self.color(),
    {
        self.color_code
    }

    /// Reads back the cell at `row`, `col`.
    pub fn read(&self, row: usize, col: usize) -> (r: ScreenChar)
        requires
            row < 25,
            col < 80,
        ensures
            r == self.rows()[row as int][col as int],
    {
        ScreenChar::from_word(read_cell(&self.buffer[row][col]))
    }

    /// Fills row `row` with spaces in the current colour.
    pub fn clear_row(&mut self, row: usize)
        requires
            row < 25,
        ensures
            final(self).rows() == old(self).rows().update(row as int, blank_row(old(self).color())),
            final(self).cursor() == old(self).cursor(),
            final(self).color() == old(self).color(),
            well_shaped(final(self).rows()),
    {
        proof {
            use_type_invariant(&*self);
        }
        let ghost before = self.rows();
        let blank_word = ScreenChar::encode(0x20u8, self.color_code).word();
        let mut col: usize = 0;
        while col < BUFFER_WIDTH
            invariant
                row < 25,
                col <= 80,
                self.cursor() == old(self).cursor(),
                self.cursor() <= 80,
                self.color() == old(self).color(),
                before == old(self).rows(),
                decode(blank_word) == blank(self.color()),
                forall|r: int, c: int|
                    0 <= r < 25 && 0 <= c < 80 ==> #[trigger] self.rows()[r][c] == (if r == row
                        && c < col {
                        blank(self.color())
                    } else {
                        before[r][c]
                    }),
            decreases 80 - col,
        {
            let ghost g0 = *self.buffer;
            let ghost rows0 = self.rows();
            write_cell(&mut self.buffer[row][col], blank_word);
            assert forall|r: int, c: int| 0 <= r < 25 && 0 <= c < 80 implies #[trigger] self.rows()[r][c] == (if r == row
                        && c < col + 1 {
                        blank(self.color())
                    } else {
                        before[r][c]
                    }) by {
                assert(rows0[r][c] == decode(cell_word(g0[r][c])));
                assert(self.rows()[r][c] == decode(cell_word(self.buffer[r][c])));
                if r != row || c != col {
                    assert(self.buffer[r][c] == g0[r][c]);
                }
            }
            col += 1;
        }
        assert(self.rows() =~~= before.update(row as int, blank_row(self.color())));
    }

    /// Moves every row up by one, blanks the bottom row in the current colour
    /// and puts the cursor at its start.
    fn new_line(&mut self)
        ensures
            final(self).rows() == scroll(old(self).rows(), old(self).color()),
            final(self).cursor() == 0,
            final(self).color() == old(self).color(),
            well_shaped(final(self).rows()),
    {
        proof {
            use_type_invariant(&*self);
        }
        let ghost before = self.rows();
        let mut row: usize = 1;
        while row < BUFFER_HEIGHT
            invariant
                1 <= row <= 25,
                self.cursor() == old(self).cursor(),
                self.cursor() <= 80,
                self.color() == old(self).color(),
                before == old(self).rows(),
                forall|r: int, c: int|
                    0 <= r < 25 && 0 <= c < 80 ==> #[trigger] self.rows()[r][c] == (if r < row - 1 {
                        before[r + 1][c]
                    } else {
                        before[r][c]
                    }),
            decreases 25 - row,
        {
            let mut col: usize = 0;
            while col < BUFFER_WIDTH
                invariant
                    1 <= row < 25,
                    col <= 80,
                    self.cursor() == old(self).cursor(),
                    self.cursor() <= 80,
                    self.color() == old(self).color(),
                    before == old(self).rows(),
                    forall|r: int, c: int|
                        0 <= r < 25 && 0 <= c < 80 ==> #[trigger] self.rows()[r][c] == (if r < row
                            - 1 || (r == row - 1 && c < col) {
                            before[r + 1][c]
                        } else {
                            before[r][c]
                        }),
                decreases 80 - col,
            {
                let w = read_cell(&self.buffer[row][col]);
                let ghost g0 = *self.buffer;
                let ghost rows0 = self.rows();
                write_cell(&mut self.buffer[row - 1][col], w);
                assert forall|r: int, c: int| 0 <= r < 25 && 0 <= c < 80 implies #[trigger] self.rows()[r][c]
                    == (if r < row - 1 || (r == row - 1 && c < col + 1) {
                    before[r + 1][c]
                } else {
                    before[r][c]
                }) by {
                    assert(rows0[r][c] == decode(cell_word(g0[r][c])));
                    assert(rows0[row as int][col as int] == decode(cell_word(g0[row as int][col as int])));
                    assert(self.rows()[r][c] == decode(cell_word(self.buffer[r][c])));
                    if r != row - 1 || c != col {
                        assert(self.buffer[r][c] == g0[r][c]);
                    }
                }
                col += 1;
            }
            row += 1;
        }
        self.clear_row(BUFFER_HEIGHT - 1);
        self.column_position = 0;
        assert(self.rows() =~~= scroll(before, self.color()));
    }

    /// Writes one byte at the cursor; a newline breaks the line instead, and
    /// a full line is broken before the byte is placed.
    pub fn write_byte(&mut self, byte: u8)
        ensures
            (final(self).rows(), final(self).cursor()) == step(
                old(self).rows(),
                old(self).cursor(),
                old(self).color(),
                byte,
            ),
            final(self).color() == old(self).color(),
            well_shaped(final(self).rows()),
    {
        proof {
            use_type_invariant(&*self);
        }
        if byte == 0x0au8 {
            self.new_line();
        } else {
            let ghost before = self.rows();
            if self.column_position >= BUFFER_WIDTH {
                self.new_line();
            }
            let ghost middle = self.rows();
            let row = BUFFER_HEIGHT - 1;
            let col = self.column_position;
            let ch = ScreenChar::encode(byte, self.color_code);
            write_cell(&mut self.buffer[row][col], ch.word());
            self.column_position += 1;
            assert(self.rows() =~~= place(middle, col as int, ch));
        }
    }

    /// Writes the bytes of `s` in order, each printable ASCII byte and newline
    /// as it is and every other byte as the block glyph 0xFE.
    pub fn write_string(&mut self, s: &str)
        ensures
            (final(self).rows(), final(self).cursor()) == run(
                old(self).rows(),
                old(self).cursor(),
                old(self).color(),
                s.spec_bytes(),
            ),
            final(self).color() == old(self).color(),
            well_shaped(final(self).rows()),
    {
        let bytes = s.as_bytes();
        let mut i: usize = 0;
        while i < bytes.len()
            invariant
                i <= bytes@.len(),
                bytes@ == s.spec_bytes(),
                self.color() == old(self).color(),
                (self.rows(), self.cursor()) == run(
                    old(self).rows(),
                    old(self).cursor(),
                    old(self).color(),
                    bytes@.subrange(0, i as int),
                ),
            decreases bytes@.len() - i,
        {
            let byte = bytes[i];
            match byte {
                0x20..=0x7e | 0x0a => self.write_byte(byte),
                _ => self.write_byte(0xfe),
            }
            assert(bytes@.subrange(0, i + 1).drop_last() =~= bytes@.subrange(0, i as int));
            i += 1;
        }
        assert(bytes@.subrange(0, bytes@.len() as int) =~= bytes@);
    }
}

/// Greets on a fresh yellow-on-black writer over `buffer`: "H", then
/// "ello world" and a newline, then "the numbers are " followed by `numbers`,
/// the numbers already formatted as text.
pub fn print_something(buffer: &'static mut Grid, numbers: &str) -> (r: Writer)
    ensures
        r.color().bits() == 0x0e,
        ({
            let c = r.color();
            let s0 = step(grid_rows(*old(buffer)), 0, c, 0x48);
            let s1 = run(s0.0, s0.1, c, "ello world\n".spec_bytes());
            let s2 = run(s1.0, s1.1, c, "the numbers are ".spec_bytes());
            (r.rows(), r.cursor()) == run(s2.0, s2.1, c, numbers.spec_bytes())
        }),
{
    let color_code = ColorCode::new(Color::Yellow, Color::Black);
    let mut writer = Writer::new(color_code, buffer);
    writer.write_byte(0x48u8);
    writer.write_string("ello world\n");
    writer.write_string("the numbers are ");
    writer.write_string(numbers);
    writer
}

} // verus!
