//! The character grid that the game draws on: `BUFFER_HEIGHT` rows of
//! `BUFFER_WIDTH` colored cells, kept in memory and copied to the display
//! by the platform layer.
use vstd::prelude::*;
use vstd::string::StringSliceAdditionalSpecFns;
use crate::color::{ColorCode, ScreenChar};

verus! {

/// Rows of the grid.
pub const BUFFER_HEIGHT: usize = 25;

/// Columns of the grid.
pub const BUFFER_WIDTH: usize = 80;

/// Number of cells of the grid.
pub const BUFFER_CELLS: usize = 2000;

/// The blank character.
pub const SPACE: u8 = 0x20;

/// The byte that ends a line of teletype output.
pub const LINE_FEED: u8 = 0x0a;

/// Glyph drawn in place of a byte that the display cannot show.
pub const PLACEHOLDER: u8 = 0xfe;

/// The byte the display shows for `b`: printable ASCII as it is, anything
/// else as the placeholder.
pub open spec fn glyph(b: u8) -> u8 {
    if 0x20 <= b <= 0x7e {
        b
    } else {
        PLACEHOLDER
    }
}

/// Flat index of cell `(row, col)`.
pub open spec fn cell_index(row: int, col: int) -> int {
    row * BUFFER_WIDTH + col
}

/// Distinct cells have distinct flat indices, all within the grid.
pub proof fn lemma_cell_index(r1: int, c1: int, r2: int, c2: int)
    requires
        0 <= r1 < BUFFER_HEIGHT,
        0 <= c1 < BUFFER_WIDTH,
        0 <= r2 < BUFFER_HEIGHT,
        0 <= c2 < BUFFER_WIDTH,
    ensures
        (cell_index(r1, c1) == cell_index(r2, c2)) == (r1 == r2 && c1 == c2),
        0 <= cell_index(r1, c1) < BUFFER_CELLS,
{
    assert((cell_index(r1, c1) == cell_index(r2, c2)) == (r1 == r2 && c1 == c2)
        && 0 <= cell_index(r1, c1) < BUFFER_CELLS) by (nonlinear_arith)
        requires
            0 <= r1 < BUFFER_HEIGHT,
            0 <= c1 < BUFFER_WIDTH,
            0 <= r2 < BUFFER_HEIGHT,
            0 <= c2 < BUFFER_WIDTH,
            BUFFER_WIDTH == 80,
            BUFFER_HEIGHT == 25,
            BUFFER_CELLS == 2000,
    ;
}

/// The cells after writing `bs` with glyph substitution from `(row, col)`
/// on, the column wrapping to 0 past the right edge.
pub open spec fn string_cells(
    cells: Seq<ScreenChar>,
    row: int,
    col: int,
    bs: Seq<u8>,
    color: ColorCode,
) -> Seq<ScreenChar>
    decreases bs.len(),
{
    if bs.len() == 0 {
        cells
    } else {
        let n = bs.len() - 1;
        string_cells(cells, row, col, bs.drop_last(), color).update(
            cell_index(row, (col + n) % (BUFFER_WIDTH as int)),
            ScreenChar { ascii_character: glyph(bs.last()), color_code: color },
        )
    }
}

/// The cells after one byte of teletype output at the bottom row, and
/// the cursor column after it.
pub open spec fn teletype_byte(
    cells: Seq<ScreenChar>,
    column: nat,
    color: ColorCode,
    b: u8,
) -> (Seq<ScreenChar>, nat) {
    if b == 0x0a {
        (scrolled(cells, color), 0)
    } else {
        let (base, c) = if column >= BUFFER_WIDTH {
            (scrolled(cells, color), 0nat)
        } else {
            (cells, column)
        };
        (
            base.update(
                cell_index(BUFFER_HEIGHT - 1, c as int),
                ScreenChar { ascii_character: b, color_code: color },
            ),
            c + 1,
        )
    }
}

/// The byte that teletype output writes for `b`: printable ASCII and line
/// feeds as they are, anything else as the placeholder.
pub open spec fn teletype_glyph(b: u8) -> u8 {
    if b == 0x0a {
        b
    } else {
        glyph(b)
    }
}

/// Teletype output of all of `bs`.
pub open spec fn teletype_string(
    cells: Seq<ScreenChar>,
    column: nat,
    color: ColorCode,
    bs: Seq<u8>,
) -> (Seq<ScreenChar>, nat)
    decreases bs.len(),
{
    if bs.len() == 0 {
        (cells, column)
    } else {
        let (c, k) = teletype_string(cells, column, color, bs.drop_last());
        teletype_byte(c, k, color, teletype_glyph(bs.last()))
    }
}

/// The grid moved up by one row, with a blank bottom row.
pub open spec fn scrolled(cells: Seq<ScreenChar>, color: ColorCode) -> Seq<ScreenChar> {
    Seq::new(
        BUFFER_CELLS as nat,
        |i: int|
            if i < cell_index(BUFFER_HEIGHT - 1, 0) {
                cells[i + BUFFER_WIDTH]
            } else {
                ScreenChar { ascii_character: 0x20, color_code: color }
            },
    )
}

/// A writer over the grid: the cells, the color it writes with and the
/// cursor column of teletype output on the bottom row.
pub struct Writer {
    column_position: usize,
    color_code: ColorCode,
    buffer: Vec<ScreenChar>,
}

impl Writer {
    /// The cells, row after row.
    pub closed spec fn cells(&self) -> Seq<ScreenChar> {
        self.buffer@
    }

    /// The color of what the writer writes.
    pub closed spec fn color(&self) -> ColorCode {
        self.color_code
    }

    /// The cursor column of teletype output.
    pub closed spec fn column(&self) -> nat {
        self.column_position as nat
    }

    /// The grid has all its cells and the cursor is at most one past the
    /// right edge.
    pub open spec fn wf(&self) -> bool {
        &&& self.cells().len() == BUFFER_CELLS
        &&& self.column() <= BUFFER_WIDTH
    }

    /// The cell at `(row, col)`.
    pub open spec fn cell(&self, row: int, col: int) -> ScreenChar {
        self.cells()[cell_index(row, col)]
    }

    /// A blank grid that writes in `color_code`.
    pub fn new(color_code: ColorCode) -> (w: Writer)
        ensures
            w.wf(),
            w.color() == color_code,
            w.column() == 0,
            forall|i: int|
                0 <= i < BUFFER_CELLS ==> #[trigger] w.cells()[i] == (ScreenChar {
                    ascii_character: 0x20,
                    color_code,
                }),
    {
        let blank = ScreenChar { ascii_character: SPACE, color_code };
        let mut buffer: Vec<ScreenChar> = Vec::new();
        let mut i: usize = 0;
        while i < BUFFER_CELLS
            invariant
                i <= BUFFER_CELLS,
                buffer@.len() == i,
                forall|j: int| 0 <= j < i ==> #[trigger] buffer@[j] == blank,
            decreases BUFFER_CELLS - i,
        {
            buffer.push(blank);
            i += 1;
        }
        Writer { column_position: 0, color_code, buffer }
    }

    /// The cell at `(row, col)`.
    pub fn char_at(&self, row: usize, col: usize) -> (c: ScreenChar)
        requires
            self.wf(),
            row < BUFFER_HEIGHT,
            col < BUFFER_WIDTH,
        ensures
            c == self.cell(row as int, col as int),
    {
        self.buffer[row * BUFFER_WIDTH + col]
    }

    /// The color the writer writes with.
    pub fn color_code(&self) -> (c: ColorCode)
        ensures
            c == self.color(),
    {
        self.color_code
    }

    /// Puts `screen_char` at `(row, col)`.
    pub fn set_at_pos(&mut self, row: usize, col: usize, screen_char: ScreenChar)
        requires
            old(self).wf(),
            row < BUFFER_HEIGHT,
            col < BUFFER_WIDTH,
        ensures
            final(self).wf(),
            final(self).cells() == old(self).cells().update(
                cell_index(row as int, col as int),
                screen_char,
            ),
            final(self).color() == old(self).color(),
            final(self).column() == old(self).column(),
            forall|r: int, c: int|
                0 <= r < BUFFER_HEIGHT && 0 <= c < BUFFER_WIDTH ==> #[trigger] final(self).cell(r, c)
                    == if r == row && c == col {
                    screen_char
                } else {
                    old(self).cell(r, c)
                },
    {
        self.buffer.set(row * BUFFER_WIDTH + col, screen_char);
        proof {
            assert forall|r: int, c: int|
                0 <= r < BUFFER_HEIGHT && 0 <= c < BUFFER_WIDTH implies #[trigger] self.cell(r, c)
                    == if r == row && c == col {
                    screen_char
                } else {
                    old(self).cell(r, c)
                } by {
                lemma_cell_index(r, c, row as int, col as int);
            }
        }
    }

    /// Puts `screen_char` at `(row, col)`.
    pub fn write_screen_char_at_pos(&mut self, row: usize, col: usize, screen_char: ScreenChar)
        requires
            old(self).wf(),
            row < BUFFER_HEIGHT,
            col < BUFFER_WIDTH,
        ensures
            final(self).wf(),
            final(self).cells() == old(self).cells().update(
                cell_index(row as int, col as int),
                screen_char,
            ),
            final(self).color() == old(self).color(),
            final(self).column() == old(self).column(),
            forall|r: int, c: int|
                0 <= r < BUFFER_HEIGHT && 0 <= c < BUFFER_WIDTH ==> #[trigger] final(self).cell(r, c)
                    == if r == row && c == col {
                    screen_char
                } else {
                    old(self).cell(r, c)
                },
    {
        self.set_at_pos(row, col, screen_char);
    }

    /// Puts `byte`, in the writer's color, at `(row, col)`.
    pub fn write_byte_at_pos(&mut self, row: usize, col: usize, byte: u8)
        requires
            old(self).wf(),
            row < BUFFER_HEIGHT,
            col < BUFFER_WIDTH,
        ensures
            final(self).wf(),
            final(self).cells() == old(self).cells().update(
                cell_index(row as int, col as int),
                ScreenChar { ascii_character: byte, color_code: old(self).color() },
            ),
            final(self).color() == old(self).color(),
            final(self).column() == old(self).column(),
            forall|r: int, c: int|
                0 <= r < BUFFER_HEIGHT && 0 <= c < BUFFER_WIDTH ==> #[trigger] final(self).cell(r, c)
                    == if r == row && c == col {
                    ScreenChar { ascii_character: byte, color_code: old(self).color() }
                } else {
                    old(self).cell(r, c)
                },
    {
        let color_code = self.color_code;
        self.set_at_pos(row, col, ScreenChar { ascii_character: byte, color_code });
    }

    /// Writes `s` on `row` from `col` on, one cell per byte, a byte that the
    /// display cannot show as the placeholder; past the right edge the
    /// column wraps to 0.
    pub fn write_string_at_pos(&mut self, row: usize, col: usize, s: &str)
        requires
            old(self).wf(),
            row < BUFFER_HEIGHT,
            col < BUFFER_WIDTH,
        ensures
            final(self).wf(),
            final(self).cells() == string_cells(
                old(self).cells(),
                row as int,
                col as int,
                s.spec_bytes(),
                old(self).color(),
            ),
            final(self).color() == old(self).color(),
            final(self).column() == old(self).column(),
    {
        let bytes = s.as_bytes();
        let ghost start = self.cells();
        let mut c: usize = col;
        let mut i: usize = 0;
        while i < bytes.len()
            invariant
                self.wf(),
                row < BUFFER_HEIGHT,
                col < BUFFER_WIDTH,
                c < BUFFER_WIDTH,
                i <= bytes@.len(),
                bytes@ == s.spec_bytes(),
                c == (col + i) % (BUFFER_WIDTH as int),
                self.color() == old(self).color(),
                self.column() == old(self).column(),
                start == old(self).cells(),
                self.cells() == string_cells(
                    start,
                    row as int,
                    col as int,
                    bytes@.take(i as int),
                    self.color(),
                ),
            decreases bytes@.len() - i,
        {
            let byte = bytes[i];
            let shown = if 0x20 <= byte && byte <= 0x7e {
                byte
            } else {
                PLACEHOLDER
            };
            self.write_byte_at_pos(row, c, shown);
            proof {
                assert(bytes@.take(i + 1).drop_last() == bytes@.take(i as int));
            }
            c += 1;
            if c > BUFFER_WIDTH - 1 {
                c = 0;
            }
            i += 1;
        }
        proof {
            assert(bytes@.take(i as int) == bytes@);
        }
    }

    /// Writes `bs` on `row` from `col` on, one cell per byte, a byte that
    /// the display cannot show as the placeholder.
    pub fn write_bytes_at_pos(&mut self, row: usize, col: usize, bs: &[u8])
        requires
            old(self).wf(),
            row < BUFFER_HEIGHT,
            col + bs@.len() <= BUFFER_WIDTH,
        ensures
            final(self).wf(),
            final(self).color() == old(self).color(),
            final(self).column() == old(self).column(),
            forall|i: int|
                0 <= i < BUFFER_CELLS ==> #[trigger] final(self).cells()[i] == if row * BUFFER_WIDTH
                    + col <= i < row * BUFFER_WIDTH + col + bs@.len() {
                    ScreenChar {
                        ascii_character: glyph(bs@[i - row * BUFFER_WIDTH - col]),
                        color_code: old(self).color(),
                    }
                } else {
                    old(self).cells()[i]
                },
    {
        let mut i: usize = 0;
        while i < bs.len()
            invariant
                self.wf(),
                row < BUFFER_HEIGHT,
                col + bs@.len() <= BUFFER_WIDTH,
                i <= bs@.len(),
                self.color() == old(self).color(),
                self.column() == old(self).column(),
                forall|j: int|
                    0 <= j < BUFFER_CELLS ==> #[trigger] self.cells()[j] == if row * BUFFER_WIDTH
                        + col <= j < row * BUFFER_WIDTH + col + i {
                        ScreenChar {
                            ascii_character: glyph(bs@[j - row * BUFFER_WIDTH - col]),
                            color_code: old(self).color(),
                        }
                    } else {
                        old(self).cells()[j]
                    },
            decreases bs@.len() - i,
        {
            let byte = bs[i];
            let shown = if 0x20 <= byte && byte <= 0x7e {
                byte
            } else {
                PLACEHOLDER
            };
            self.write_byte_at_pos(row, col + i, shown);
            i += 1;
        }
    }

    /// Blanks `row` in the writer's color.
    pub fn clear_row(&mut self, row: usize)
        requires
            old(self).wf(),
            row < BUFFER_HEIGHT,
        ensures
            final(self).wf(),
            final(self).color() == old(self).color(),
            final(self).column() == old(self).column(),
            forall|i: int|
                0 <= i < BUFFER_CELLS ==> #[trigger] final(self).cells()[i] == if row * BUFFER_WIDTH
                    <= i < row * BUFFER_WIDTH + BUFFER_WIDTH {
                    ScreenChar { ascii_character: 0x20, color_code: old(self).color() }
                } else {
                    old(self).cells()[i]
                },
    {
        let blank = ScreenChar { ascii_character: SPACE, color_code: self.color_code };
        let mut col: usize = 0;
        while col < BUFFER_WIDTH
            invariant
                self.wf(),
                row < BUFFER_HEIGHT,
                col <= BUFFER_WIDTH,
                blank == (ScreenChar { ascii_character: 0x20, color_code: old(self).color() }),
                self.color() == old(self).color(),
                self.column() == old(self).column(),
                forall|i: int|
                    0 <= i < BUFFER_CELLS ==> #[trigger] self.cells()[i] == if row * BUFFER_WIDTH
                        <= i < row * BUFFER_WIDTH + col {
                        blank
                    } else {
                        old(self).cells()[i]
                    },
            decreases BUFFER_WIDTH - col,
        {
            self.set_at_pos(row, col, blank);
            col += 1;
        }
    }

    /// Blanks every row but the first, which holds the score.
    pub fn clear_screen(&mut self)
        requires
            old(self).wf(),
        ensures
            final(self).wf(),
            final(self).color() == old(self).color(),
            final(self).column() == old(self).column(),
            forall|i: int|
                0 <= i < BUFFER_CELLS ==> #[trigger] final(self).cells()[i] == if i
                    < BUFFER_WIDTH {
                    old(self).cells()[i]
                } else {
                    ScreenChar { ascii_character: 0x20, color_code: old(self).color() }
                },
    {
        let blank = ScreenChar { ascii_character: SPACE, color_code: self.color_code };
        let mut i: usize = BUFFER_WIDTH;
        while i < BUFFER_CELLS
            invariant
                self.wf(),
                BUFFER_WIDTH <= i <= BUFFER_CELLS,
                blank == (ScreenChar { ascii_character: 0x20, color_code: old(self).color() }),
                self.color() == old(self).color(),
                self.column() == old(self).column(),
                forall|j: int|
                    0 <= j < BUFFER_CELLS ==> #[trigger] self.cells()[j] == if BUFFER_WIDTH <= j
                        < i {
                        blank
                    } else {
                        old(self).cells()[j]
                    },
            decreases BUFFER_CELLS - i,
        {
            self.buffer.set(i, blank);
            i += 1;
        }
    }

    /// Moves every row up by one, blanks the bottom row and puts the
    /// cursor at its start.
    pub fn new_line(&mut self)
        requires
            old(self).wf(),
        ensures
            final(self).wf(),
            final(self).color() == old(self).color(),
            final(self).column() == 0,
            final(self).cells() == scrolled(old(self).cells(), old(self).color()),
    {
        let mut i: usize = BUFFER_WIDTH;
        while i < BUFFER_CELLS
            invariant
                self.wf(),
                BUFFER_WIDTH <= i <= BUFFER_CELLS,
                self.color() == old(self).color(),
                forall|j: int|
                    0 <= j < BUFFER_CELLS ==> #[trigger] self.cells()[j] == if j < i
                        - BUFFER_WIDTH {
                        old(self).cells()[j + BUFFER_WIDTH]
                    } else {
                        old(self).cells()[j]
                    },
            decreases BUFFER_CELLS - i,
        {
            let moved = self.buffer[i];
            self.buffer.set(i - BUFFER_WIDTH, moved);
            i += 1;
        }
        self.clear_row(BUFFER_HEIGHT - 1);
        self.column_position = 0;
        proof {
            assert(self.cells() =~= scrolled(old(self).cells(), old(self).color()));
        }
    }

    /// Teletype output of one byte on the bottom row: a line feed scrolls,
    /// any other byte goes at the cursor, scrolling first when the row is
    /// full.
    pub fn write_byte(&mut self, byte: u8)
        requires
            old(self).wf(),
        ensures
            final(self).wf(),
            final(self).color() == old(self).color(),
            (final(self).cells(), final(self).column()) == teletype_byte(
                old(self).cells(),
                old(self).column(),
                old(self).color(),
                byte,
            ),
    {
        if byte == LINE_FEED {
            self.new_line();
        } else {
            if self.column_position >= BUFFER_WIDTH {
                self.new_line();
            }
            let col = self.column_position;
            self.write_byte_at_pos(BUFFER_HEIGHT - 1, col, byte);
            self.column_position = col + 1;
        }
    }

    /// Teletype output of `s`, a byte that the display cannot show as the
    /// placeholder.
    pub fn write_string(&mut self, s: &str)
        requires
            old(self).wf(),
        ensures
            final(self).wf(),
            final(self).color() == old(self).color(),
            (final(self).cells(), final(self).column()) == teletype_string(
                old(self).cells(),
                old(self).column(),
                old(self).color(),
                s.spec_bytes(),
            ),
    {
        let bytes = s.as_bytes();
        let mut i: usize = 0;
        while i < bytes.len()
            invariant
                self.wf(),
                i <= bytes@.len(),
                bytes@ == s.spec_bytes(),
                self.color() == old(self).color(),
                (self.cells(), self.column()) == teletype_string(
                    old(self).cells(),
                    old(self).column(),
                    old(self).color(),
                    bytes@.take(i as int),
                ),
            decreases bytes@.len() - i,
        {
            let byte = bytes[i];
            proof {
                assert(bytes@.take(i + 1).drop_last() == bytes@.take(i as int));
            }
            if (0x20 <= byte && byte <= 0x7e) || byte == LINE_FEED {
                self.write_byte(byte);
            } else {
                self.write_byte(PLACEHOLDER);
            }
            i += 1;
        }
        proof {
            assert(bytes@.take(i as int) == bytes@);
        }
    }
}

} // verus!
