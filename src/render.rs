//! What the game draws: menu and pause text, the score line, paddles and
//! the ball.
use vstd::prelude::*;
use vstd::string::StringSliceAdditionalSpecFns;
use crate::color::{ColorCode, ScreenChar};
use crate::screen::{BUFFER_HEIGHT, BUFFER_WIDTH, SPACE, Writer, string_cells};
use crate::ball::{BallPosition, PongBall, cell_of};
use crate::paddle::Position;

verus! {

/// Byte of a paddle cell.
pub const PADDLE_GLYPH: u8 = 0xfe;

/// Byte of the ball.
pub const BALL_GLYPH: u8 = 0x40;

/// Column of the colon between the two scores.
pub const SCORE_COLUMN: usize = 40;

/// Digits a score field holds: enough for any `u32`.
pub const SCORE_DIGITS: usize = 10;

/// Rows the menu text may cover.
pub const MENU_ROWS: usize = 18;

/// Columns the menu text may cover.
pub const MENU_COLUMNS: usize = 75;

/// The decimal digits of `n`, least significant first; 0 has the one
/// digit 0.
pub open spec fn decimal_digits(n: nat) -> Seq<u8>
    decreases n,
{
    if n < 10 {
        seq![n as u8]
    } else {
        seq![(n % 10) as u8] + decimal_digits(n / 10)
    }
}

/// The byte that the score line shows in column `col`, if it is one of
/// the score line's columns: player 1's score right-aligned to the left of
/// the colon, player 2's left-aligned to its right, blanks around them.
pub open spec fn score_byte(col: int, s1: nat, s2: nat) -> u8 {
    let d1 = decimal_digits(s1);
    let d2 = decimal_digits(s2);
    if col == SCORE_COLUMN {
        0x3a
    } else if col < SCORE_COLUMN {
        let k = SCORE_COLUMN - 1 - col;
        if k < d1.len() {
            (0x30 + d1[k]) as u8
        } else {
            SPACE
        }
    } else {
        let k = col - SCORE_COLUMN - 1;
        if k < d2.len() {
            (0x30 + d2[d2.len() - 1 - k]) as u8
        } else {
            SPACE
        }
    }
}

/// Column `col` lies on the score line.
pub open spec fn in_score_line(col: int) -> bool {
    SCORE_COLUMN - SCORE_DIGITS <= col <= SCORE_COLUMN + SCORE_DIGITS
}

/// The greatest value of a number that has gone through `i` divisions by
/// ten, starting from a `u32`.
pub open spec fn digits_left_bound(i: int) -> int {
    if i <= 0 {
        4294967295
    } else if i == 1 {
        429496729
    } else if i == 2 {
        42949672
    } else if i == 3 {
        4294967
    } else if i == 4 {
        429496
    } else if i == 5 {
        42949
    } else if i == 6 {
        4294
    } else if i == 7 {
        429
    } else if i == 8 {
        42
    } else if i == 9 {
        4
    } else {
        0
    }
}

/// The decimal digits of `n`, least significant first.
pub fn digits_of(n: u32) -> (r: Vec<u8>)
    ensures
        r@ == decimal_digits(n as nat),
        1 <= r@.len() <= SCORE_DIGITS,
        forall|k: int| 0 <= k < r@.len() ==> r@[k] < 10,
{
    let mut r: Vec<u8> = Vec::new();
    let mut cur: u32 = n;
    let mut i: usize = 0;
    let mut done = false;
    while !done
        invariant
            i <= SCORE_DIGITS,
            cur <= digits_left_bound(i as int),
            r@.len() == i,
            forall|k: int| 0 <= k < r@.len() ==> r@[k] < 10,
            done ==> r@ == decimal_digits(n as nat) && i >= 1,
            !done ==> (i == 0 || cur > 0) && r@ + decimal_digits(cur as nat) == decimal_digits(
                n as nat,
            ),
        decreases SCORE_DIGITS - i,
    {
        let d = (cur % 10) as u8;
        proof {
            if cur >= 10 {
                assert(decimal_digits(cur as nat) == seq![d] + decimal_digits((cur / 10) as nat));
                assert(r@.push(d) + decimal_digits((cur / 10) as nat) == r@ + decimal_digits(
                    cur as nat,
                ));
            } else {
                assert(decimal_digits(cur as nat) == seq![d]);
                assert(r@.push(d) == r@ + decimal_digits(cur as nat));
            }
        }
        r.push(d);
        cur = cur / 10;
        i += 1;
        if cur == 0 {
            done = true;
        }
    }
    r
}

/// A blank in `color`.
pub open spec fn blank(color: ColorCode) -> ScreenChar {
    ScreenChar { ascii_character: SPACE, color_code: color }
}

/// The cells after the menu text went on the grid.
pub open spec fn menu_cells(cells: Seq<ScreenChar>, color: ColorCode) -> Seq<ScreenChar> {
    let c1 = string_cells(cells, 4, 38, "Pong!".spec_bytes(), color);
    let c2 = string_cells(c1, 6, 15, "Player1".spec_bytes(), color);
    let c3 = string_cells(c2, 7, 15, "move        : W S".spec_bytes(), color);
    let c4 = string_cells(c3, 8, 15, "change color: A D".spec_bytes(), color);
    let c5 = string_cells(c4, 10, 15, "Player 2".spec_bytes(), color);
    let c6 = string_cells(c5, 11, 15, "move        : Arrow Up   Arrow Down".spec_bytes(), color);
    let c7 = string_cells(c6, 12, 15, "change color: Arrow Left Arrow Right".spec_bytes(), color);
    let c8 = string_cells(c7, 14, 27, "Press ESC to return to Menu".spec_bytes(), color);
    let c9 = string_cells(c8, 15, 25, "Press SPACEBAR to pause/unpause".spec_bytes(), color);
    string_cells(c9, 17, 29, "Press SPACEBAR to start".spec_bytes(), color)
}

/// Writes the title, both players' keys and how to start, pause and
/// return to the menu.
pub fn render_menu_text(writer: &mut Writer)
    requires
        old(writer).wf(),
    ensures
        final(writer).wf(),
        final(writer).color() == old(writer).color(),
        final(writer).column() == old(writer).column(),
        final(writer).cells() == menu_cells(old(writer).cells(), old(writer).color()),
{
    let halfway_point = BUFFER_WIDTH / 2;
    writer.write_string_at_pos(4, halfway_point - 2, "Pong!");
    writer.write_string_at_pos(6, halfway_point - 25, "Player1");
    writer.write_string_at_pos(7, halfway_point - 25, "move        : W S");
    writer.write_string_at_pos(8, halfway_point - 25, "change color: A D");
    writer.write_string_at_pos(10, halfway_point - 25, "Player 2");
    writer.write_string_at_pos(11, halfway_point - 25, "move        : Arrow Up   Arrow Down");
    writer.write_string_at_pos(12, halfway_point - 25, "change color: Arrow Left Arrow Right");
    writer.write_string_at_pos(14, halfway_point - 13, "Press ESC to return to Menu");
    writer.write_string_at_pos(15, halfway_point - 15, "Press SPACEBAR to pause/unpause");
    writer.write_string_at_pos(17, halfway_point - 11, "Press SPACEBAR to start");
}

/// Blanks the area of the menu text: the first `MENU_ROWS` rows, up to
/// column `MENU_COLUMNS`.
pub fn clear_menu_text(writer: &mut Writer)
    requires
        old(writer).wf(),
    ensures
        final(writer).wf(),
        final(writer).color() == old(writer).color(),
        final(writer).column() == old(writer).column(),
        forall|r: int, c: int|
            0 <= r < BUFFER_HEIGHT && 0 <= c < BUFFER_WIDTH ==> #[trigger] final(writer).cell(r, c)
                == if r < MENU_ROWS && c < MENU_COLUMNS {
                blank(old(writer).color())
            } else {
                old(writer).cell(r, c)
            },
{
    let mut row: usize = 0;
    while row < MENU_ROWS
        invariant
            writer.wf(),
            row <= MENU_ROWS,
            writer.color() == old(writer).color(),
            writer.column() == old(writer).column(),
            forall|r: int, c: int|
                0 <= r < BUFFER_HEIGHT && 0 <= c < BUFFER_WIDTH ==> #[trigger] writer.cell(r, c)
                    == if r < row && c < MENU_COLUMNS {
                    blank(old(writer).color())
                } else {
                    old(writer).cell(r, c)
                },
        decreases MENU_ROWS - row,
    {
        let mut col: usize = 0;
        while col < MENU_COLUMNS
            invariant
                writer.wf(),
                row < MENU_ROWS,
                col <= MENU_COLUMNS,
                writer.color() == old(writer).color(),
                writer.column() == old(writer).column(),
                forall|r: int, c: int|
                    0 <= r < BUFFER_HEIGHT && 0 <= c < BUFFER_WIDTH ==> #[trigger] writer.cell(
                        r,
                        c,
                    ) == if (r < row && c < MENU_COLUMNS) || (r == row && c < col) {
                        blank(old(writer).color())
                    } else {
                        old(writer).cell(r, c)
                    },
            decreases MENU_COLUMNS - col,
        {
            writer.write_byte_at_pos(row, col, SPACE);
            col += 1;
        }
        row += 1;
    }
}

/// Writes the pause banner at the top left corner.
pub fn render_pause_text(writer: &mut Writer)
    requires
        old(writer).wf(),
    ensures
        final(writer).wf(),
        final(writer).color() == old(writer).color(),
        final(writer).column() == old(writer).column(),
        final(writer).cells() == string_cells(
            old(writer).cells(),
            0,
            0,
            "PAUSED".spec_bytes(),
            old(writer).color(),
        ),
{
    writer.write_string_at_pos(0, 0, "PAUSED");
}

/// Blanks the pause banner.
pub fn clear_pause_text(writer: &mut Writer)
    requires
        old(writer).wf(),
    ensures
        final(writer).wf(),
        final(writer).color() == old(writer).color(),
        final(writer).column() == old(writer).column(),
        final(writer).cells() == string_cells(
            old(writer).cells(),
            0,
            0,
            "      ".spec_bytes(),
            old(writer).color(),
        ),
{
    writer.write_string_at_pos(0, 0, "      ");
}

/// Writes the score line on the first row: `score.0`, a colon in column
/// `SCORE_COLUMN`, then `score.1`, with the fields around them blanked.
pub fn render_score(writer: &mut Writer, score: (u32, u32))
    requires
        old(writer).wf(),
    ensures
        final(writer).wf(),
        final(writer).color() == old(writer).color(),
        final(writer).column() == old(writer).column(),
        forall|r: int, c: int|
            0 <= r < BUFFER_HEIGHT && 0 <= c < BUFFER_WIDTH ==> #[trigger] final(writer).cell(r, c)
                == if r == 0 && in_score_line(c) {
                ScreenChar {
                    ascii_character: score_byte(c, score.0 as nat, score.1 as nat),
                    color_code: old(writer).color(),
                }
            } else {
                old(writer).cell(r, c)
            },
{
    let d1 = digits_of(score.0);
    let d2 = digits_of(score.1);
    let mut col: usize = SCORE_COLUMN - SCORE_DIGITS;
    while col <= SCORE_COLUMN + SCORE_DIGITS
        invariant
            writer.wf(),
            SCORE_COLUMN - SCORE_DIGITS <= col <= SCORE_COLUMN + SCORE_DIGITS + 1,
            d1@ == decimal_digits(score.0 as nat),
            d2@ == decimal_digits(score.1 as nat),
            1 <= d1@.len() <= SCORE_DIGITS,
            1 <= d2@.len() <= SCORE_DIGITS,
            forall|k: int| 0 <= k < d1@.len() ==> d1@[k] < 10,
            forall|k: int| 0 <= k < d2@.len() ==> d2@[k] < 10,
            writer.color() == old(writer).color(),
            writer.column() == old(writer).column(),
            forall|r: int, c: int|
                0 <= r < BUFFER_HEIGHT && 0 <= c < BUFFER_WIDTH ==> #[trigger] writer.cell(r, c)
                    == if r == 0 && SCORE_COLUMN - SCORE_DIGITS <= c < col {
                    ScreenChar {
                        ascii_character: score_byte(c, score.0 as nat, score.1 as nat),
                        color_code: old(writer).color(),
                    }
                } else {
                    old(writer).cell(r, c)
                },
        decreases SCORE_COLUMN + SCORE_DIGITS + 1 - col,
    {
        let byte: u8 = if col == SCORE_COLUMN {
            0x3a
        } else if col < SCORE_COLUMN {
            let k = SCORE_COLUMN - 1 - col;
            if k < d1.len() {
                0x30 + d1[k]
            } else {
                SPACE
            }
        } else {
            let k = col - SCORE_COLUMN - 1;
            if k < d2.len() {
                0x30 + d2[d2.len() - 1 - k]
            } else {
                SPACE
            }
        };
        writer.write_byte_at_pos(0, col, byte);
        col += 1;
    }
}

/// A paddle cell in `color`.
pub open spec fn paddle_char(color: ColorCode) -> ScreenChar {
    ScreenChar { ascii_character: PADDLE_GLYPH, color_code: color }
}

/// The cell a ball position falls in lies on the grid.
pub open spec fn on_screen(p: BallPosition) -> bool {
    &&& cell_of(p.y as int) < BUFFER_HEIGHT
    &&& cell_of(p.x as int) < BUFFER_WIDTH
}

/// Blanks column `col` on every row.
pub fn clear_column(writer: &mut Writer, col: usize)
    requires
        old(writer).wf(),
        col < BUFFER_WIDTH,
    ensures
        final(writer).wf(),
        final(writer).color() == old(writer).color(),
        final(writer).column() == old(writer).column(),
        forall|r: int, c: int|
            0 <= r < BUFFER_HEIGHT && 0 <= c < BUFFER_WIDTH ==> #[trigger] final(writer).cell(r, c)
                == if c == col {
                blank(old(writer).color())
            } else {
                old(writer).cell(r, c)
            },
{
    let mut row: usize = 0;
    while row < BUFFER_HEIGHT
        invariant
            writer.wf(),
            col < BUFFER_WIDTH,
            row <= BUFFER_HEIGHT,
            writer.color() == old(writer).color(),
            writer.column() == old(writer).column(),
            forall|r: int, c: int|
                0 <= r < BUFFER_HEIGHT && 0 <= c < BUFFER_WIDTH ==> #[trigger] writer.cell(r, c)
                    == if c == col && r < row {
                    blank(old(writer).color())
                } else {
                    old(writer).cell(r, c)
                },
        decreases BUFFER_HEIGHT - row,
    {
        writer.write_byte_at_pos(row, col, SPACE);
        row += 1;
    }
}

/// Draws a paddle centered on `pos` in `color_code`, blanking the rest of
/// its column.
pub fn render_player(writer: &mut Writer, pos: Position, color_code: ColorCode)
    requires
        old(writer).wf(),
        pos.x < BUFFER_WIDTH,
        2 <= pos.y,
        pos.y + 2 < BUFFER_HEIGHT,
    ensures
        final(writer).wf(),
        final(writer).color() == old(writer).color(),
        final(writer).column() == old(writer).column(),
        forall|r: int, c: int|
            0 <= r < BUFFER_HEIGHT && 0 <= c < BUFFER_WIDTH ==> #[trigger] final(writer).cell(r, c)
                == if c == pos.x {
                if pos.y - 2 <= r <= pos.y + 2 {
                    paddle_char(color_code)
                } else {
                    blank(old(writer).color())
                }
            } else {
                old(writer).cell(r, c)
            },
{
    let col = pos.x as usize;
    clear_column(writer, col);
    let mut row: usize = (pos.y - 2) as usize;
    while row < (pos.y + 3) as usize
        invariant
            writer.wf(),
            col == pos.x,
            pos.x < BUFFER_WIDTH,
            2 <= pos.y,
            pos.y + 2 < BUFFER_HEIGHT,
            pos.y - 2 <= row <= pos.y + 3,
            writer.color() == old(writer).color(),
            writer.column() == old(writer).column(),
            forall|r: int, c: int|
                0 <= r < BUFFER_HEIGHT && 0 <= c < BUFFER_WIDTH ==> #[trigger] writer.cell(r, c)
                    == if c == pos.x {
                    if pos.y - 2 <= r < row {
                        paddle_char(color_code)
                    } else {
                        blank(old(writer).color())
                    }
                } else {
                    old(writer).cell(r, c)
                },
        decreases pos.y + 3 - row,
    {
        writer.write_screen_char_at_pos(
            row,
            col,
            ScreenChar { ascii_character: PADDLE_GLYPH, color_code },
        );
        row += 1;
    }
}

/// Blanks the ball's previous cell and draws the ball in its current one,
/// each only where it lies on the grid.
pub fn render_ball(writer: &mut Writer, ball: &PongBall)
    requires
        old(writer).wf(),
    ensures
        final(writer).wf(),
        final(writer).color() == old(writer).color(),
        final(writer).column() == old(writer).column(),
        forall|r: int, c: int|
            0 <= r < BUFFER_HEIGHT && 0 <= c < BUFFER_WIDTH ==> #[trigger] final(writer).cell(r, c)
                == if on_screen(ball.position) && r == cell_of(ball.position.y as int) && c
                == cell_of(ball.position.x as int) {
                ScreenChar { ascii_character: BALL_GLYPH, color_code: old(writer).color() }
            } else if on_screen(ball.last_pos) && r == cell_of(ball.last_pos.y as int) && c
                == cell_of(ball.last_pos.x as int) {
                blank(old(writer).color())
            } else {
                old(writer).cell(r, c)
            },
{
    erase_ball_cell(writer, ball.last_pos);
    let row = crate::ball::cell(ball.position.y);
    let col = crate::ball::cell(ball.position.x);
    if row < BUFFER_HEIGHT as i32 && col < BUFFER_WIDTH as i32 {
        writer.write_byte_at_pos(row as usize, col as usize, BALL_GLYPH);
    }
}

/// Blanks the cell that `p` falls in, where it lies on the grid.
pub fn erase_ball_cell(writer: &mut Writer, p: BallPosition)
    requires
        old(writer).wf(),
    ensures
        final(writer).wf(),
        final(writer).color() == old(writer).color(),
        final(writer).column() == old(writer).column(),
        forall|r: int, c: int|
            0 <= r < BUFFER_HEIGHT && 0 <= c < BUFFER_WIDTH ==> #[trigger] final(writer).cell(r, c)
                == if on_screen(p) && r == cell_of(p.y as int) && c == cell_of(p.x as int) {
                blank(old(writer).color())
            } else {
                old(writer).cell(r, c)
            },
{
    let row = crate::ball::cell(p.y);
    let col = crate::ball::cell(p.x);
    if row < BUFFER_HEIGHT as i32 && col < BUFFER_WIDTH as i32 {
        writer.write_byte_at_pos(row as usize, col as usize, SPACE);
    }
}

} // verus!
