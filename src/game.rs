//! The simulation engine: two paddles, the ball, the score and the colors,
//! advanced one tick at a time.
use vstd::prelude::*;
use crate::ball::{
    BallPosition, CENTER_X, CENTER_Y, PongBall, new_ball, Speed, abs, cell, cell_of, deflected,
    speed_bounded, MAX_X, lemma_deflection_bounded, floor_cell, floor_cells, SERVE_COS_MAX,
    SERVE_ANGLE_MAX, serve_dx, serve_dy,
};
use crate::color::{ColorCode, ScreenChar, color_value};
use crate::config::{ConfigView, GameConfig, color_in, default_player_color, reset_view};
use crate::color::Color;
use crate::paddle::{Key, PADDLE_START_Y, Player, PongBar, moved_row, paddle_column};
use crate::render::{
    BALL_GLYPH, blank, clear_column, erase_ball_cell, in_score_line, menu_cells, on_screen,
    paddle_char, render_ball, render_menu_text, render_player, render_score, score_byte,
};
use crate::screen::{BUFFER_HEIGHT, BUFFER_WIDTH, Writer, cell_index};

verus! {

/// Column of player 2's paddle.
pub const RIGHT_PADDLE_COLUMN: i32 = 78;

/// The ball is at or left of column 2 and level with the left paddle,
/// whose center is on row `py`.
pub open spec fn left_paddle_hit(b: PongBall, py: int) -> bool {
    let bx = cell_of(b.position.x as int);
    let by = cell_of(b.position.y as int);
    bx <= 2 && py - 2 <= by <= py + 2
}

/// The ball is at most one column short of the right paddle and level
/// with it.
pub open spec fn right_paddle_hit(b: PongBall, py: int) -> bool {
    let bx = cell_of(b.position.x as int);
    let by = cell_of(b.position.y as int);
    bx + 1 >= RIGHT_PADDLE_COLUMN && py - 2 <= by <= py + 2
}

/// The player who scores on this tick, if any: the ball, moving toward a
/// paddle that does not cover it, would next reach that side's back
/// column.
pub open spec fn scorer(b: PongBall, p1y: int, p2y: int) -> Option<Player> {
    let next = cell_of(b.position.x + b.speed.dx);
    if b.speed.dx < 0 {
        if !left_paddle_hit(b, p1y) && next <= 0 {
            Some(Player::Player2)
        } else {
            None
        }
    } else {
        if !right_paddle_hit(b, p2y) && next >= BUFFER_WIDTH - 1 {
            Some(Player::Player1)
        } else {
            None
        }
    }
}

/// The ball served anew: at the center with velocity `serve`, its last
/// position where it was.
pub open spec fn served(b: PongBall, serve: Speed) -> PongBall {
    PongBall {
        last_pos: b.position,
        position: BallPosition { x: CENTER_X, y: CENTER_Y },
        speed: serve,
    }
}

/// The ball after the paddle part of collision handling: deflected by the
/// paddle it travels toward if that paddle covers it, served anew if it
/// got past, else unchanged.
pub open spec fn after_paddles(b: PongBall, p1y: int, p2y: int, serve: Speed) -> PongBall {
    let by = cell_of(b.position.y as int);
    if scorer(b, p1y, p2y) is Some {
        served(b, serve)
    } else if b.speed.dx < 0 && left_paddle_hit(b, p1y) {
        PongBall { speed: deflected(b.speed, abs(by - p1y), true), ..b }
    } else if b.speed.dx >= 0 && right_paddle_hit(b, p2y) {
        PongBall { speed: deflected(b.speed, abs(by - p2y), false), ..b }
    } else {
        b
    }
}

/// The ball after the wall part of collision handling, on whole cells: its
/// vertical velocity turns when its row less one is at most the whole
/// cells of an upward move (the first row holds the score), or when its
/// row plus the whole cells of a downward move reaches the bottom row; a
/// ball found below the grid goes back to the row it came from.
pub open spec fn after_walls(b: PongBall) -> PongBall {
    let by = cell_of(b.position.y as int);
    let step = floor_cells(b.speed.dy as int);
    if b.speed.dy < 0 && by - 1 <= abs(step) {
        PongBall { speed: Speed { dy: (-b.speed.dy) as i32, ..b.speed }, ..b }
    } else if b.speed.dy > 0 && by + step >= BUFFER_HEIGHT - 1 {
        let turned = Speed { dy: (-b.speed.dy) as i32, ..b.speed };
        if by >= BUFFER_HEIGHT {
            PongBall {
                speed: turned,
                position: BallPosition { y: b.last_pos.y, ..b.position },
                ..b
            }
        } else {
            PongBall { speed: turned, ..b }
        }
    } else {
        b
    }
}

/// The ball after collision handling against paddles centered on rows
/// `p1y` and `p2y`.
pub open spec fn collided(b: PongBall, p1y: int, p2y: int, serve: Speed) -> PongBall {
    after_walls(after_paddles(b, p1y, p2y, serve))
}

/// The ball after one move.
pub open spec fn moved(b: PongBall) -> PongBall {
    PongBall {
        last_pos: b.position,
        position: BallPosition {
            x: (b.position.x + b.speed.dx) as i32,
            y: (b.position.y + b.speed.dy) as i32,
        },
        speed: b.speed,
    }
}

/// One more point for `who`, a counter staying at its maximum.
pub open spec fn score_after(score: (u32, u32), who: Option<Player>) -> (u32, u32) {
    match who {
        Some(Player::Player1) => (
            if score.0 < u32::MAX {
                (score.0 + 1) as u32
            } else {
                score.0
            },
            score.1,
        ),
        Some(Player::Player2) => (
            score.0,
            if score.1 < u32::MAX {
                (score.1 + 1) as u32
            } else {
                score.1
            },
        ),
        None => score,
    }
}

/// A paddle at its player's start position, with no intent.
pub open spec fn at_start(bar: PongBar, p: Player) -> bool {
    &&& bar.position.x == paddle_column(p)
    &&& bar.position.y == PADDLE_START_Y
    &&& bar.button_pressed == Key::Idle
}

/// The grid after a paddle for `p` at `bar` was drawn in `code` over `old`.
pub open spec fn paddle_drawn(w: Writer, bar: PongBar, code: ColorCode) -> bool {
    forall|r: int|
        0 <= r < BUFFER_HEIGHT ==> #[trigger] w.cell(r, bar.position.x as int) == if bar.position.y
            - 2 <= r <= bar.position.y + 2 {
            paddle_char(code)
        } else {
            blank(w.color())
        }
}

/// The color code of player `p`'s paddle under configuration `v`.
pub open spec fn player_code(v: ConfigView, p: Player) -> ColorCode {
    ColorCode((16 * color_value(v.0) + color_value(color_in(v, p))) as u8)
}

/// The grid after a reset: both paddle columns blanked, and the cell of
/// ball position `p`, where it lies on the grid.
pub open spec fn reset_cells(cells: Seq<ScreenChar>, color: ColorCode, p: BallPosition) -> Seq<
    ScreenChar,
> {
    Seq::new(
        cells.len(),
        |i: int|
            {
                let r = i / BUFFER_WIDTH as int;
                let c = i % BUFFER_WIDTH as int;
                if c == 1 || c == BUFFER_WIDTH - 2 || (on_screen(p) && r == cell_of(p.y as int)
                    && c == cell_of(p.x as int)) {
                    blank(color)
                } else {
                    cells[i]
                }
            },
    )
}

/// A simulation tick from `g` ends a point.
pub open spec fn point_scored(g: GameState) -> bool {
    scorer(
        g.ball,
        moved_row(g.player1.position.y as int, g.player1.button_pressed),
        moved_row(g.player2.position.y as int, g.player2.button_pressed),
    ) is Some
}

/// The score line on the first row shows `score`, in `color`.
pub open spec fn score_shown(w: Writer, score: (u32, u32), color: ColorCode) -> bool {
    forall|c: int|
        in_score_line(c) ==> #[trigger] w.cell(0, c) == (ScreenChar {
            ascii_character: score_byte(c, score.0 as nat, score.1 as nat),
            color_code: color,
        })
}

/// Grid `w` shows the frame of engine `g` in colors `v`: both paddles, the
/// ball in its cell and its previous cell blanked, where those lie on the
/// grid outside the paddle columns.
pub open spec fn frame_drawn(w: Writer, g: GameState, v: ConfigView) -> bool {
    let row = cell_of(g.ball.position.y as int);
    let col = cell_of(g.ball.position.x as int);
    let last_row = cell_of(g.ball.last_pos.y as int);
    let last_col = cell_of(g.ball.last_pos.x as int);
    &&& paddle_drawn(w, g.player1, player_code(v, Player::Player1))
    &&& paddle_drawn(w, g.player2, player_code(v, Player::Player2))
    &&& on_screen(g.ball.position) && col != 1 && col != BUFFER_WIDTH - 2 ==> w.cell(row, col) == (
    ScreenChar { ascii_character: BALL_GLYPH, color_code: w.color() })
    &&& on_screen(g.ball.last_pos) && last_col != 1 && last_col != BUFFER_WIDTH - 2 && !(
    on_screen(g.ball.position) && row == last_row && col == last_col) ==> w.cell(
        last_row,
        last_col,
    ) == blank(w.color())
}

/// `next` is the engine after one simulation tick from `g`, serving with
/// `serve` if a point ends.
pub open spec fn stepped(g: GameState, next: GameState, serve: Speed) -> bool {
    let p1y = moved_row(g.player1.position.y as int, g.player1.button_pressed);
    let p2y = moved_row(g.player2.position.y as int, g.player2.button_pressed);
    let who = scorer(g.ball, p1y, p2y);
    &&& next.ball == moved(collided(g.ball, p1y, p2y, serve))
    &&& next.score == score_after(g.score, who)
    &&& next.config@ == g.config@
    &&& who is Some ==> at_start(next.player1, Player::Player1) && at_start(
        next.player2,
        Player::Player2,
    )
    &&& who is None ==> {
        &&& next.player1.position.y == p1y
        &&& next.player2.position.y == p2y
        &&& next.player1.button_pressed == Key::Idle
        &&& next.player2.button_pressed == Key::Idle
    }
}

/// `next` is the engine after one menu tick from `g`: intents applied,
/// all else kept.
pub open spec fn menu_ticked(g: GameState, next: GameState) -> bool {
    &&& next.player1.position.y == moved_row(
        g.player1.position.y as int,
        g.player1.button_pressed,
    )
    &&& next.player2.position.y == moved_row(
        g.player2.position.y as int,
        g.player2.button_pressed,
    )
    &&& next.player1.button_pressed == Key::Idle
    &&& next.player2.button_pressed == Key::Idle
    &&& next.ball == g.ball
    &&& next.score == g.score
    &&& next.config@ == g.config@
}

/// The engine: both paddles, the ball, the score and the colors.
pub struct GameState {
    pub player1: PongBar,
    pub player2: PongBar,
    pub ball: PongBall,
    pub score: (u32, u32),
    pub config: GameConfig,
}

/// Moves the ball back to the center with velocity `serve`, and blanks
/// the cell it was in.
pub fn reset_ball(ball: &mut PongBall, serve: Speed, writer: &mut Writer)
    requires
        old(writer).wf(),
    ensures
        *final(ball) == served(*old(ball), serve),
        final(writer).wf(),
        final(writer).color() == old(writer).color(),
        final(writer).column() == old(writer).column(),
        forall|r: int, c: int|
            0 <= r < BUFFER_HEIGHT && 0 <= c < BUFFER_WIDTH ==> #[trigger] final(writer).cell(r, c)
                == if on_screen(old(ball).position) && r == cell_of(old(ball).position.y as int)
                && c == cell_of(old(ball).position.x as int) {
                blank(old(writer).color())
            } else {
                old(writer).cell(r, c)
            },
{
    let old_pos = ball.position;
    ball.position = BallPosition::center();
    ball.last_pos = old_pos;
    ball.speed = serve;
    erase_ball_cell(writer, old_pos);
}

impl GameState {
    /// Both paddles stand in their columns within the field, and the ball
    /// is in the field with a bounded velocity.
    pub open spec fn wf(&self) -> bool {
        &&& self.player1.wf(Player::Player1)
        &&& self.player2.wf(Player::Player2)
        &&& self.ball.wf()
    }

    /// A new game: paddles at the start, the ball at the center with
    /// velocity `serve`, no points, default colors; the menu text is drawn.
    pub fn new(writer: &mut Writer, serve: Speed) -> (g: GameState)
        requires
            old(writer).wf(),
            speed_bounded(serve),
        ensures
            g.wf(),
            at_start(g.player1, Player::Player1),
            at_start(g.player2, Player::Player2),
            g.ball == new_ball(serve),
            g.score == (0u32, 0u32),
            g.config@ == (Color::Black, default_player_color(), default_player_color()),
            final(writer).wf(),
            final(writer).color() == old(writer).color(),
            final(writer).column() == old(writer).column(),
            final(writer).cells() == menu_cells(old(writer).cells(), old(writer).color()),
    {
        render_menu_text(writer);
        GameState {
            player1: PongBar::new(Player::Player1),
            player2: PongBar::new(Player::Player2),
            ball: PongBall::new(serve),
            score: (0, 0),
            config: GameConfig::new(),
        }
    }

    /// Puts both paddles back at their start positions, drops their
    /// intents and blanks both paddle columns.
    pub fn reset_players(&mut self, writer: &mut Writer)
        requires
            old(writer).wf(),
        ensures
            at_start(final(self).player1, Player::Player1),
            at_start(final(self).player2, Player::Player2),
            final(self).ball == old(self).ball,
            final(self).score == old(self).score,
            final(self).config@ == old(self).config@,
            final(writer).wf(),
            final(writer).color() == old(writer).color(),
            final(writer).column() == old(writer).column(),
            forall|r: int, c: int|
                0 <= r < BUFFER_HEIGHT && 0 <= c < BUFFER_WIDTH ==> #[trigger] final(writer).cell(
                    r,
                    c,
                ) == if c == 1 || c == BUFFER_WIDTH - 2 {
                    blank(old(writer).color())
                } else {
                    old(writer).cell(r, c)
                },
    {
        self.player1 = PongBar::new(Player::Player1);
        clear_column(writer, 1);
        self.player2 = PongBar::new(Player::Player2);
        clear_column(writer, BUFFER_WIDTH - 2);
    }

    /// Counts a point for `who`, then puts paddles and ball back to the
    /// start, serving with `serve`, and redraws the score.
    fn score_point(&mut self, who: Player, writer: &mut Writer, serve: Speed)
        requires
            old(writer).wf(),
        ensures
            at_start(final(self).player1, Player::Player1),
            at_start(final(self).player2, Player::Player2),
            final(self).ball == served(old(self).ball, serve),
            final(self).score == score_after(old(self).score, Some(who)),
            final(self).config@ == old(self).config@,
            final(writer).wf(),
            final(writer).color() == old(writer).color(),
            final(writer).column() == old(writer).column(),
            forall|c: int|
                in_score_line(c) ==> #[trigger] final(writer).cell(0, c) == (ScreenChar {
                    ascii_character: score_byte(
                        c,
                        final(self).score.0 as nat,
                        final(self).score.1 as nat,
                    ),
                    color_code: old(writer).color(),
                }),
    {
        self.reset_players(writer);
        reset_ball(&mut self.ball, serve, writer);
        match who {
            Player::Player1 => {
                if self.score.0 < u32::MAX {
                    self.score.0 = self.score.0 + 1;
                }
            },
            Player::Player2 => {
                if self.score.1 < u32::MAX {
                    self.score.1 = self.score.1 + 1;
                }
            },
        }
        let score = self.score;
        render_score(writer, score);
    }

    /// Collision handling for the ball where it stands: against the paddle
    /// it travels toward, or that side's back column, which scores a point
    /// and serves anew with `serve`; then against the top and bottom walls.
    pub fn eval_collisions(&mut self, writer: &mut Writer, serve: Speed)
        requires
            old(self).wf(),
            speed_bounded(serve),
            old(writer).wf(),
        ensures
            final(self).ball == collided(
                old(self).ball,
                old(self).player1.position.y as int,
                old(self).player2.position.y as int,
                serve,
            ),
            final(self).score == score_after(
                old(self).score,
                scorer(
                    old(self).ball,
                    old(self).player1.position.y as int,
                    old(self).player2.position.y as int,
                ),
            ),
            final(self).config@ == old(self).config@,
            scorer(
                old(self).ball,
                old(self).player1.position.y as int,
                old(self).player2.position.y as int,
            ) is Some ==> {
                &&& at_start(final(self).player1, Player::Player1)
                &&& at_start(final(self).player2, Player::Player2)
                &&& forall|c: int|
                    in_score_line(c) ==> #[trigger] final(writer).cell(0, c) == (ScreenChar {
                        ascii_character: score_byte(
                            c,
                            final(self).score.0 as nat,
                            final(self).score.1 as nat,
                        ),
                        color_code: old(writer).color(),
                    })
            },
            scorer(
                old(self).ball,
                old(self).player1.position.y as int,
                old(self).player2.position.y as int,
            ) is None ==> {
                &&& final(self).player1 == old(self).player1
                &&& final(self).player2 == old(self).player2
                &&& final(writer).cells() == old(writer).cells()
            },
            final(self).player1.wf(Player::Player1),
            final(self).player2.wf(Player::Player2),
            final(writer).wf(),
            final(writer).color() == old(writer).color(),
            final(writer).column() == old(writer).column(),
    {
        let ghost b0 = self.ball;
        let bx = cell(self.ball.position.x);
        let by = cell(self.ball.position.y);
        let mut point: Option<Player> = None;
        if self.ball.speed.dx < 0 {
            let py = self.player1.position.y as i32;
            if bx <= 2 && by >= py - 2 && by <= py + 2 {
                let diff = if by >= py {
                    by - py
                } else {
                    py - by
                };
                self.ball.speed = self.ball.speed.deflect(diff, true);
            } else if cell(self.ball.position.x + self.ball.speed.dx) <= 0 {
                point = Some(Player::Player2);
            }
        } else {
            let py = self.player2.position.y as i32;
            if bx + 1 >= RIGHT_PADDLE_COLUMN && by >= py - 2 && by <= py + 2 {
                let diff = if by >= py {
                    by - py
                } else {
                    py - by
                };
                self.ball.speed = self.ball.speed.deflect(diff, false);
            } else if cell(self.ball.position.x + self.ball.speed.dx) >= (BUFFER_WIDTH - 1) as i32 {
                point = Some(Player::Player1);
            }
        }
        assert(point == scorer(b0, old(self).player1.position.y as int, old(self).player2.position.y as int));
        match point {
            Some(who) => {
                self.score_point(who, writer, serve);
            },
            None => {},
        }
        assert(self.ball == after_paddles(b0, old(self).player1.position.y as int, old(self).player2.position.y as int, serve));
        let dy = self.ball.speed.dy;
        let row = cell(self.ball.position.y);
        let step = floor_cell(dy);
        if dy < 0 && row - 1 <= -step {
            self.ball.speed.dy = -dy;
        } else if dy > 0 && row + step >= (BUFFER_HEIGHT - 1) as i32 {
            self.ball.speed.dy = -dy;
            if row >= BUFFER_HEIGHT as i32 {
                self.ball.position.y = self.ball.last_pos.y;
            }
        }
    }

    /// One simulation tick: apply both paddles' intents, handle collisions
    /// (serving with `serve` if a point ends), move the ball, and draw the
    /// ball and both paddles.
    pub fn step(&mut self, writer: &mut Writer, serve: Speed)
        requires
            old(self).wf(),
            speed_bounded(serve),
            old(writer).wf(),
        ensures
            final(self).wf(),
            stepped(*old(self), *final(self), serve),
            frame_drawn(*final(writer), *final(self), old(self).config@),
            point_scored(*old(self)) ==> score_shown(
                *final(writer),
                final(self).score,
                old(writer).color(),
            ),
            final(self).ball == moved(
                collided(
                    old(self).ball,
                    moved_row(old(self).player1.position.y as int, old(self).player1.button_pressed),
                    moved_row(old(self).player2.position.y as int, old(self).player2.button_pressed),
                    serve,
                ),
            ),
            final(self).score == score_after(
                old(self).score,
                scorer(
                    old(self).ball,
                    moved_row(old(self).player1.position.y as int, old(self).player1.button_pressed),
                    moved_row(old(self).player2.position.y as int, old(self).player2.button_pressed),
                ),
            ),
            final(self).config@ == old(self).config@,
            scorer(
                old(self).ball,
                moved_row(old(self).player1.position.y as int, old(self).player1.button_pressed),
                moved_row(old(self).player2.position.y as int, old(self).player2.button_pressed),
            ) is Some ==> at_start(final(self).player1, Player::Player1) && at_start(
                final(self).player2,
                Player::Player2,
            ),
            scorer(
                old(self).ball,
                moved_row(old(self).player1.position.y as int, old(self).player1.button_pressed),
                moved_row(old(self).player2.position.y as int, old(self).player2.button_pressed),
            ) is None ==> {
                &&& final(self).player1.position.y == moved_row(
                    old(self).player1.position.y as int,
                    old(self).player1.button_pressed,
                )
                &&& final(self).player2.position.y == moved_row(
                    old(self).player2.position.y as int,
                    old(self).player2.button_pressed,
                )
                &&& final(self).player1.button_pressed == Key::Idle
                &&& final(self).player2.button_pressed == Key::Idle
            },
            final(writer).wf(),
            final(writer).color() == old(writer).color(),
            final(writer).column() == old(writer).column(),
            paddle_drawn(
                *final(writer),
                final(self).player1,
                player_code(old(self).config@, Player::Player1),
            ),
            paddle_drawn(
                *final(writer),
                final(self).player2,
                player_code(old(self).config@, Player::Player2),
            ),
            on_screen(final(self).ball.position) && cell_of(final(self).ball.position.x as int)
                != 1 && cell_of(final(self).ball.position.x as int) != BUFFER_WIDTH - 2 ==> final(writer).cell(
                cell_of(final(self).ball.position.y as int),
                cell_of(final(self).ball.position.x as int),
            ) == (ScreenChar { ascii_character: BALL_GLYPH, color_code: old(writer).color() }),
    {
        self.player1.move_player();
        self.player2.move_player();
        let ghost before = self.ball;
        self.eval_collisions(writer, serve);
        proof {
            lemma_collision_keeps_ball_in_field(
                before,
                self.player1.position.y as int,
                self.player2.position.y as int,
                serve,
            );
        }
        self.ball.move_ball();
        render_ball(writer, &self.ball);
        self.render_players(writer);
    }

    /// Draws both paddles in their players' colors.
    fn render_players(&self, writer: &mut Writer)
        requires
            self.player1.wf(Player::Player1),
            self.player2.wf(Player::Player2),
            old(writer).wf(),
        ensures
            final(writer).wf(),
            final(writer).color() == old(writer).color(),
            final(writer).column() == old(writer).column(),
            paddle_drawn(*final(writer), self.player1, player_code(self.config@, Player::Player1)),
            paddle_drawn(*final(writer), self.player2, player_code(self.config@, Player::Player2)),
            forall|r: int, c: int|
                0 <= r < BUFFER_HEIGHT && 0 <= c < BUFFER_WIDTH && c != 1 && c != BUFFER_WIDTH
                    - 2 ==> #[trigger] final(writer).cell(r, c) == old(writer).cell(r, c),
    {
        let code1 = self.config.player_color_code(Player::Player1);
        render_player(writer, self.player1.position, code1);
        let ghost mid = *writer;
        let code2 = self.config.player_color_code(Player::Player2);
        render_player(writer, self.player2.position, code2);
        assert forall|r: int| 0 <= r < BUFFER_HEIGHT implies #[trigger] writer.cell(
            r,
            self.player1.position.x as int,
        ) == mid.cell(r, self.player1.position.x as int) by {}
    }

    /// One menu tick: apply both paddles' intents and draw the paddles; the
    /// ball and the score stay as they are.
    pub fn show_menu(&mut self, writer: &mut Writer)
        requires
            old(self).wf(),
            old(writer).wf(),
        ensures
            final(self).wf(),
            menu_ticked(*old(self), *final(self)),
            final(self).player1.position.y == moved_row(
                old(self).player1.position.y as int,
                old(self).player1.button_pressed,
            ),
            final(self).player2.position.y == moved_row(
                old(self).player2.position.y as int,
                old(self).player2.button_pressed,
            ),
            final(self).player1.button_pressed == Key::Idle,
            final(self).player2.button_pressed == Key::Idle,
            final(self).ball == old(self).ball,
            final(self).score == old(self).score,
            final(self).config@ == old(self).config@,
            final(writer).wf(),
            final(writer).color() == old(writer).color(),
            final(writer).column() == old(writer).column(),
            paddle_drawn(
                *final(writer),
                final(self).player1,
                player_code(old(self).config@, Player::Player1),
            ),
            paddle_drawn(
                *final(writer),
                final(self).player2,
                player_code(old(self).config@, Player::Player2),
            ),
    {
        self.player1.move_player();
        self.player2.move_player();
        self.render_players(writer);
    }

    /// Starts the match over: paddles and ball back at the start, the ball
    /// served with `serve`, no points, default colors.
    pub fn reset(&mut self, writer: &mut Writer, serve: Speed)
        requires
            old(self).wf(),
            speed_bounded(serve),
            old(writer).wf(),
        ensures
            final(self).wf(),
            at_start(final(self).player1, Player::Player1),
            at_start(final(self).player2, Player::Player2),
            final(self).ball == served(old(self).ball, serve),
            final(self).score == (0u32, 0u32),
            final(self).config@ == reset_view(old(self).config@),
            final(writer).wf(),
            final(writer).color() == old(writer).color(),
            final(writer).column() == old(writer).column(),
            final(writer).cells() == reset_cells(
                old(writer).cells(),
                old(writer).color(),
                old(self).ball.position,
            ),
            forall|r: int, c: int|
                0 <= r < BUFFER_HEIGHT && 0 <= c < BUFFER_WIDTH ==> #[trigger] final(writer).cell(
                    r,
                    c,
                ) == if c == 1 || c == BUFFER_WIDTH - 2 || (on_screen(old(self).ball.position)
                    && r == cell_of(old(self).ball.position.y as int) && c == cell_of(
                    old(self).ball.position.x as int,
                )) {
                    blank(old(writer).color())
                } else {
                    old(writer).cell(r, c)
                },
    {
        self.reset_players(writer);
        reset_ball(&mut self.ball, serve, writer);
        self.score = (0, 0);
        self.config.reset_colors();
        proof {
            let expected = reset_cells(old(writer).cells(), old(writer).color(), old(self).ball.position);
            assert forall|i: int| 0 <= i < writer.cells().len() implies writer.cells()[i]
                == expected[i] by {
                let r = i / BUFFER_WIDTH as int;
                let c = i % BUFFER_WIDTH as int;
                assert(i == cell_index(r, c) && 0 <= r < BUFFER_HEIGHT) by (nonlinear_arith)
                    requires
                        0 <= i < 2000,
                        r == i / 80,
                        c == i % 80,
                ;
                assert(writer.cell(r, c) == writer.cells()[i]);
            }
            assert(writer.cells() =~= expected);
        }
    }
}

/// After the paddle part of collision handling the ball is still in the
/// field with a bounded velocity, and its next horizontal position too.
pub proof fn lemma_paddles_keep_ball_in_field(b: PongBall, p1y: int, p2y: int, serve: Speed)
    requires
        b.wf(),
        3 <= p1y <= 21,
        3 <= p2y <= 21,
        speed_bounded(serve),
    ensures
        after_paddles(b, p1y, p2y, serve).wf(),
        0 <= after_paddles(b, p1y, p2y, serve).position.x + after_paddles(
            b,
            p1y,
            p2y,
            serve,
        ).speed.dx <= MAX_X,
{
    let a = after_paddles(b, p1y, p2y, serve);
    let by = cell_of(b.position.y as int);
    if scorer(b, p1y, p2y) is Some {
    } else if b.speed.dx < 0 && left_paddle_hit(b, p1y) {
        lemma_deflection_bounded(b.speed, abs(by - p1y), true);
        assert(b.position.x < 300);
    } else if b.speed.dx >= 0 && right_paddle_hit(b, p2y) {
        lemma_deflection_bounded(b.speed, abs(by - p2y), false);
        assert(b.position.x >= 7700);
    } else if b.speed.dx < 0 {
        assert(b.position.x + b.speed.dx >= 100);
    } else {
        assert(b.position.x + b.speed.dx < 7900);
    }
}

/// A ball in the field whose next horizontal position is in the field,
/// handled against the walls and then moved, is still in the field with a
/// bounded velocity.
pub proof fn lemma_walls_keep_ball_in_field(a: PongBall)
    requires
        a.wf(),
        0 <= a.position.x + a.speed.dx <= MAX_X,
    ensures
        moved(after_walls(a)).wf(),
        speed_bounded(after_walls(a).speed),
        abs(after_walls(a).position.x as int) <= 16000,
        abs(after_walls(a).position.y as int) <= 16000,
{
    let y = a.position.y as int;
    let dy = a.speed.dy as int;
    let by = cell_of(y);
    let step = floor_cells(dy);
    assert(100 * by <= y < 100 * by + 100);
    assert(100 * step <= dy < 100 * step + 100);
}

/// A ball in the field, handled against paddles within the field and then
/// moved, is still in the field with a bounded velocity.
pub proof fn lemma_collision_keeps_ball_in_field(b: PongBall, p1y: int, p2y: int, serve: Speed)
    requires
        b.wf(),
        3 <= p1y <= 21,
        3 <= p2y <= 21,
        speed_bounded(serve),
    ensures
        moved(collided(b, p1y, p2y, serve)).wf(),
        speed_bounded(collided(b, p1y, p2y, serve).speed),
        abs(collided(b, p1y, p2y, serve).position.x as int) <= 16000,
        abs(collided(b, p1y, p2y, serve).position.y as int) <= 16000,
{
    lemma_paddles_keep_ball_in_field(b, p1y, p2y, serve);
    lemma_walls_keep_ball_in_field(after_paddles(b, p1y, p2y, serve));
}

/// When a point ends, the ball is served anew whatever its velocity was:
/// it leaves the center with exactly the serve velocity made from cosine
/// `c` and angle `a` (in hundredths), which is 0.9 to 3 cells per tick
/// across and at most 2.52 cells per tick down.
pub proof fn lemma_point_serves_anew(b: PongBall, p1y: int, p2y: int, c: int, a: int)
    requires
        b.wf(),
        3 <= p1y <= 21,
        3 <= p2y <= 21,
        scorer(b, p1y, p2y) is Some,
        -SERVE_COS_MAX <= c <= SERVE_COS_MAX,
        0 <= a <= SERVE_ANGLE_MAX,
    ensures
        ({
            let s = Speed { dx: serve_dx(c) as i32, dy: serve_dy(a) as i32 };
            let n = collided(b, p1y, p2y, s);
            &&& n.speed == s
            &&& n.position == (BallPosition { x: CENTER_X, y: CENTER_Y })
            &&& n.last_pos == b.position
            &&& 90 <= abs(n.speed.dx as int) <= 300
            &&& 0 <= n.speed.dy <= 252
        }),
{
    let s = Speed { dx: serve_dx(c) as i32, dy: serve_dy(a) as i32 };
    let m = after_paddles(b, p1y, p2y, s);
    assert(m == served(b, s));
    assert(floor_cells(s.dy as int) <= 2);
}

} // verus!
