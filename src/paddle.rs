//! Paddles: a fixed column, a row, and the one-slot movement intent that
//! key presses leave for the next tick.
use vstd::prelude::*;
use crate::screen::{BUFFER_HEIGHT, BUFFER_WIDTH};

verus! {

/// Pending movement of a paddle.
#[derive(Debug, Clone, Copy, PartialEq, Eq, Structural)]
pub enum Key {
    Up,
    Down,
    Idle,
}

/// One of the two players.
#[derive(Debug, Clone, Copy, PartialEq, Eq, Structural)]
pub enum Player {
    Player1,
    Player2,
}

/// A cell position: column `x`, row `y`.
#[derive(Debug, Clone, Copy, PartialEq, Eq, Structural)]
pub struct Position {
    pub x: u8,
    pub y: u8,
}

/// Lowest row a paddle's center may take: its five cells then start at row 1.
pub const PADDLE_MIN_Y: u8 = 3;

/// Highest row a paddle's center may take: its five cells then end one row
/// above the bottom row.
pub const PADDLE_MAX_Y: u8 = 21;

/// Row of a paddle's center at the start.
pub const PADDLE_START_Y: u8 = 12;

/// Column of a player's paddle.
pub open spec fn paddle_column(p: Player) -> int {
    match p {
        Player::Player1 => 1,
        Player::Player2 => BUFFER_WIDTH - 2,
    }
}

/// Row of a paddle's center after one tick with intent `key`.
pub open spec fn moved_row(y: int, key: Key) -> int {
    match key {
        Key::Up => if y - 3 > 0 { y - 1 } else { y },
        Key::Down => if y + 3 < BUFFER_HEIGHT - 1 { y + 1 } else { y },
        Key::Idle => y,
    }
}

/// Row of a paddle's center after one tick for each intent of `keys`.
pub open spec fn rows_after(y: int, keys: Seq<Key>) -> int
    decreases keys.len(),
{
    if keys.len() == 0 {
        y
    } else {
        moved_row(rows_after(y, keys.drop_last()), keys.last())
    }
}

/// A paddle: where it stands and what its player last asked of it.
#[derive(Debug, Clone, Copy, PartialEq, Eq, Structural)]
pub struct PongBar {
    pub position: Position,
    pub button_pressed: Key,
}

impl PongBar {
    /// The paddle stands in its player's column, its five cells clear of
    /// the first and the last row.
    pub open spec fn wf(&self, p: Player) -> bool {
        &&& self.position.x == paddle_column(p)
        &&& PADDLE_MIN_Y <= self.position.y <= PADDLE_MAX_Y
    }

    /// A paddle at its player's start position, with no intent.
    pub fn new(player: Player) -> (bar: PongBar)
        ensures
            bar.wf(player),
            bar.position.y == PADDLE_START_Y,
            bar.button_pressed == Key::Idle,
    {
        let x: u8 = match player {
            Player::Player1 => 1,
            Player::Player2 => (BUFFER_WIDTH - 2) as u8,
        };
        PongBar { position: Position { x, y: PADDLE_START_Y }, button_pressed: Key::Idle }
    }

    /// Records the intent `key` for the next tick.
    pub fn press(&mut self, key: Key)
        ensures
            final(self).position == old(self).position,
            final(self).button_pressed == key,
    {
        self.button_pressed = key;
    }

    /// Applies and clears the pending intent: up or down by one row,
    /// unless that would take the paddle onto the first or last row.
    pub fn move_player(&mut self)
        requires
            PADDLE_MIN_Y <= old(self).position.y <= PADDLE_MAX_Y,
        ensures
            final(self).position.x == old(self).position.x,
            final(self).position.y == moved_row(
                old(self).position.y as int,
                old(self).button_pressed,
            ),
            PADDLE_MIN_Y <= final(self).position.y <= PADDLE_MAX_Y,
            final(self).button_pressed == Key::Idle,
    {
        match self.button_pressed {
            Key::Up => {
                if self.position.y - 3 > 0 {
                    self.position.y = self.position.y - 1;
                }
                self.button_pressed = Key::Idle;
            },
            Key::Down => {
                if (self.position.y as usize) + 3 < BUFFER_HEIGHT - 1 {
                    self.position.y = self.position.y + 1;
                }
                self.button_pressed = Key::Idle;
            },
            Key::Idle => {},
        }
    }
}

/// Whatever intents arrive, tick after tick, a paddle that starts in the
/// middle keeps its five cells `y - 2 ..= y + 2` off the first row and off
/// the last row.
pub proof fn lemma_paddle_stays_on_field(keys: Seq<Key>)
    ensures
        PADDLE_MIN_Y <= rows_after(PADDLE_START_Y as int, keys) <= PADDLE_MAX_Y,
        rows_after(PADDLE_START_Y as int, keys) - 2 > 0,
        rows_after(PADDLE_START_Y as int, keys) + 2 < BUFFER_HEIGHT - 1,
    decreases keys.len(),
{
    if keys.len() > 0 {
        lemma_paddle_stays_on_field(keys.drop_last());
    }
}

} // verus!
