//! Color choices: one foreground color per player over a shared background.
use vstd::prelude::*;
use crate::color::{Color, ColorCode, color_value};
use crate::paddle::Player;

verus! {

/// Color both players have at the start and after a reset.
pub open spec fn default_player_color() -> Color {
    Color::Yellow
}

/// The configuration as `(background, player 1's color, player 2's color)`.
pub type ConfigView = (Color, Color, Color);

/// The configuration after a color reset: both players back to the
/// default color, the background kept.
pub open spec fn reset_view(v: ConfigView) -> ConfigView {
    (v.0, default_player_color(), default_player_color())
}

/// The configuration with player `p`'s color set to `c`.
pub open spec fn with_color(v: ConfigView, p: Player, c: Color) -> ConfigView {
    match p {
        Player::Player1 => (v.0, c, v.2),
        Player::Player2 => (v.0, v.1, c),
    }
}

/// Player `p`'s color in `v`.
pub open spec fn color_in(v: ConfigView, p: Player) -> Color {
    match p {
        Player::Player1 => v.1,
        Player::Player2 => v.2,
    }
}

/// The colors the game draws with.
pub struct GameConfig {
    background: Color,
    colors: (Color, Color),
}

impl GameConfig {
    pub closed spec fn view(&self) -> ConfigView {
        (self.background, self.colors.0, self.colors.1)
    }

    /// Black background, both players in the default color.
    pub fn new() -> (c: GameConfig)
        ensures
            c@ == (Color::Black, default_player_color(), default_player_color()),
    {
        GameConfig { background: Color::Black, colors: (Color::Yellow, Color::Yellow) }
    }

    /// Sets player `p`'s color to `c`.
    pub fn set_color(&mut self, c: Color, p: Player)
        ensures
            final(self)@ == with_color(old(self)@, p, c),
    {
        match p {
            Player::Player1 => {
                self.colors.0 = c;
            },
            Player::Player2 => {
                self.colors.1 = c;
            },
        }
    }

    /// Player `p`'s color.
    pub fn player_color(&self, p: Player) -> (c: Color)
        ensures
            c == color_in(self@, p),
    {
        match p {
            Player::Player1 => self.colors.0,
            Player::Player2 => self.colors.1,
        }
    }

    /// The shared background color.
    pub fn background(&self) -> (c: Color)
        ensures
            c == self@.0,
    {
        self.background
    }

    /// Player `p`'s color over the background, packed for the display.
    pub fn player_color_code(&self, p: Player) -> (code: ColorCode)
        ensures
            code.0 == 16 * color_value(self@.0) + color_value(color_in(self@, p)),
    {
        let color = self.player_color(p);
        ColorCode::new(color, self.background)
    }

    /// Puts both players back to the default color.
    pub fn reset_colors(&mut self)
        ensures
            final(self)@ == reset_view(old(self)@),
    {
        self.colors = (Color::Yellow, Color::Yellow);
    }
}

impl Default for GameConfig {
    fn default() -> (c: GameConfig)
        ensures
            c@ == (Color::Black, default_player_color(), default_player_color()),
    {
        GameConfig::new()
    }
}

/// Resetting the colors twice leaves the same configuration as once.
pub proof fn lemma_reset_colors_idempotent(v: ConfigView)
    ensures
        reset_view(reset_view(v)) == reset_view(v),
{
}

} // verus!
