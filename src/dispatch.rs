//! What a timer tick and a key event do to the game: which phase comes
//! next, what the engine does, what is drawn.
use vstd::prelude::*;
use vstd::string::StringSliceAdditionalSpecFns;
use pc_keyboard::KeyCode as PcKey;
use pc_keyboard::KeyEvent as PcKeyEvent;
use pc_keyboard::KeyState as PcKeyState;
use pc_keyboard::ScancodeSet1;
use crate::ball::{Speed, speed_bounded};
use crate::color::{next_spec, previous_spec};
use crate::config::{ConfigView, reset_view, with_color};
use crate::game::{
    GameState, at_start, frame_drawn, menu_ticked, paddle_drawn, player_code, point_scored,
    reset_cells, score_shown, served, stepped,
};
use crate::location::{GlobalStateLocation, StateLocation, Timer};
use crate::paddle::{Key, Player};
use crate::render::{
    MENU_COLUMNS, MENU_ROWS, blank, clear_menu_text, clear_pause_text, menu_cells, render_menu_text,
    render_pause_text,
};
use crate::screen::{BUFFER_HEIGHT, BUFFER_WIDTH, Writer, string_cells};

verus! {

#[verifier::external_type_specification]
#[verifier::external_body]
pub struct ExScancodeSet1(pc_keyboard::ScancodeSet1);

#[verifier::external_type_specification]
#[verifier::external_body]
pub struct ExPcKeyEvent(PcKeyEvent);

/// Relies on pc_keyboard's scan code set 1 decoder (`ScancodeSet::advance_state`):
/// it takes one byte of keyboard output and returns a key event once a
/// key's code is complete, an error on a code it does not know (taken here
/// as no event). Which event comes depends on the decoder's state, so
/// nothing is claimed of it.
#[verifier::external_body]
fn advance_decoder(decoder: &mut ScancodeSet1, byte: u8) -> Option<PcKeyEvent> {
    pc_keyboard::ScancodeSet::advance_state(decoder, byte).ok().flatten()
}

/// Relies on the variants of pc_keyboard's `KeyCode` and `KeyState`: names
/// the keys the game reacts to, and tells a key going down from the rest.
#[verifier::external_body]
fn game_event(ev: &PcKeyEvent) -> KeyEvent {
    let code = match ev.code {
        PcKey::W => GameKey::W, PcKey::S => GameKey::S, PcKey::A => GameKey::A,
        PcKey::D => GameKey::D, PcKey::ArrowUp => GameKey::ArrowUp,
        PcKey::ArrowDown => GameKey::ArrowDown, PcKey::ArrowLeft => GameKey::ArrowLeft,
        PcKey::ArrowRight => GameKey::ArrowRight, PcKey::Spacebar => GameKey::Spacebar,
        PcKey::Escape => GameKey::Escape, _ => GameKey::Other,
    };
    let state = match ev.state {
        PcKeyState::Down => KeyState::Down,
        _ => KeyState::Up,
    };
    KeyEvent { code, state }
}

/// Ticks per simulation tick.
pub const TICK_DIVISOR: u8 = 3;

/// Amount a key event adds to the tick counter, to stir the serve.
pub const KEY_TICK_STIR: u8 = 3;

/// The keys the game reacts to.
#[derive(Debug, Clone, Copy, PartialEq, Eq, Structural)]
pub enum GameKey {
    W,
    S,
    A,
    D,
    ArrowUp,
    ArrowDown,
    ArrowLeft,
    ArrowRight,
    Spacebar,
    Escape,
    Other,
}

/// Whether a key went down or came up.
#[derive(Debug, Clone, Copy, PartialEq, Eq, Structural)]
pub enum KeyState {
    Down,
    Up,
}

/// A key going down or coming up.
#[derive(Debug, Clone, Copy, PartialEq, Eq, Structural)]
pub struct KeyEvent {
    pub code: GameKey,
    pub state: KeyState,
}

/// `ev` is key `k` going down.
pub open spec fn is_down(ev: KeyEvent, k: GameKey) -> bool {
    ev.code == k && ev.state == KeyState::Down
}

/// The phase after event `ev` in phase `s`: the space bar starts play from
/// the menu and toggles pause, escape returns to the menu.
pub open spec fn phase_after_key(s: StateLocation, ev: KeyEvent) -> StateLocation {
    if is_down(ev, GameKey::Spacebar) {
        match s {
            StateLocation::Menu => StateLocation::Running,
            StateLocation::Running => StateLocation::Paused,
            StateLocation::Paused => StateLocation::Running,
        }
    } else if is_down(ev, GameKey::Escape) {
        StateLocation::Menu
    } else {
        s
    }
}

/// Escape in play or in pause resets the engine.
pub open spec fn resets(s: StateLocation, ev: KeyEvent) -> bool {
    is_down(ev, GameKey::Escape) && s != StateLocation::Menu
}

/// The colors after event `ev` in phase `s`: in the menu, A and D step
/// player 1's color back and forth, the right and left arrows player 2's;
/// a reset restores the defaults.
pub open spec fn colors_after_key(s: StateLocation, v: ConfigView, ev: KeyEvent) -> ConfigView {
    if s == StateLocation::Menu && is_down(ev, GameKey::A) {
        with_color(v, Player::Player1, previous_spec(v.1))
    } else if s == StateLocation::Menu && is_down(ev, GameKey::D) {
        with_color(v, Player::Player1, next_spec(v.1))
    } else if s == StateLocation::Menu && is_down(ev, GameKey::ArrowRight) {
        with_color(v, Player::Player2, previous_spec(v.2))
    } else if s == StateLocation::Menu && is_down(ev, GameKey::ArrowLeft) {
        with_color(v, Player::Player2, next_spec(v.2))
    } else if resets(s, ev) {
        reset_view(v)
    } else {
        v
    }
}

/// Player 1's intent after `ev`: W asks for up, S for down.
pub open spec fn intent1_after_key(k: Key, ev: KeyEvent) -> Key {
    if is_down(ev, GameKey::W) {
        Key::Up
    } else if is_down(ev, GameKey::S) {
        Key::Down
    } else {
        k
    }
}

/// Player 2's intent after `ev`: the up arrow asks for up, the down arrow
/// for down.
pub open spec fn intent2_after_key(k: Key, ev: KeyEvent) -> Key {
    if is_down(ev, GameKey::ArrowUp) {
        Key::Up
    } else if is_down(ev, GameKey::ArrowDown) {
        Key::Down
    } else {
        k
    }
}

/// `g1` and `s1` are the engine and the phase after event `ev` arrived in
/// phase `s0` with the engine at `g0`, serving with `serve` on a reset.
pub open spec fn key_handled(
    s0: StateLocation,
    s1: StateLocation,
    g0: GameState,
    g1: GameState,
    ev: KeyEvent,
    serve: Speed,
) -> bool {
    &&& s1 == phase_after_key(s0, ev)
    &&& g1.config@ == colors_after_key(s0, g0.config@, ev)
    &&& resets(s0, ev) ==> {
        &&& at_start(g1.player1, Player::Player1)
        &&& at_start(g1.player2, Player::Player2)
        &&& g1.ball == served(g0.ball, serve)
        &&& g1.score == (0u32, 0u32)
    }
    &&& !resets(s0, ev) ==> {
        &&& g1.player1.position == g0.player1.position
        &&& g1.player2.position == g0.player2.position
        &&& g1.player1.button_pressed == intent1_after_key(g0.player1.button_pressed, ev)
        &&& g1.player2.button_pressed == intent2_after_key(g0.player2.button_pressed, ev)
        &&& g1.ball == g0.ball
        &&& g1.score == g0.score
    }
}

/// Handles one key event: records paddle intents, steps colors in the
/// menu, moves the phase on, and on escape from play or pause resets the
/// engine (serving with `serve`) and shows the menu again.
pub fn handle_key(
    phase: &mut GlobalStateLocation,
    game: &mut GameState,
    writer: &mut Writer,
    event: KeyEvent,
    serve: Speed,
)
    requires
        old(phase).wf(),
        old(game).wf(),
        old(writer).wf(),
        speed_bounded(serve),
    ensures
        final(phase).wf(),
        final(game).wf(),
        key_handled(old(phase)@, final(phase)@, *old(game), *final(game), event, serve),
        is_down(event, GameKey::Spacebar) && old(phase)@ == StateLocation::Running ==> final(writer).cells() == string_cells(
            old(writer).cells(),
            0,
            0,
            "PAUSED".spec_bytes(),
            old(writer).color(),
        ),
        is_down(event, GameKey::Spacebar) && old(phase)@ == StateLocation::Paused ==> final(writer).cells() == string_cells(
            old(writer).cells(),
            0,
            0,
            "      ".spec_bytes(),
            old(writer).color(),
        ),
        is_down(event, GameKey::Spacebar) && old(phase)@ == StateLocation::Menu ==> forall|
            r: int,
            c: int,
        |
            0 <= r < BUFFER_HEIGHT && 0 <= c < BUFFER_WIDTH ==> #[trigger] final(writer).cell(r, c)
                == if r < MENU_ROWS && c < MENU_COLUMNS {
                blank(old(writer).color())
            } else {
                old(writer).cell(r, c)
            },
        is_down(event, GameKey::Escape) && old(phase)@ == StateLocation::Menu ==> final(writer).cells() == menu_cells(old(writer).cells(), old(writer).color()),
        resets(old(phase)@, event) ==> final(writer).cells() == menu_cells(
            reset_cells(old(writer).cells(), old(writer).color(), old(game).ball.position),
            old(writer).color(),
        ),
        !is_down(event, GameKey::Spacebar) && !is_down(event, GameKey::Escape) ==> final(writer).cells() == old(writer).cells(),
        final(writer).wf(),
        final(writer).color() == old(writer).color(),
        final(writer).column() == old(writer).column(),
{
    let location = phase.read();
    match (event.code, event.state) {
        (GameKey::W, KeyState::Down) => {
            game.player1.press(Key::Up);
        },
        (GameKey::S, KeyState::Down) => {
            game.player1.press(Key::Down);
        },
        (GameKey::A, KeyState::Down) => {
            if location == StateLocation::Menu {
                let prev_color = game.config.player_color(Player::Player1);
                game.config.set_color(prev_color.previous_color(), Player::Player1);
            }
        },
        (GameKey::D, KeyState::Down) => {
            if location == StateLocation::Menu {
                let prev_color = game.config.player_color(Player::Player1);
                game.config.set_color(prev_color.next_color(), Player::Player1);
            }
        },
        (GameKey::ArrowUp, KeyState::Down) => {
            game.player2.press(Key::Up);
        },
        (GameKey::ArrowDown, KeyState::Down) => {
            game.player2.press(Key::Down);
        },
        (GameKey::ArrowRight, KeyState::Down) => {
            if location == StateLocation::Menu {
                let prev_color = game.config.player_color(Player::Player2);
                game.config.set_color(prev_color.previous_color(), Player::Player2);
            }
        },
        (GameKey::ArrowLeft, KeyState::Down) => {
            if location == StateLocation::Menu {
                let prev_color = game.config.player_color(Player::Player2);
                game.config.set_color(prev_color.next_color(), Player::Player2);
            }
        },
        (GameKey::Spacebar, KeyState::Down) => {
            match location {
                StateLocation::Menu => {
                    clear_menu_text(writer);
                    phase.set(StateLocation::Running);
                },
                StateLocation::Running => {
                    render_pause_text(writer);
                    phase.set(StateLocation::Paused);
                },
                StateLocation::Paused => {
                    clear_pause_text(writer);
                    phase.set(StateLocation::Running);
                },
            }
        },
        (GameKey::Escape, KeyState::Down) => {
            if location == StateLocation::Running || location == StateLocation::Paused {
                game.reset(writer, serve);
            }
            render_menu_text(writer);
            phase.set(StateLocation::Menu);
        },
        _ => {},
    }
}

/// Handles one byte from the keyboard: stirs the tick counter, feeds the
/// byte to the scan code decoder and handles the key event it completes,
/// if any.
pub fn handle_scancode(
    decoder: &mut ScancodeSet1,
    timer: &mut Timer,
    phase: &mut GlobalStateLocation,
    game: &mut GameState,
    writer: &mut Writer,
    scancode: u8,
    serve: Speed,
)
    requires
        old(phase).wf(),
        old(game).wf(),
        old(writer).wf(),
        speed_bounded(serve),
    ensures
        final(timer).number == (old(timer).number + KEY_TICK_STIR) % 256,
        final(phase).wf(),
        final(game).wf(),
        final(writer).wf(),
        final(writer).color() == old(writer).color(),
        final(writer).column() == old(writer).column(),
        (final(phase)@ == old(phase)@ && *final(game) == *old(game) && final(writer).cells()
            == old(writer).cells()) || exists|ev: KeyEvent|
            key_handled(old(phase)@, final(phase)@, *old(game), *final(game), ev, serve),
{
    timer.advance(KEY_TICK_STIR);
    match advance_decoder(decoder, scancode) {
        Some(raw) => {
            let event = game_event(&raw);
            handle_key(phase, game, writer, event, serve);
        },
        None => {},
    }
}

/// The tick counter value `n` calls for engine work: the counter, read
/// as 1 when it is 0, is a multiple of `TICK_DIVISOR`.
pub open spec fn tick_due(n: u8) -> bool {
    n != 0 && n % TICK_DIVISOR == 0
}

/// Handles one timer tick: counts it, and on every third count runs a menu
/// tick in the menu or a simulation tick in play (serving with `serve`
/// if a point ends); nothing moves while paused.
pub fn handle_tick(
    timer: &mut Timer,
    phase: &GlobalStateLocation,
    game: &mut GameState,
    writer: &mut Writer,
    serve: Speed,
)
    requires
        phase.wf(),
        old(game).wf(),
        old(writer).wf(),
        speed_bounded(serve),
    ensures
        final(timer).number == (old(timer).number + 1) % 256,
        final(game).wf(),
        final(writer).wf(),
        final(writer).color() == old(writer).color(),
        final(writer).column() == old(writer).column(),
        tick_due(old(timer).number) && phase@ == StateLocation::Running ==> stepped(
            *old(game),
            *final(game),
            serve,
        ),
        tick_due(old(timer).number) && phase@ == StateLocation::Running ==> frame_drawn(
            *final(writer),
            *final(game),
            old(game).config@,
        ),
        tick_due(old(timer).number) && phase@ == StateLocation::Running && point_scored(*old(game))
            ==> score_shown(*final(writer), final(game).score, old(writer).color()),
        tick_due(old(timer).number) && phase@ == StateLocation::Menu ==> paddle_drawn(
            *final(writer),
            final(game).player1,
            player_code(old(game).config@, Player::Player1),
        ) && paddle_drawn(
            *final(writer),
            final(game).player2,
            player_code(old(game).config@, Player::Player2),
        ),
        tick_due(old(timer).number) && phase@ == StateLocation::Menu ==> menu_ticked(
            *old(game),
            *final(game),
        ),
        !tick_due(old(timer).number) || phase@ == StateLocation::Paused ==> *final(game) == *old(game) && final(writer).cells() == old(writer).cells(),
{
    let mut number = timer.advance(1);
    if number == 0 {
        number = 1;
    }
    match phase.read() {
        StateLocation::Menu => {
            if number % TICK_DIVISOR == 0 {
                game.show_menu(writer);
            }
        },
        StateLocation::Running => {
            if number % TICK_DIVISOR == 0 {
                game.step(writer, serve);
            }
        },
        StateLocation::Paused => {},
    }
}

} // verus!
