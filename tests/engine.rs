use pong_core::ball::{cell, floor_cell, scale, BallPosition, PongBall, Speed, HIGHEST_SPEED, LOWEST_SPEED};
use pong_core::color::{Color, ColorCode};
use pong_core::dispatch::{handle_key, handle_scancode, handle_tick, GameKey, KeyEvent, KeyState};
use pc_keyboard::ScancodeSet1;
use pong_core::game::{reset_ball, GameState};
use pong_core::location::{GlobalStateLocation, StateLocation, StateVariant, Timer};
use pong_core::paddle::{Key, Player, PongBar, Position};
use pong_core::screen::Writer;

const SERVE: Speed = Speed { dx: 120, dy: 60 };

fn setup() -> (Writer, GameState) {
    let mut w = Writer::new(ColorCode(0x0e));
    let g = GameState::new(&mut w, SERVE);
    (w, g)
}

fn down(code: GameKey) -> KeyEvent {
    KeyEvent { code, state: KeyState::Down }
}

#[test]
fn serve_pushes_small_cosines_away_from_zero() {
    assert_eq!(Speed::serve(0, 0), Speed { dx: 120, dy: 0 });
    assert_eq!(Speed::serve(-10, 157), Speed { dx: -150, dy: 125 });
    assert_eq!(Speed::serve(29, 315), Speed { dx: 207, dy: 252 });
    assert_eq!(Speed::serve(-100, 100), Speed { dx: -300, dy: 80 });
    assert_eq!(Speed::serve(30, 10), Speed { dx: 90, dy: 8 });
}

#[test]
fn scale_rounds_toward_zero() {
    assert_eq!(scale(300, 85), 255);
    assert_eq!(scale(-300, 85), -255);
    assert_eq!(scale(55, 90), 49);
    assert_eq!(scale(-55, 90), -49);
}

#[test]
fn cells_of_coordinates() {
    assert_eq!(cell(-5), 0);
    assert_eq!(cell(0), 0);
    assert_eq!(cell(199), 1);
    assert_eq!(cell(4000), 40);
}

#[test]
fn center_hit_slows_and_keeps_the_floor() {
    let s = Speed { dx: -300, dy: 0 };
    assert_eq!(s.deflect(0, true), Speed { dx: 255, dy: 0 });
    let slow = Speed { dx: -50, dy: 52 };
    assert_eq!(slow.deflect(0, true), Speed { dx: LOWEST_SPEED, dy: LOWEST_SPEED });
    let up = Speed { dx: 300, dy: -200 };
    assert_eq!(up.deflect(0, false), Speed { dx: -255, dy: -200 });
}

#[test]
fn near_center_hit_speeds_up_to_the_ceiling() {
    assert_eq!(Speed { dx: -200, dy: 70 }.deflect(1, true), Speed { dx: 230, dy: 70 });
    assert_eq!(Speed { dx: 950, dy: 70 }.deflect(1, false), Speed { dx: -HIGHEST_SPEED, dy: 70 });
}

#[test]
fn edge_hit_speeds_up_both_axes_with_sign_kept() {
    assert_eq!(Speed { dx: -200, dy: -100 }.deflect(2, true), Speed { dx: 220, dy: -135 });
    assert_eq!(Speed { dx: 990, dy: -900 }.deflect(2, false), Speed { dx: -HIGHEST_SPEED, dy: -HIGHEST_SPEED });
}

#[test]
fn deflection_stays_in_speed_bounds() {
    for &dx in &[-1000, -999, -300, -51, -50, 50, 51, 300, 1000] {
        for &dy in &[-1000, -740, -50, 50, 60, 741, 1000] {
            for diff in 0..3 {
                for &right in &[true, false] {
                    let s = Speed { dx, dy }.deflect(diff, right);
                    assert!(s.dx.abs() >= LOWEST_SPEED && s.dx.abs() <= HIGHEST_SPEED);
                    assert!(s.dy.abs() >= LOWEST_SPEED && s.dy.abs() <= HIGHEST_SPEED);
                }
            }
        }
    }
}

#[test]
fn move_ball_remembers_where_it_was() {
    let mut b = PongBall::new(Speed { dx: -30, dy: 45 });
    assert_eq!(b.last_pos, BallPosition { x: 3900, y: 1150 });
    b.move_ball();
    assert_eq!(b.last_pos, BallPosition { x: 4000, y: 1250 });
    assert_eq!(b.position, BallPosition { x: 3970, y: 1295 });
    assert_eq!(BallPosition::default(), BallPosition { x: 4000, y: 1250 });
}

#[test]
fn paddles_keep_off_the_first_and_last_rows() {
    let mut bar = PongBar::new(Player::Player1);
    assert_eq!(bar.position, Position { x: 1, y: 12 });
    for _ in 0..30 {
        bar.press(Key::Up);
        bar.move_player();
    }
    assert_eq!(bar.position.y, 3);
    assert_eq!(bar.button_pressed, Key::Idle);
    for _ in 0..30 {
        bar.press(Key::Down);
        bar.move_player();
    }
    assert_eq!(bar.position.y, 21);
    assert_eq!(PongBar::new(Player::Player2).position, Position { x: 78, y: 12 });
}

#[test]
fn center_hit_on_left_paddle_turns_the_ball() {
    let (mut w, mut g) = setup();
    g.ball = PongBall {
        last_pos: BallPosition { x: 500, y: 1200 },
        position: BallPosition { x: 200, y: 1200 },
        speed: Speed { dx: -300, dy: 0 },
    };
    g.step(&mut w, SERVE);
    assert_eq!(g.ball.speed, Speed { dx: 255, dy: 0 });
    assert_eq!(g.ball.position, BallPosition { x: 455, y: 1200 });
    assert_eq!(g.score, (0, 0));
}

#[test]
fn ball_at_center_does_not_turn() {
    let (mut w, mut g) = setup();
    g.ball = PongBall {
        last_pos: BallPosition { x: 4300, y: 1200 },
        position: BallPosition { x: 4000, y: 1200 },
        speed: Speed { dx: -300, dy: 0 },
    };
    g.step(&mut w, SERVE);
    assert_eq!(g.ball.speed, Speed { dx: -300, dy: 0 });
    assert_eq!(g.ball.position, BallPosition { x: 3700, y: 1200 });
}

#[test]
fn ball_past_left_paddle_scores_for_player_two() {
    let (mut w, mut g) = setup();
    g.player1.position.y = 4;
    g.player2.position.y = 20;
    g.ball = PongBall {
        last_pos: BallPosition { x: 350, y: 1250 },
        position: BallPosition { x: 50, y: 1250 },
        speed: Speed { dx: -300, dy: 20 },
    };
    g.step(&mut w, SERVE);
    assert_eq!(g.score, (0, 1));
    assert_eq!(g.player1.position, Position { x: 1, y: 12 });
    assert_eq!(g.player2.position, Position { x: 78, y: 12 });
    assert_eq!(g.ball.last_pos, BallPosition { x: 4000, y: 1250 });
    assert_eq!(g.ball.speed, SERVE);
    assert_eq!(g.ball.position, BallPosition { x: 4120, y: 1310 });
    assert_eq!(w.char_at(0, 40).ascii_character, b':');
    assert_eq!(w.char_at(0, 39).ascii_character, b'0');
    assert_eq!(w.char_at(0, 41).ascii_character, b'1');
}

#[test]
fn ball_past_right_paddle_scores_for_player_one() {
    let (mut w, mut g) = setup();
    g.player2.position.y = 3;
    g.ball = PongBall {
        last_pos: BallPosition { x: 7500, y: 1250 },
        position: BallPosition { x: 7800, y: 1250 },
        speed: Speed { dx: 300, dy: 0 },
    };
    g.step(&mut w, SERVE);
    assert_eq!(g.score, (1, 0));
    assert_eq!(g.ball.speed, SERVE);
}

#[test]
fn ball_turns_at_the_top_and_bottom() {
    let (mut w, mut g) = setup();
    g.ball = PongBall {
        last_pos: BallPosition { x: 4000, y: 400 },
        position: BallPosition { x: 4000, y: 250 },
        speed: Speed { dx: 100, dy: -150 },
    };
    g.step(&mut w, SERVE);
    assert_eq!(g.ball.speed.dy, 150);
    assert_eq!(g.ball.position.y, 400);
    g.ball = PongBall {
        last_pos: BallPosition { x: 4000, y: 2100 },
        position: BallPosition { x: 4000, y: 2300 },
        speed: Speed { dx: 100, dy: 200 },
    };
    g.step(&mut w, SERVE);
    assert_eq!(g.ball.speed.dy, -200);
    assert_eq!(g.ball.position.y, 2100);
}

#[test]
fn step_applies_intents_and_draws() {
    let (mut w, mut g) = setup();
    g.player1.press(Key::Up);
    g.player2.press(Key::Down);
    g.step(&mut w, SERVE);
    assert_eq!(g.player1.position.y, 11);
    assert_eq!(g.player2.position.y, 13);
    assert_eq!(g.player1.button_pressed, Key::Idle);
    assert_eq!(w.char_at(9, 1).ascii_character, 0xfe);
    assert_eq!(w.char_at(14, 1).ascii_character, b' ');
    assert_eq!(w.char_at(15, 78).ascii_character, 0xfe);
    let row = cell(g.ball.position.y) as usize;
    let col = cell(g.ball.position.x) as usize;
    assert_eq!(w.char_at(row, col).ascii_character, b'@');
}

#[test]
fn show_menu_moves_paddles_only() {
    let (mut w, mut g) = setup();
    let ball = g.ball;
    g.player1.press(Key::Down);
    g.show_menu(&mut w);
    assert_eq!(g.player1.position.y, 13);
    assert_eq!(g.ball, ball);
    assert_eq!(g.score, (0, 0));
}

#[test]
fn reset_puts_everything_back() {
    let (mut w, mut g) = setup();
    g.score = (3, 4);
    g.player1.position.y = 5;
    g.player2.press(Key::Up);
    g.config.set_color(Color::Red, Player::Player1);
    let before = g.ball.position;
    g.reset(&mut w, Speed { dx: -90, dy: 10 });
    assert_eq!(g.score, (0, 0));
    assert_eq!(g.player1.position.y, 12);
    assert_eq!(g.player2.button_pressed, Key::Idle);
    assert_eq!(g.ball.position, BallPosition { x: 4000, y: 1250 });
    assert_eq!(g.ball.last_pos, before);
    assert_eq!(g.ball.speed, Speed { dx: -90, dy: 10 });
    assert_eq!(g.config.player_color(Player::Player1), Color::Yellow);
}

#[test]
fn reset_ball_erases_its_cell() {
    let mut w = Writer::new(ColorCode(0x0e));
    w.write_byte_at_pos(5, 6, b'@');
    let mut b = PongBall::new(SERVE);
    b.position = BallPosition { x: 650, y: 520 };
    reset_ball(&mut b, Speed { dx: 1, dy: 2 }, &mut w);
    assert_eq!(w.char_at(5, 6).ascii_character, b' ');
    assert_eq!(b.speed, Speed { dx: 1, dy: 2 });
}

#[test]
fn phase_goes_menu_running_paused_menu() {
    let (mut w, mut g) = setup();
    let mut phase = GlobalStateLocation::default();
    assert_eq!(phase.read(), StateLocation::Menu);
    handle_key(&mut phase, &mut g, &mut w, down(GameKey::Spacebar), SERVE);
    assert_eq!(phase.read(), StateLocation::Running);
    g.score = (2, 5);
    handle_key(&mut phase, &mut g, &mut w, down(GameKey::Spacebar), SERVE);
    assert_eq!(phase.read(), StateLocation::Paused);
    assert_eq!(w.char_at(0, 0).ascii_character, b'P');
    handle_key(&mut phase, &mut g, &mut w, down(GameKey::Escape), SERVE);
    assert_eq!(phase.read(), StateLocation::Menu);
    assert_eq!(g.score, (0, 0));
    assert_eq!(w.char_at(4, 38).ascii_character, b'P');
}

#[test]
fn paused_game_resumes_on_space() {
    let (mut w, mut g) = setup();
    let mut phase = GlobalStateLocation::new();
    phase.set(StateLocation::Paused);
    handle_key(&mut phase, &mut g, &mut w, down(GameKey::Spacebar), SERVE);
    assert_eq!(phase.read(), StateLocation::Running);
    assert_eq!(w.char_at(0, 0).ascii_character, b' ');
}

#[test]
fn key_release_and_other_keys_change_nothing() {
    let (mut w, mut g) = setup();
    let mut phase = GlobalStateLocation::new();
    handle_key(&mut phase, &mut g, &mut w, KeyEvent { code: GameKey::Spacebar, state: KeyState::Up }, SERVE);
    handle_key(&mut phase, &mut g, &mut w, down(GameKey::Other), SERVE);
    assert_eq!(phase.read(), StateLocation::Menu);
    assert_eq!(g.player1.button_pressed, Key::Idle);
}

#[test]
fn menu_color_keys_touch_only_their_player() {
    let (mut w, mut g) = setup();
    let mut phase = GlobalStateLocation::new();
    handle_key(&mut phase, &mut g, &mut w, down(GameKey::D), SERVE);
    assert_eq!(g.config.player_color(Player::Player1), Color::White);
    assert_eq!(g.config.player_color(Player::Player2), Color::Yellow);
    assert_eq!(g.config.background(), Color::Black);
    handle_key(&mut phase, &mut g, &mut w, down(GameKey::A), SERVE);
    handle_key(&mut phase, &mut g, &mut w, down(GameKey::A), SERVE);
    assert_eq!(g.config.player_color(Player::Player1), Color::Pink);
    assert_eq!(g.config.player_color(Player::Player2), Color::Yellow);
    assert_eq!(g.config.background(), Color::Black);
    handle_key(&mut phase, &mut g, &mut w, down(GameKey::ArrowLeft), SERVE);
    assert_eq!(g.config.player_color(Player::Player2), Color::White);
    handle_key(&mut phase, &mut g, &mut w, down(GameKey::ArrowRight), SERVE);
    assert_eq!(g.config.player_color(Player::Player2), Color::Yellow);
    assert_eq!(g.config.player_color(Player::Player1), Color::Pink);
}

#[test]
fn color_keys_are_ignored_in_play() {
    let (mut w, mut g) = setup();
    let mut phase = GlobalStateLocation::new();
    phase.set(StateLocation::Running);
    handle_key(&mut phase, &mut g, &mut w, down(GameKey::D), SERVE);
    assert_eq!(g.config.player_color(Player::Player1), Color::Yellow);
}

#[test]
fn movement_keys_record_intents() {
    let (mut w, mut g) = setup();
    let mut phase = GlobalStateLocation::new();
    handle_key(&mut phase, &mut g, &mut w, down(GameKey::W), SERVE);
    handle_key(&mut phase, &mut g, &mut w, down(GameKey::ArrowDown), SERVE);
    assert_eq!(g.player1.button_pressed, Key::Up);
    assert_eq!(g.player2.button_pressed, Key::Down);
    handle_key(&mut phase, &mut g, &mut w, down(GameKey::S), SERVE);
    handle_key(&mut phase, &mut g, &mut w, down(GameKey::ArrowUp), SERVE);
    assert_eq!(g.player1.button_pressed, Key::Down);
    assert_eq!(g.player2.button_pressed, Key::Up);
}

#[test]
fn ticks_drive_the_engine_every_third_count() {
    let (mut w, mut g) = setup();
    let mut t = Timer::new();
    let mut phase = GlobalStateLocation::new();
    phase.set(StateLocation::Running);
    let start = g.ball.position;
    handle_tick(&mut t, &phase, &mut g, &mut w, SERVE);
    handle_tick(&mut t, &phase, &mut g, &mut w, SERVE);
    assert_eq!(g.ball.position, start);
    handle_tick(&mut t, &phase, &mut g, &mut w, SERVE);
    assert_eq!(t.number, 3);
    assert_eq!(g.ball.position, start);
    handle_tick(&mut t, &phase, &mut g, &mut w, SERVE);
    assert_eq!(g.ball.position, BallPosition { x: start.x + SERVE.dx, y: start.y + SERVE.dy });
    phase.set(StateLocation::Paused);
    let paused_at = g.ball.position;
    for _ in 0..6 {
        handle_tick(&mut t, &phase, &mut g, &mut w, SERVE);
    }
    assert_eq!(g.ball.position, paused_at);
}

#[test]
fn timer_wraps() {
    let mut t = Timer { number: 254 };
    assert_eq!(t.advance(3), 254);
    assert_eq!(t.number, 1);
}

#[test]
fn phase_bytes_round_trip() {
    for s in [StateLocation::Menu, StateLocation::Running, StateLocation::Paused] {
        assert_eq!(StateLocation::from_u8(s.to_u8()), s);
    }
    assert_eq!(StateVariant::default(), StateVariant::Unset);
}

#[test]
fn scancodes_drive_the_phase_and_the_paddles() {
    let (mut w, mut g) = setup();
    let mut t = Timer::new();
    let mut phase = GlobalStateLocation::new();
    let mut decoder = ScancodeSet1::new();
    handle_scancode(&mut decoder, &mut t, &mut phase, &mut g, &mut w, 0x11, SERVE);
    assert_eq!(g.player1.button_pressed, Key::Up);
    assert_eq!(t.number, 3);
    handle_scancode(&mut decoder, &mut t, &mut phase, &mut g, &mut w, 0x39, SERVE);
    assert_eq!(phase.read(), StateLocation::Running);
    handle_scancode(&mut decoder, &mut t, &mut phase, &mut g, &mut w, 0xb9, SERVE);
    assert_eq!(phase.read(), StateLocation::Running);
    handle_scancode(&mut decoder, &mut t, &mut phase, &mut g, &mut w, 0xe0, SERVE);
    assert_eq!(g.player2.button_pressed, Key::Idle);
    handle_scancode(&mut decoder, &mut t, &mut phase, &mut g, &mut w, 0x50, SERVE);
    assert_eq!(g.player2.button_pressed, Key::Down);
    handle_scancode(&mut decoder, &mut t, &mut phase, &mut g, &mut w, 0x01, SERVE);
    assert_eq!(phase.read(), StateLocation::Menu);
    assert_eq!(t.number, 18);
}

#[test]
fn scancode_for_the_color_keys_in_the_menu() {
    let (mut w, mut g) = setup();
    let mut t = Timer::new();
    let mut phase = GlobalStateLocation::new();
    let mut decoder = ScancodeSet1::new();
    handle_scancode(&mut decoder, &mut t, &mut phase, &mut g, &mut w, 0x20, SERVE);
    assert_eq!(g.config.player_color(Player::Player1), Color::White);
    handle_scancode(&mut decoder, &mut t, &mut phase, &mut g, &mut w, 0x1e, SERVE);
    assert_eq!(g.config.player_color(Player::Player1), Color::Yellow);
    handle_scancode(&mut decoder, &mut t, &mut phase, &mut g, &mut w, 0x10, SERVE);
    assert_eq!(g.config.player_color(Player::Player1), Color::Yellow);
    assert_eq!(phase.read(), StateLocation::Menu);
}

#[test]
fn whole_cells_round_down() {
    assert_eq!(floor_cell(0), 0);
    assert_eq!(floor_cell(99), 0);
    assert_eq!(floor_cell(250), 2);
    assert_eq!(floor_cell(-1), -1);
    assert_eq!(floor_cell(-99), -1);
    assert_eq!(floor_cell(-100), -1);
    assert_eq!(floor_cell(-101), -2);
    assert_eq!(floor_cell(-1000), -10);
}

#[test]
fn top_wall_test_works_on_whole_cells() {
    let (mut w, mut g) = setup();
    g.ball = PongBall {
        last_pos: BallPosition { x: 3900, y: 398 },
        position: BallPosition { x: 4000, y: 299 },
        speed: Speed { dx: 100, dy: -99 },
    };
    g.step(&mut w, SERVE);
    assert_eq!(g.ball.speed, Speed { dx: 100, dy: 99 });
    assert_eq!(g.ball.position, BallPosition { x: 4100, y: 398 });
}

#[test]
fn bottom_wall_test_works_on_whole_cells() {
    let (mut w, mut g) = setup();
    g.ball = PongBall {
        last_pos: BallPosition { x: 3900, y: 2290 },
        position: BallPosition { x: 4000, y: 2350 },
        speed: Speed { dx: 100, dy: 60 },
    };
    g.step(&mut w, SERVE);
    assert_eq!(g.ball.speed.dy, 60);
    assert_eq!(g.ball.position.y, 2410);
    g.step(&mut w, SERVE);
    assert_eq!(g.ball.speed.dy, -60);
    assert_eq!(g.ball.position.y, 2350);
}

#[test]
fn escape_from_play_resets_and_redraws_the_menu() {
    let (mut w, mut g) = setup();
    let mut phase = GlobalStateLocation::new();
    handle_key(&mut phase, &mut g, &mut w, down(GameKey::Spacebar), SERVE);
    assert_eq!(w.char_at(4, 38).ascii_character, b' ');
    g.score = (1, 1);
    handle_key(&mut phase, &mut g, &mut w, down(GameKey::Escape), SERVE);
    assert_eq!(phase.read(), StateLocation::Menu);
    assert_eq!(g.score, (0, 0));
    assert_eq!(w.char_at(4, 38).ascii_character, b'P');
    assert_eq!(w.char_at(17, 29).ascii_character, b'P');
}
