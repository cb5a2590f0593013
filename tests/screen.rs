use pong_core::color::{ColorCode, ScreenChar};
use pong_core::render::{
    clear_menu_text, digits_of, render_ball, render_menu_text, render_pause_text,
    render_player, render_score, clear_pause_text,
};
use pong_core::ball::{BallPosition, PongBall, Speed};
use pong_core::paddle::Position;
use pong_core::screen::{Writer, BUFFER_HEIGHT, BUFFER_WIDTH};

fn row_text(w: &Writer, row: usize, from: usize, len: usize) -> Vec<u8> {
    (from..from + len).map(|c| w.char_at(row, c).ascii_character).collect()
}

#[test]
fn new_writer_is_blank() {
    let w = Writer::new(ColorCode(0x0e));
    for r in 0..BUFFER_HEIGHT {
        for c in 0..BUFFER_WIDTH {
            assert_eq!(w.char_at(r, c), ScreenChar { ascii_character: b' ', color_code: ColorCode(0x0e) });
        }
    }
}

#[test]
fn write_string_at_pos_substitutes_and_wraps() {
    let mut w = Writer::new(ColorCode(0x0e));
    w.write_string_at_pos(3, 78, "ab\tc");
    assert_eq!(w.char_at(3, 78).ascii_character, b'a');
    assert_eq!(w.char_at(3, 79).ascii_character, b'b');
    assert_eq!(w.char_at(3, 0).ascii_character, 0xfe);
    assert_eq!(w.char_at(3, 1).ascii_character, b'c');
    assert_eq!(w.char_at(4, 0).ascii_character, b' ');
}

#[test]
fn write_string_at_pos_replaces_each_byte_of_non_ascii() {
    let mut w = Writer::new(ColorCode(0x0e));
    w.write_string_at_pos(0, 0, "é!");
    assert_eq!(row_text(&w, 0, 0, 3), vec![0xfe, 0xfe, b'!']);
}

#[test]
fn write_bytes_at_pos_writes_in_place() {
    let mut w = Writer::new(ColorCode(0x0e));
    w.write_bytes_at_pos(10, 5, &[b'h', 0x01, b'i']);
    assert_eq!(row_text(&w, 10, 4, 5), vec![b' ', b'h', 0xfe, b'i', b' ']);
}

#[test]
fn write_byte_at_pos_uses_writer_color() {
    let mut w = Writer::new(ColorCode(0x1f));
    w.write_byte_at_pos(24, 79, b'z');
    assert_eq!(w.char_at(24, 79), ScreenChar { ascii_character: b'z', color_code: ColorCode(0x1f) });
}

#[test]
fn teletype_output_scrolls_on_line_feed() {
    let mut w = Writer::new(ColorCode(0x0e));
    w.write_string("hi\nyo");
    assert_eq!(row_text(&w, 23, 0, 2), b"hi".to_vec());
    assert_eq!(row_text(&w, 24, 0, 2), b"yo".to_vec());
}

#[test]
fn teletype_output_wraps_a_full_row() {
    let mut w = Writer::new(ColorCode(0x0e));
    for _ in 0..80 {
        w.write_byte(b'x');
    }
    w.write_byte(b'y');
    assert_eq!(w.char_at(23, 79).ascii_character, b'x');
    assert_eq!(w.char_at(24, 0).ascii_character, b'y');
    assert_eq!(w.char_at(24, 1).ascii_character, b' ');
}

#[test]
fn teletype_output_replaces_unprintable_bytes() {
    let mut w = Writer::new(ColorCode(0x0e));
    w.write_string("a\u{7f}");
    assert_eq!(row_text(&w, 24, 0, 2), vec![b'a', 0xfe]);
}

#[test]
fn new_line_moves_rows_up() {
    let mut w = Writer::new(ColorCode(0x0e));
    w.write_byte_at_pos(5, 7, b'q');
    w.new_line();
    assert_eq!(w.char_at(4, 7).ascii_character, b'q');
    assert_eq!(w.char_at(5, 7).ascii_character, b' ');
}

#[test]
fn clear_row_and_clear_screen_keep_what_they_should() {
    let mut w = Writer::new(ColorCode(0x0e));
    w.write_byte_at_pos(0, 1, b'a');
    w.write_byte_at_pos(1, 1, b'b');
    w.write_byte_at_pos(2, 1, b'c');
    w.clear_row(2);
    assert_eq!(w.char_at(2, 1).ascii_character, b' ');
    assert_eq!(w.char_at(1, 1).ascii_character, b'b');
    w.clear_screen();
    assert_eq!(w.char_at(0, 1).ascii_character, b'a');
    assert_eq!(w.char_at(1, 1).ascii_character, b' ');
}

#[test]
fn set_at_pos_and_write_screen_char_put_the_cell() {
    let mut w = Writer::new(ColorCode(0x0e));
    let sc = ScreenChar { ascii_character: b'#', color_code: ColorCode(0x42) };
    w.set_at_pos(1, 2, sc);
    w.write_screen_char_at_pos(3, 4, sc);
    assert_eq!(w.char_at(1, 2), sc);
    assert_eq!(w.char_at(3, 4), sc);
}

#[test]
fn digits_are_least_significant_first() {
    assert_eq!(digits_of(0), vec![0]);
    assert_eq!(digits_of(7), vec![7]);
    assert_eq!(digits_of(1203), vec![3, 0, 2, 1]);
    assert_eq!(digits_of(u32::MAX), vec![5, 9, 2, 7, 6, 9, 4, 9, 2, 4]);
}

#[test]
fn score_line_shows_both_scores_around_the_colon() {
    let mut w = Writer::new(ColorCode(0x0e));
    render_score(&mut w, (12, 305));
    assert_eq!(row_text(&w, 0, 36, 9), b"  12:305 ".to_vec());
    render_score(&mut w, (0, 1));
    assert_eq!(row_text(&w, 0, 36, 9), b"   0:1   ".to_vec());
}

#[test]
fn score_line_fits_the_largest_scores() {
    let mut w = Writer::new(ColorCode(0x0e));
    render_score(&mut w, (u32::MAX, u32::MAX));
    assert_eq!(row_text(&w, 0, 30, 21), b"4294967295:4294967295".to_vec());
}

#[test]
fn menu_text_is_drawn_and_cleared() {
    let mut w = Writer::new(ColorCode(0x0e));
    render_menu_text(&mut w);
    assert_eq!(row_text(&w, 4, 38, 5), b"Pong!".to_vec());
    assert_eq!(row_text(&w, 17, 29, 23), b"Press SPACEBAR to start".to_vec());
    clear_menu_text(&mut w);
    assert_eq!(row_text(&w, 4, 38, 5), b"     ".to_vec());
    assert_eq!(row_text(&w, 17, 29, 23), vec![b' '; 23]);
}

#[test]
fn pause_banner_is_drawn_and_cleared() {
    let mut w = Writer::new(ColorCode(0x0e));
    render_pause_text(&mut w);
    assert_eq!(row_text(&w, 0, 0, 6), b"PAUSED".to_vec());
    clear_pause_text(&mut w);
    assert_eq!(row_text(&w, 0, 0, 6), b"      ".to_vec());
}

#[test]
fn paddle_is_drawn_over_a_cleared_column() {
    let mut w = Writer::new(ColorCode(0x0e));
    w.write_byte_at_pos(20, 1, b'x');
    render_player(&mut w, Position { x: 1, y: 12 }, ColorCode(0x04));
    for r in 0..BUFFER_HEIGHT {
        let expected = if (10..=14).contains(&r) {
            ScreenChar { ascii_character: 0xfe, color_code: ColorCode(0x04) }
        } else {
            ScreenChar { ascii_character: b' ', color_code: ColorCode(0x0e) }
        };
        assert_eq!(w.char_at(r, 1), expected);
    }
}

#[test]
fn ball_moves_from_its_last_cell_to_its_cell() {
    let mut w = Writer::new(ColorCode(0x0e));
    w.write_byte_at_pos(12, 39, b'@');
    let ball = PongBall {
        last_pos: BallPosition { x: 3950, y: 1250 },
        position: BallPosition { x: 4010, y: 1299 },
        speed: Speed { dx: 60, dy: 49 },
    };
    render_ball(&mut w, &ball);
    assert_eq!(w.char_at(12, 39).ascii_character, b' ');
    assert_eq!(w.char_at(12, 40).ascii_character, b'@');
}
