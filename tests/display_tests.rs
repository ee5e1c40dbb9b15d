use chip8::display::{DISPLAY_HEIGHT, DISPLAY_WIDTH};
use chip8::{Color, Display};

#[test]
fn test_draw() {
    let mut display = Display::new();
    let sprite = vec![0b10000000, 0b01000000, 0b00100000, 0b00010000, 0b00001000];
    let collision = display.draw(0, 0, &sprite);
    assert_eq!(collision, false);
    let grid = display.get_grid();
    assert_eq!(grid[0][0], true);
    assert_eq!(grid[1][1], true);
    assert_eq!(grid[2][2], true);
    assert_eq!(grid[3][3], true);
    assert_eq!(grid[4][4], true);
}

#[test]
fn test_clear() {
    let mut display = Display::new();
    let sprite = vec![0b10000000, 0b01000000, 0b00100000, 0b00010000, 0b00001000];
    display.draw(0, 0, &sprite);
    display.clear();
    let grid = display.get_grid();
    for i in 0..DISPLAY_WIDTH {
        for j in 0..DISPLAY_HEIGHT {
            assert_eq!(grid[i][j], false);
        }
    }
}

#[test]
fn test_update_buffer() {
    let mut display = Display::new();
    let filled = Color::from_u8(0xFF, 0xFF, 0xFF).value();
    let sprite = vec![0b10000000, 0b01000000, 0b00100000, 0b00010000, 0b00001000];
    display.draw(0, 0, &sprite);
    display.update_buffer();
    let buffer = display.buffer();
    assert_eq!(buffer[0], filled);
    assert_eq!(buffer[1 + DISPLAY_WIDTH], filled);
    assert_eq!(buffer[2 + 2 * DISPLAY_WIDTH], filled);
    assert_eq!(buffer[3 + 3 * DISPLAY_WIDTH], filled);
    assert_eq!(buffer[4 + 4 * DISPLAY_WIDTH], filled);
}

#[test]
fn test_set_colors() {
    let mut display = Display::new();
    display.set_colors(Color::from_u8(0x12, 0x34, 0x56), Color::from_u8(0x65, 0x43, 0x21));
    display.draw(0, 0, &[0b10000000]);
    display.update_buffer();
    assert_eq!(display.buffer()[0], 0x123456);
    assert_eq!(display.buffer()[1], 0x654321);
}

#[test]
fn color_from_u8_packs_channels() {
    assert_eq!(Color::from_u8(0x80, 0, 0x80).value(), 0x800080);
    assert_eq!(Color::from_u8(0xFF, 0xC0, 0xCB).value(), 0xFFC0CB);
    assert_eq!(Color::from_u8(0, 0, 0).value(), 0);
}

#[test]
fn draw_wraps_round_both_edges() {
    let mut display = Display::new();
    let collision = display.draw(62, 31, &[0b11100000, 0b10000000]);
    assert!(!collision);
    let grid = display.get_grid();
    assert!(grid[62][31]);
    assert!(grid[63][31]);
    assert!(grid[0][31]);
    assert!(!grid[1][31]);
    assert!(grid[62][0]);
    assert!(!grid[63][0]);
}

#[test]
fn draw_positions_wrap_modulo_grid() {
    let mut display = Display::new();
    display.draw(64 + 3, 32 + 2, &[0b10000000]);
    assert!(display.get_grid()[3][2]);
}

#[test]
fn drawing_twice_restores_grid_and_collides() {
    let mut display = Display::new();
    display.draw(8, 10, &[0xFF]);
    let before = display.get_grid();
    let sprite = [0xF0, 0x90, 0xF0, 0x90, 0x90];
    let first = display.draw(8, 9, &sprite);
    assert!(first);
    let second = display.draw(8, 9, &sprite);
    assert!(second);
    assert_eq!(display.get_grid(), before);
}

#[test]
fn drawing_twice_on_blank_grid_collides_only_on_second() {
    let mut display = Display::new();
    let sprite = [0x20, 0x60, 0x20, 0x20, 0x70];
    assert!(!display.draw(5, 5, &sprite));
    assert!(display.draw(5, 5, &sprite));
    assert_eq!(display.get_grid(), vec![vec![false; DISPLAY_HEIGHT]; DISPLAY_WIDTH]);
}

#[test]
fn drawing_empty_rows_twice_reports_no_collision() {
    let mut display = Display::new();
    assert!(!display.draw(0, 0, &[0, 0]));
    assert!(!display.draw(0, 0, &[0, 0]));
}

#[test]
fn clear_renders_empty_colour() {
    let mut display = Display::new();
    display.set_colors(Color::from_u8(1, 2, 3), Color::from_u8(4, 5, 6));
    display.draw(0, 0, &[0xFF]);
    display.clear();
    assert!(display.buffer().iter().all(|&c| c == 0x040506));
}
