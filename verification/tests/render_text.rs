//! Rendering: a pure projection of the grid with a fixed two-glyph
//! alphabet and one newline-terminated line per row.

use game_of_life::Cell;
use game_of_life::Universe;

const ALIVE: char = '\u{25A0}';
const DEAD: char = '\u{25A1}';

fn universe_from(width: u32, height: u32, live: &[(u32, u32)]) -> Universe {
    let mut cells = vec![Cell::Dead; (width * height) as usize];
    for &(row, col) in live {
        cells[(row * width + col) as usize] = Cell::Alive;
    }
    Universe::with_pattern(width, height, cells).unwrap()
}

#[test]
fn render_twice_is_byte_identical() {
    let universe = universe_from(4, 3, &[(0, 1), (2, 3)]);
    let first = universe.render();
    let second = universe.render();
    assert_eq!(first.as_bytes(), second.as_bytes());
}

#[test]
fn render_twice_after_ticks_is_byte_identical() {
    let mut universe = Universe::new();
    universe.tick();
    universe.tick();
    assert_eq!(universe.render().as_bytes(), universe.render().as_bytes());
}

#[test]
fn render_has_one_line_per_row_of_width_glyphs() {
    let universe = universe_from(5, 2, &[(1, 4)]);
    let text = universe.render();
    let lines: Vec<&str> = text.lines().collect();
    assert_eq!(lines.len(), 2);
    for line in &lines {
        assert_eq!(line.chars().count(), 5);
    }
    // Every row, the last included, ends with a newline.
    assert!(text.ends_with('\n'));
    assert_eq!(text.chars().filter(|&c| c == '\n').count(), 2);
}

#[test]
fn render_uses_only_the_two_glyphs() {
    let mut universe = Universe::new();
    universe.tick();
    let text = universe.render();
    for c in text.chars() {
        assert!(c == ALIVE || c == DEAD || c == '\n');
    }
    assert!(text.chars().any(|c| c == ALIVE));
    assert!(text.chars().any(|c| c == DEAD));
}

#[test]
fn render_maps_alive_and_dead_consistently() {
    let universe = universe_from(2, 2, &[(0, 0), (1, 1)]);
    let text = universe.render();
    assert_eq!(text, format!("{}{}\n{}{}\n", ALIVE, DEAD, DEAD, ALIVE));
}
