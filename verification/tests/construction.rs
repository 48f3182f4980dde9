//! Construction: the fixed default seed, and the two construction errors.

use game_of_life::Cell;
use game_of_life::Universe;
use game_of_life::UniverseError;

const ALIVE: char = '\u{25A0}';
const DEAD: char = '\u{25A1}';

fn universe_from(width: u32, height: u32, live: &[(u32, u32)]) -> Universe {
    let mut cells = vec![Cell::Dead; (width * height) as usize];
    for &(row, col) in live {
        cells[(row * width + col) as usize] = Cell::Alive;
    }
    Universe::with_pattern(width, height, cells).unwrap()
}

fn glyph_at(text: &str, row: usize, col: usize) -> char {
    text.lines().nth(row).unwrap().chars().nth(col).unwrap()
}

#[test]
fn default_universe_is_64_by_64() {
    let universe = Universe::new();
    let text = universe.render();
    let lines: Vec<&str> = text.lines().collect();
    assert_eq!(lines.len(), 64);
    for line in &lines {
        assert_eq!(line.chars().count(), 64);
    }
}

#[test]
fn default_universe_seed_is_fixed() {
    let universe = Universe::new();
    let text = universe.render();
    for row in 0..64usize {
        for col in 0..64usize {
            let k = row * 64 + col;
            let expected = if k % 2 == 0 || k % 7 == 0 { ALIVE } else { DEAD };
            assert_eq!(glyph_at(&text, row, col), expected);
        }
    }
}

#[test]
fn zero_width_is_invalid_dimension() {
    let result = Universe::with_pattern(0, 3, Vec::new());
    assert_eq!(result.unwrap_err(), UniverseError::InvalidDimension);
}

#[test]
fn zero_height_is_invalid_dimension() {
    let result = Universe::with_pattern(3, 0, Vec::new());
    assert_eq!(result.unwrap_err(), UniverseError::InvalidDimension);
}

#[test]
fn zero_both_is_invalid_dimension() {
    let result = Universe::with_pattern(0, 0, vec![Cell::Alive]);
    assert_eq!(result.unwrap_err(), UniverseError::InvalidDimension);
}

#[test]
fn short_pattern_is_size_mismatch() {
    let result = Universe::with_pattern(3, 3, vec![Cell::Dead; 8]);
    assert_eq!(result.unwrap_err(), UniverseError::PatternSizeMismatch);
}

#[test]
fn long_pattern_is_size_mismatch() {
    let result = Universe::with_pattern(3, 3, vec![Cell::Dead; 10]);
    assert_eq!(result.unwrap_err(), UniverseError::PatternSizeMismatch);
}

#[test]
fn constructed_universe_holds_given_pattern() {
    let universe = universe_from(3, 2, &[(0, 1), (1, 2)]);
    let text = universe.render();
    assert_eq!(text, format!("{}{}{}\n{}{}{}\n", DEAD, ALIVE, DEAD, DEAD, DEAD, ALIVE));
}
