use game_of_life::{Cell, Universe};

/// An all-dead grid of the given size.
fn empty(width: u32, height: u32) -> Universe {
    let mut u = Universe::new();
    u.set_width(width);
    u.set_height(height);
    u
}

#[test]
fn render_draws_one_glyph_per_cell_row_by_row() {
    let mut u = empty(3, 2);
    u.set_cells(&[(0, 1), (1, 0), (1, 2)]).unwrap();
    assert_eq!(u.render(), "◻◼◻\n◼◻◼\n");
}

#[test]
fn render_of_empty_grid_is_all_hollow() {
    let u = empty(2, 2);
    assert_eq!(u.render(), "◻◻\n◻◻\n");
}

#[test]
fn render_is_idempotent_without_mutation() {
    let mut u = empty(5, 5);
    u.set_cells(&[(1, 1), (2, 2), (3, 3), (1, 3), (3, 1)]).unwrap();
    let first = u.render();
    let second = u.render();
    assert_eq!(first, second);
    u.tick();
    let after = u.render();
    assert_eq!(after, u.render());
}

#[test]
fn render_length_counts_cells_and_newlines() {
    let u = Universe::with_size(7, 4);
    let text = u.render();
    assert_eq!(text.chars().count(), (7 + 1) * 4);
    assert_eq!(text.chars().filter(|c| *c == '\n').count(), 4);
    assert!(text.chars().all(|c| c == '◻' || c == '◼' || c == '\n'));
    let live = u.get_cells().iter().filter(|c| **c == Cell::Alive).count();
    assert_eq!(text.chars().filter(|c| *c == '◼').count(), live);
}
