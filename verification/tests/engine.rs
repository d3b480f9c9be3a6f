use game_of_life::{Cell, GridError, Universe};

/// An all-dead grid of the given size.
fn empty(width: u32, height: u32) -> Universe {
    let mut u = Universe::new();
    u.set_width(width);
    u.set_height(height);
    u
}

/// The set of live coordinates, read back from the buffer.
fn live_coords(u: &Universe) -> Vec<(u32, u32)> {
    let w = u.width();
    let cells = u.get_cells();
    let mut live = Vec::new();
    for (i, c) in cells.iter().enumerate() {
        if *c == Cell::Alive {
            live.push((i as u32 / w, i as u32 % w));
        }
    }
    live
}

#[test]
fn new_has_default_dimensions() {
    let u = Universe::new();
    assert_eq!(u.width(), 128);
    assert_eq!(u.height(), 128);
    assert_eq!(u.get_cells().len(), 128 * 128);
}

#[test]
fn with_size_has_requested_dimensions() {
    let u = Universe::with_size(5, 9);
    assert_eq!(u.width(), 5);
    assert_eq!(u.height(), 9);
    assert_eq!(u.get_cells().len(), 45);
}

#[test]
fn size_is_conserved_by_every_operation() {
    let mut u = empty(6, 4);
    assert_eq!(u.get_cells().len(), 24);
    u.set_cells(&[(0, 0), (3, 5)]).unwrap();
    assert_eq!(u.get_cells().len(), 24);
    u.toggle_cell(2, 2).unwrap();
    assert_eq!(u.get_cells().len(), 24);
    u.tick();
    assert_eq!(u.get_cells().len(), 24);
    u.clear();
    assert_eq!(u.get_cells().len(), 24);
    u.set_width(3);
    assert_eq!(u.get_cells().len(), (u.width() * u.height()) as usize);
    u.set_height(7);
    assert_eq!(u.get_cells().len(), (u.width() * u.height()) as usize);
}

#[test]
fn resize_clears_state() {
    let mut u = empty(8, 8);
    u.set_cells(&[(1, 2), (2, 3), (3, 1), (3, 2), (3, 3)]).unwrap();
    u.set_width(5);
    assert_eq!(u.width(), 5);
    assert_eq!(u.height(), 8);
    assert!(u.get_cells().iter().all(|c| *c == Cell::Dead));

    u.set_cells(&[(0, 0), (7, 4)]).unwrap();
    u.set_height(3);
    assert_eq!(u.width(), 5);
    assert_eq!(u.height(), 3);
    assert!(u.get_cells().iter().all(|c| *c == Cell::Dead));
}

#[test]
fn clear_kills_every_cell() {
    let mut u = empty(4, 4);
    u.set_cells(&[(0, 0), (1, 1), (2, 2), (3, 3)]).unwrap();
    u.clear();
    assert_eq!(u.width(), 4);
    assert_eq!(u.height(), 4);
    assert_eq!(u.get_cells().len(), 16);
    assert!(u.get_cells().iter().all(|c| *c == Cell::Dead));
}

#[test]
fn toggle_cell_flips_and_flips_back() {
    let mut u = empty(4, 4);
    u.toggle_cell(2, 3).unwrap();
    assert_eq!(live_coords(&u), vec![(2, 3)]);
    u.toggle_cell(2, 3).unwrap();
    assert!(u.get_cells().iter().all(|c| *c == Cell::Dead));
}

#[test]
fn toggle_cell_out_of_range_is_rejected() {
    let mut u = empty(4, 4);
    assert_eq!(u.toggle_cell(4, 0), Err(GridError::OutOfRange));
    assert_eq!(u.toggle_cell(0, 4), Err(GridError::OutOfRange));
    assert!(u.get_cells().iter().all(|c| *c == Cell::Dead));
}

#[test]
fn set_cells_sets_exactly_the_listed_cells() {
    let mut u = empty(4, 4);
    u.set_cells(&[(0, 0), (1, 2)]).unwrap();
    assert_eq!(live_coords(&u), vec![(0, 0), (1, 2)]);
}

#[test]
fn set_cells_leaves_other_cells_untouched() {
    let mut u = empty(4, 4);
    u.toggle_cell(3, 3).unwrap();
    u.set_cells(&[(0, 1)]).unwrap();
    assert_eq!(live_coords(&u), vec![(0, 1), (3, 3)]);
}

#[test]
fn set_cells_out_of_range_leaves_grid_unchanged() {
    let mut u = empty(4, 4);
    u.set_cells(&[(1, 1)]).unwrap();
    let before: Vec<Cell> = u.get_cells().to_vec();
    assert_eq!(
        u.set_cells(&[(0, 0), (9, 0)]),
        Err(GridError::OutOfRange)
    );
    assert_eq!(u.get_cells(), before.as_slice());
}

#[test]
fn corner_count_includes_wraparound_neighbors() {
    let mut u = empty(4, 4);
    u.set_cells(&[(3, 3), (3, 0), (0, 3)]).unwrap();
    assert_eq!(u.live_neighbor_count(0, 0), 3);
    u.tick();
    assert_eq!(u.get_cells()[0], Cell::Alive);
}

#[test]
fn slow_and_fast_neighbor_counts_agree() {
    let mut u = empty(5, 4);
    u.set_cells(&[(0, 0), (0, 4), (1, 2), (2, 3), (3, 1), (3, 4)]).unwrap();
    for row in 0..4 {
        for col in 0..5 {
            assert_eq!(
                u.live_neighbor_count(row, col),
                u.slow_live_neighbor_count(row, col)
            );
        }
    }
}

#[test]
fn neighbor_count_is_symmetric_under_transposition() {
    let pattern = [(0u32, 1u32), (1, 3), (2, 2), (3, 0), (3, 3), (1, 0)];
    let mut u = empty(4, 4);
    u.set_cells(&pattern).unwrap();
    let transposed: Vec<(u32, u32)> = pattern.iter().map(|&(r, c)| (c, r)).collect();
    let mut t = empty(4, 4);
    t.set_cells(&transposed).unwrap();
    for row in 0..4 {
        for col in 0..4 {
            assert_eq!(u.live_neighbor_count(row, col), t.live_neighbor_count(col, row));
        }
    }
}

#[test]
fn lone_live_cell_dies() {
    let mut u = empty(8, 8);
    u.set_cells(&[(3, 3)]).unwrap();
    u.tick();
    assert!(u.get_cells().iter().all(|c| *c == Cell::Dead));
}

#[test]
fn live_cell_with_two_neighbors_survives() {
    let mut u = empty(8, 8);
    u.set_cells(&[(3, 2), (3, 3), (3, 4)]).unwrap();
    assert_eq!(u.live_neighbor_count(3, 3), 2);
    u.tick();
    assert_eq!(u.get_cells()[(3 * 8 + 3) as usize], Cell::Alive);
}

#[test]
fn live_cell_with_three_neighbors_survives() {
    let mut u = empty(8, 8);
    u.set_cells(&[(3, 3), (3, 4), (4, 3), (4, 4)]).unwrap();
    assert_eq!(u.live_neighbor_count(3, 3), 3);
    u.tick();
    assert_eq!(live_coords(&u), vec![(3, 3), (3, 4), (4, 3), (4, 4)]);
}

#[test]
fn live_cell_with_four_neighbors_dies() {
    let mut u = empty(8, 8);
    u.set_cells(&[(3, 3), (2, 3), (4, 3), (3, 2), (3, 4)]).unwrap();
    assert_eq!(u.live_neighbor_count(3, 3), 4);
    u.tick();
    assert_eq!(u.get_cells()[(3 * 8 + 3) as usize], Cell::Dead);
}

#[test]
fn dead_cell_with_three_neighbors_is_born() {
    let mut u = empty(8, 8);
    u.set_cells(&[(3, 2), (3, 3), (2, 3)]).unwrap();
    assert_eq!(u.live_neighbor_count(2, 2), 3);
    u.tick();
    assert_eq!(u.get_cells()[(2 * 8 + 2) as usize], Cell::Alive);
}

#[test]
fn dead_cell_with_two_neighbors_stays_dead() {
    let mut u = empty(8, 8);
    u.set_cells(&[(3, 2), (3, 4)]).unwrap();
    assert_eq!(u.live_neighbor_count(3, 3), 2);
    u.tick();
    assert_eq!(u.get_cells()[(3 * 8 + 3) as usize], Cell::Dead);
}

#[test]
fn glider_translates_by_one_after_four_ticks() {
    let glider = [(1u32, 2u32), (2, 3), (3, 1), (3, 2), (3, 3)];
    let mut u = empty(8, 8);
    u.set_cells(&glider).unwrap();
    for _ in 0..4 {
        u.tick();
    }
    let shifted: Vec<(u32, u32)> = glider.iter().map(|&(r, c)| (r + 1, c + 1)).collect();
    let mut expected = empty(8, 8);
    expected.set_cells(&shifted).unwrap();
    assert_eq!(u.get_cells(), expected.get_cells());
}

#[test]
fn generations_are_deterministic() {
    let pattern = [(0u32, 1u32), (1, 2), (2, 0), (2, 1), (2, 2), (4, 4), (4, 5), (5, 4)];
    let mut a = empty(6, 6);
    a.set_cells(&pattern).unwrap();
    let mut b = empty(6, 6);
    b.set_cells(&pattern).unwrap();
    for _ in 0..10 {
        a.tick();
        b.tick();
        assert_eq!(a.get_cells(), b.get_cells());
    }
}

#[test]
fn cells_and_get_cells_expose_the_same_buffer() {
    let mut u = empty(3, 3);
    u.set_cells(&[(1, 1), (2, 0)]).unwrap();
    assert_eq!(u.cells(), u.get_cells());
}
