use conway_life::cell::Cell;
use conway_life::generation::{next_generation, tick};

fn grid_from(rows: &[&str]) -> Vec<Vec<Cell>> {
    rows.iter()
        .map(|r| r.chars().map(|c| Cell::new(c == '#')).collect())
        .collect()
}

fn picture(grid: &[Vec<Cell>]) -> Vec<String> {
    grid.iter()
        .map(|r| r.iter().map(|c| if c.is_alive() { '#' } else { '.' }).collect())
        .collect()
}

#[test]
fn cell_default_is_dead() {
    assert!(!Cell::default().is_alive());
}

#[test]
fn cell_new_and_set_state() {
    let mut c = Cell::new(true);
    assert!(c.is_alive());
    c.set_state(false);
    assert!(!c.is_alive());
    c.set_state(true);
    assert!(c.is_alive());
    assert_eq!(Cell::new(true), Cell::new(true));
    assert_ne!(Cell::new(true), Cell::new(false));
}

#[test]
fn isolated_cell_dies() {
    let g = grid_from(&["...", ".#.", "..."]);
    assert_eq!(picture(&next_generation(&g)), vec!["...", "...", "..."]);
}

#[test]
fn blinker_turns_vertical_and_back() {
    let g = grid_from(&["...", "###", "..."]);
    let next = next_generation(&g);
    assert_eq!(picture(&next), vec![".#.", ".#.", ".#."]);
    assert_eq!(picture(&next_generation(&next)), vec!["...", "###", "..."]);
}

#[test]
fn block_is_still() {
    let g = grid_from(&["....", ".##.", ".##.", "...."]);
    assert_eq!(picture(&next_generation(&g)), picture(&g));
}

#[test]
fn live_cell_survives_with_two_or_three() {
    // two neighbours
    let g = grid_from(&["#..", ".#.", "..#"]);
    assert!(tick(3, 3, &g, 1, 1));
    // three neighbours
    let g = grid_from(&["#.#", ".#.", "..#"]);
    assert!(tick(3, 3, &g, 1, 1));
}

#[test]
fn live_cell_dies_outside_two_or_three() {
    // one neighbour
    let g = grid_from(&["#..", ".#.", "..."]);
    assert!(!tick(3, 3, &g, 1, 1));
    // four neighbours
    let g = grid_from(&["#.#", ".#.", "#.#"]);
    assert!(!tick(3, 3, &g, 1, 1));
    // eight neighbours
    let g = grid_from(&["###", "###", "###"]);
    assert!(!tick(3, 3, &g, 1, 1));
}

#[test]
fn dead_cell_is_born_with_exactly_three() {
    let g = grid_from(&["#.#", "...", "..#"]);
    assert!(tick(3, 3, &g, 1, 1));
    let g = grid_from(&["#.#", "...", "..."]);
    assert!(!tick(3, 3, &g, 1, 1));
    let g = grid_from(&["#.#", "...", "#.#"]);
    assert!(!tick(3, 3, &g, 1, 1));
}

#[test]
fn corner_counts_only_cells_inside() {
    // the corner has its three neighbours alive: it is born
    let g = grid_from(&[".#.", "##.", "..."]);
    assert!(tick(3, 3, &g, 0, 0));
    // cells far away, as on a wrapped board, do not count
    let g = grid_from(&[".#", "#."]);
    assert!(!tick(2, 2, &g, 0, 0));
    let g = grid_from(&["...#", "....", "....", "#..#"]);
    assert!(!tick(4, 4, &g, 0, 0));
    assert_eq!(picture(&next_generation(&g))[0], "....");
}

#[test]
fn edges_are_hard_not_wrapped() {
    let g = grid_from(&["###", "...", "..."]);
    assert_eq!(picture(&next_generation(&g)), vec![".#.", ".#.", "..."]);
}

#[test]
fn second_generation_depends_on_states_only() {
    let a = grid_from(&[".#...", "..#..", "###..", ".....", "....."]);
    let mut b = grid_from(&[".....", ".....", ".....", ".....", "....."]);
    for (x, row) in a.iter().enumerate() {
        for (y, c) in row.iter().enumerate() {
            b[x][y].set_state(c.is_alive());
        }
    }
    let twice_a = next_generation(&next_generation(&a));
    let twice_b = next_generation(&next_generation(&b));
    assert_eq!(picture(&twice_a), picture(&twice_b));
    assert_eq!(picture(&a), picture(&b));
}

#[test]
fn empty_grid_stays_empty() {
    let g: Vec<Vec<Cell>> = Vec::new();
    assert!(next_generation(&g).is_empty());
    let g: Vec<Vec<Cell>> = vec![Vec::new(), Vec::new()];
    let n = next_generation(&g);
    assert_eq!(n.len(), 2);
    assert!(n[0].is_empty() && n[1].is_empty());
}
