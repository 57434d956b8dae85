use game_of_life::cell::{Cell, CellState};
use game_of_life::grid::{next_state, Grid, GridError};

fn grid_with(width: u32, height: u32, live: &[(u32, u32)]) -> Grid {
    let mut grid = Grid::create(width, height).unwrap();
    assert_eq!(grid.stamp(&live.to_vec()), Ok(()));
    grid
}

fn live_cells(grid: &Grid) -> Vec<(u32, u32)> {
    let mut live = Vec::new();
    for i in 0..grid.len() {
        let cell = grid.get(i).unwrap();
        if cell.state.is_alive() {
            live.push((cell.x, cell.y));
        }
    }
    live.sort();
    live
}

fn sorted(cells: &[(u32, u32)]) -> Vec<(u32, u32)> {
    let mut cells = cells.to_vec();
    cells.sort();
    cells
}

#[test]
fn create_gives_dead_cells_with_their_coordinates() {
    let grid = Grid::create(3, 2).unwrap();
    assert_eq!(grid.width(), 3);
    assert_eq!(grid.height(), 2);
    assert_eq!(grid.len(), 6);
    assert_eq!(grid.get(0), Ok(Cell { x: 0, y: 0, state: CellState::Dead }));
    assert_eq!(grid.get(2), Ok(Cell { x: 2, y: 0, state: CellState::Dead }));
    assert_eq!(grid.get(3), Ok(Cell { x: 0, y: 1, state: CellState::Dead }));
    assert_eq!(grid.get(4), Ok(Cell { x: 1, y: 1, state: CellState::Dead }));
    assert_eq!(grid.get(5), Ok(Cell { x: 2, y: 1, state: CellState::Dead }));
    assert_eq!(grid.get(6), Err(GridError::OutOfBounds));
}

#[test]
fn create_refuses_zero_dimensions() {
    assert_eq!(Grid::create(0, 5).err(), Some(GridError::InvalidDimensions));
    assert_eq!(Grid::create(5, 0).err(), Some(GridError::InvalidDimensions));
    assert_eq!(Grid::create(0, 0).err(), Some(GridError::InvalidDimensions));
    assert!(Grid::create(1, 1).is_ok());
}

#[test]
fn index_is_column_plus_row_times_width() {
    let grid = Grid::create(10, 7).unwrap();
    assert_eq!(grid.index(0, 0), Ok(0));
    assert_eq!(grid.index(3, 2), Ok(23));
    assert_eq!(grid.index(9, 6), Ok(69));
    assert_eq!(grid.index(10, 0), Err(GridError::OutOfBounds));
    assert_eq!(grid.index(0, 7), Err(GridError::OutOfBounds));
    assert_eq!(grid.index(u32::MAX, u32::MAX), Err(GridError::OutOfBounds));
}

#[test]
fn toggle_at_sets_one_cell() {
    let mut grid = Grid::create(4, 4).unwrap();
    assert_eq!(grid.toggle_at(5, CellState::Alive), Ok(()));
    assert_eq!(live_cells(&grid), vec![(1, 1)]);
    assert_eq!(grid.toggle_at(5, CellState::Alive), Ok(()));
    assert_eq!(live_cells(&grid), vec![(1, 1)]);
    assert_eq!(grid.toggle_at(5, CellState::Dead), Ok(()));
    assert_eq!(live_cells(&grid), vec![]);
}

#[test]
fn toggle_at_past_the_end_changes_nothing() {
    let mut grid = grid_with(4, 3, &[(1, 1), (3, 2)]);
    assert_eq!(grid.toggle_at(12, CellState::Alive), Err(GridError::OutOfBounds));
    assert_eq!(grid.toggle_at(usize::MAX, CellState::Dead), Err(GridError::OutOfBounds));
    assert_eq!(live_cells(&grid), vec![(1, 1), (3, 2)]);
    assert_eq!(grid.len(), 12);
    assert_eq!(grid.toggle_at(11, CellState::Dead), Ok(()));
    assert_eq!(live_cells(&grid), vec![(1, 1)]);
}

#[test]
fn reset_all_dead_clears_every_cell() {
    let mut grid = grid_with(5, 5, &[(0, 0), (2, 3), (4, 4)]);
    grid.reset_all_dead();
    assert_eq!(live_cells(&grid), vec![]);
    assert_eq!(grid.len(), 25);
    assert_eq!(grid.get(13), Ok(Cell { x: 3, y: 2, state: CellState::Dead }));
}

#[test]
fn rule_for_one_cell() {
    for n in 0..=8u8 {
        let survives = n == 2 || n == 3;
        assert_eq!(next_state(CellState::Alive, n).is_alive(), survives);
        assert_eq!(next_state(CellState::Dead, n).is_alive(), n == 3);
    }
}

#[test]
fn empty_grid_stays_empty() {
    for (w, h) in [(1, 1), (1, 5), (5, 1), (7, 4), (10, 10)] {
        let mut grid = Grid::create(w, h).unwrap();
        grid.step();
        assert_eq!(live_cells(&grid), vec![]);
        assert_eq!(grid.len(), (w * h) as usize);
    }
}

#[test]
fn lone_cell_dies() {
    let mut grid = grid_with(3, 3, &[(1, 1)]);
    grid.step();
    assert_eq!(live_cells(&grid), vec![]);
}

#[test]
fn block_is_a_still_life() {
    let block = [(3, 3), (4, 3), (3, 4), (4, 4)];
    let mut grid = grid_with(8, 8, &block);
    for _ in 0..5 {
        grid.step();
        assert_eq!(live_cells(&grid), sorted(&block));
    }
}

#[test]
fn block_in_a_corner_is_a_still_life() {
    let block = [(0, 0), (1, 0), (0, 1), (1, 1)];
    let mut grid = grid_with(2, 2, &block);
    grid.step();
    assert_eq!(live_cells(&grid), sorted(&block));
}

#[test]
fn blinker_turns_and_returns() {
    let row = [(2, 3), (3, 3), (4, 3)];
    let column = [(3, 2), (3, 3), (3, 4)];
    let mut grid = grid_with(7, 7, &row);
    grid.step();
    assert_eq!(live_cells(&grid), sorted(&column));
    grid.step();
    assert_eq!(live_cells(&grid), sorted(&row));
    grid.step();
    assert_eq!(live_cells(&grid), sorted(&column));
}

#[test]
fn blinker_on_the_first_row_loses_its_shape() {
    let mut grid = grid_with(5, 5, &[(1, 0), (2, 0), (3, 0)]);
    grid.step();
    assert_eq!(live_cells(&grid), vec![(2, 0), (2, 1)]);
    grid.step();
    assert_eq!(live_cells(&grid), vec![]);
}

#[test]
fn neighbors_are_not_counted_beyond_the_edge() {
    let mut grid = Grid::create(4, 3).unwrap();
    for i in 0..grid.len() {
        grid.toggle_at(i, CellState::Alive).unwrap();
    }
    for (x, y) in [(0, 0), (3, 0), (0, 2), (3, 2)] {
        assert_eq!(grid.live_neighbors(x, y), Ok(3));
    }
    for (x, y) in [(1, 0), (2, 0), (0, 1), (3, 1), (1, 2), (2, 2)] {
        assert_eq!(grid.live_neighbors(x, y), Ok(5));
    }
    for (x, y) in [(1, 1), (2, 1)] {
        assert_eq!(grid.live_neighbors(x, y), Ok(8));
    }
    assert_eq!(grid.live_neighbors(4, 0), Err(GridError::OutOfBounds));
    assert_eq!(grid.live_neighbors(0, 3), Err(GridError::OutOfBounds));
}

#[test]
fn neighbors_do_not_wrap_around() {
    let grid = grid_with(5, 5, &[(4, 0), (4, 1), (4, 2), (0, 4), (1, 4)]);
    assert_eq!(grid.live_neighbors(0, 1), Ok(0));
    assert_eq!(grid.live_neighbors(0, 0), Ok(0));
    assert_eq!(grid.live_neighbors(3, 1), Ok(3));
    assert_eq!(grid.live_neighbors(1, 3), Ok(2));
}

#[test]
fn neighbors_on_a_single_row() {
    let grid = grid_with(3, 1, &[(0, 0), (2, 0)]);
    assert_eq!(grid.live_neighbors(1, 0), Ok(2));
    assert_eq!(grid.live_neighbors(0, 0), Ok(0));
    let single = grid_with(1, 1, &[(0, 0)]);
    assert_eq!(single.live_neighbors(0, 0), Ok(0));
}

#[test]
fn step_judges_every_cell_by_the_generation_before() {
    // With the states written in place, (1, 1) would be judged after
    // (0, 1) had died, and would not come alive.
    let mut grid = grid_with(3, 3, &[(0, 1), (1, 0), (2, 1)]);
    grid.step();
    assert_eq!(live_cells(&grid), vec![(1, 0), (1, 1)]);
}

#[test]
fn glider_moves_one_cell_down_and_right_in_four_steps() {
    let glider = [(5, 4), (6, 5), (4, 6), (5, 6), (6, 6)];
    let mut grid = grid_with(10, 10, &glider);
    for _ in 0..4 {
        grid.step();
    }
    let moved: Vec<(u32, u32)> = glider.iter().map(|&(x, y)| (x + 1, y + 1)).collect();
    assert_eq!(live_cells(&grid), sorted(&moved));
}

#[test]
fn four_cells_of_a_bent_line_settle_into_a_block() {
    let mut grid = grid_with(10, 10, &[(4, 4), (5, 4), (5, 5), (4, 6)]);
    grid.step();
    assert_eq!(live_cells(&grid), sorted(&[(4, 4), (5, 4), (5, 5)]));
    for _ in 0..3 {
        grid.step();
    }
    assert_eq!(live_cells(&grid), sorted(&[(4, 4), (5, 4), (4, 5), (5, 5)]));
}

#[test]
fn stamp_is_a_union() {
    let mut grid = grid_with(6, 6, &[(0, 0), (5, 5)]);
    let shape = vec![(1, 1), (2, 1), (0, 0)];
    assert_eq!(grid.stamp(&shape), Ok(()));
    assert_eq!(live_cells(&grid), sorted(&[(0, 0), (1, 1), (2, 1), (5, 5)]));
    assert_eq!(grid.stamp(&shape), Ok(()));
    assert_eq!(live_cells(&grid), sorted(&[(0, 0), (1, 1), (2, 1), (5, 5)]));
    assert_eq!(grid.stamp(&Vec::new()), Ok(()));
    assert_eq!(live_cells(&grid), sorted(&[(0, 0), (1, 1), (2, 1), (5, 5)]));
}

#[test]
fn stamp_refuses_cells_off_the_grid() {
    let mut grid = Grid::create(4, 4).unwrap();
    let shape = vec![(1, 1), (4, 0), (3, 3), (0, 4)];
    assert_eq!(grid.stamp(&shape), Err(GridError::OutOfBounds));
    assert_eq!(live_cells(&grid), vec![(1, 1), (3, 3)]);
    // (4, 0) is not the cell at place 4, which is (0, 1).
    assert_eq!(grid.get(4), Ok(Cell { x: 0, y: 1, state: CellState::Dead }));
}
