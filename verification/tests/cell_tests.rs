use game_of_life::cell::{
    screen_position, Cell, CellInstance, CellState, GRID_MARGIN, UNITS_PER_PIXEL,
};
use game_of_life::grid::Grid;

#[test]
fn is_alive_tells_the_states_apart() {
    assert!(CellState::Alive.is_alive());
    assert!(!CellState::Dead.is_alive());
}

#[test]
fn opposite_swaps_the_states() {
    assert_eq!(CellState::Alive.opposite(), CellState::Dead);
    assert_eq!(CellState::Dead.opposite(), CellState::Alive);
    assert_eq!(CellState::Dead.opposite().opposite(), CellState::Dead);
}

#[test]
fn as_flag_is_zero_for_dead_and_one_for_alive() {
    assert_eq!(CellState::Dead.as_flag(), 0);
    assert_eq!(CellState::Alive.as_flag(), 1);
}

#[test]
fn default_cell_is_dead_at_the_origin() {
    assert_eq!(Cell::default(), Cell { x: 0, y: 0, state: CellState::Dead });
}

#[test]
fn units_and_margin() {
    assert_eq!(UNITS_PER_PIXEL, 256);
    assert_eq!(GRID_MARGIN, 1536);
}

#[test]
fn screen_position_follows_the_placement_formula() {
    // (10 px + 5 px) * 3 + 5 px + 6 px = 56 px
    assert_eq!(screen_position(3, 2560, 1280), 56 * 256);
    assert_eq!(screen_position(0, 2560, 1280), 11 * 256);
    // half of an odd scale is rounded down
    assert_eq!(screen_position(2, 5, 1), 6 * 2 + 2 + 1536);
    assert_eq!(screen_position(7, 0, 0), 1536);
    assert_eq!(
        screen_position(u32::MAX, u16::MAX, u16::MAX),
        131070 * 4294967295 + 32767 + 1536
    );
}

#[test]
fn from_cell_places_the_cell_and_passes_its_state() {
    let cell = Cell { x: 3, y: 1, state: CellState::Alive };
    assert_eq!(
        CellInstance::from_cell(&cell, 2560, 1280),
        CellInstance { scale: 2560, x: 56 * 256, y: 26 * 256, state: 1 }
    );
    let dead = Cell { x: 0, y: 2, state: CellState::Dead };
    assert_eq!(
        CellInstance::from_cell(&dead, 1280, 256),
        CellInstance { scale: 1280, x: 640 + 1536, y: 1536 * 2 + 640 + 1536, state: 0 }
    );
}

#[test]
fn snapshot_has_one_record_for_each_cell_in_order() {
    let mut grid = Grid::create(3, 2).unwrap();
    grid.toggle_at(4, CellState::Alive).unwrap();
    let records = grid.snapshot(2560, 1280);
    assert_eq!(records.len(), 6);
    for (i, record) in records.iter().enumerate() {
        let cell = grid.get(i).unwrap();
        assert_eq!(*record, CellInstance::from_cell(&cell, 2560, 1280));
    }
    assert_eq!(records[4], CellInstance { scale: 2560, x: 26 * 256, y: 26 * 256, state: 1 });
    assert_eq!(records[2], CellInstance { scale: 2560, x: 41 * 256, y: 11 * 256, state: 0 });
    assert_eq!(grid.snapshot(2560, 1280), records);
}
