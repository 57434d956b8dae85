use game_of_life::cell::screen_position;
use game_of_life::mapper::{cell_index_from_position, coord_from_position};
use game_of_life::state::State;

const SCALE: u16 = 2560;
const SPACING: u16 = 1280;

#[test]
fn coord_is_the_floor_of_the_shifted_position_over_the_pitch() {
    // origin = 1280 + 1280 = 2560, pitch = 3840
    assert_eq!(coord_from_position(2560, SCALE, SPACING, 100), Some(0));
    assert_eq!(coord_from_position(2560 + 3839, SCALE, SPACING, 100), Some(0));
    assert_eq!(coord_from_position(2560 + 3840, SCALE, SPACING, 100), Some(1));
    assert_eq!(coord_from_position(2560 + 3840 * 99 + 17, SCALE, SPACING, 100), Some(99));
    assert_eq!(coord_from_position(2560 + 3840 * 100, SCALE, SPACING, 100), None);
}

#[test]
fn positions_before_the_first_cell_map_to_nothing() {
    assert_eq!(coord_from_position(2559, SCALE, SPACING, 100), None);
    assert_eq!(coord_from_position(0, SCALE, SPACING, 100), None);
    assert_eq!(coord_from_position(-1, SCALE, SPACING, 100), None);
    assert_eq!(coord_from_position(i64::MIN, SCALE, SPACING, 100), None);
    assert_eq!(cell_index_from_position(-5000, 5000, SCALE, SPACING, 10, 10), None);
    assert_eq!(cell_index_from_position(5000, -5000, SCALE, SPACING, 10, 10), None);
}

#[test]
fn positions_past_the_board_map_to_nothing() {
    assert_eq!(coord_from_position(i64::MAX, SCALE, SPACING, u32::MAX), None);
    // column 10 of a board ten wide, though the place 10 exists
    let x = screen_position(10, SCALE, SPACING);
    let y = screen_position(0, SCALE, SPACING);
    assert_eq!(cell_index_from_position(x, y, SCALE, SPACING, 10, 10), None);
    assert_eq!(cell_index_from_position(y, x, SCALE, SPACING, 10, 10), None);
}

#[test]
fn cells_without_extent_map_to_nothing() {
    assert_eq!(coord_from_position(0, 0, 0, 100), None);
    assert_eq!(cell_index_from_position(5000, 5000, 0, 0, 10, 10), None);
    assert_eq!(coord_from_position(2, 0, 1, 100), Some(1));
    assert_eq!(coord_from_position(7, 3, 0, 100), Some(2));
}

#[test]
fn index_is_column_plus_row_times_the_width() {
    let x = screen_position(3, SCALE, SPACING);
    let y = screen_position(2, SCALE, SPACING);
    assert_eq!(cell_index_from_position(x, y, SCALE, SPACING, 10, 10), Some(23));
    assert_eq!(cell_index_from_position(x, y, SCALE, SPACING, 100, 100), Some(203));
    assert_eq!(State::cell_index_from_pos(x, y, SCALE, SPACING), Some(203));
    assert_eq!(State::cell_index_from_pos(x, y, SCALE, SPACING), Some(State::cell_idx(3, 2)));
}

#[test]
fn drawn_position_of_every_cell_maps_back_to_the_cell() {
    for (scale, spacing) in [(2560u16, 1280u16), (1280, 256), (25600, 1536), (1281, 255)] {
        for y in 0..100u32 {
            for x in 0..100u32 {
                let px = screen_position(x, scale, spacing);
                let py = screen_position(y, scale, spacing);
                assert_eq!(
                    State::cell_index_from_pos(px, py, scale, spacing),
                    Some(State::cell_idx(x, y))
                );
            }
        }
    }
}

#[test]
fn spacing_over_the_margin_breaks_the_way_back() {
    // spacing 7 px: the first cell is drawn before the first mapped column
    let spacing: u16 = 7 * 256;
    let first = screen_position(0, SCALE, spacing);
    assert_eq!(State::cell_index_from_pos(first, first, SCALE, spacing), None);
    let second = screen_position(1, SCALE, spacing);
    assert_eq!(State::cell_index_from_pos(second, second, SCALE, spacing), Some(0));
}

#[test]
fn cell_idx_is_column_plus_row_times_one_hundred() {
    assert_eq!(State::cell_idx(0, 0), 0);
    assert_eq!(State::cell_idx(99, 0), 99);
    assert_eq!(State::cell_idx(0, 1), 100);
    assert_eq!(State::cell_idx(99, 99), 9999);
}
