use vstd::prelude::*;

verus! {

/// How many length units make one pixel. Scales, spacings and screen
/// positions are all counted in these units.
pub const UNITS_PER_PIXEL: u16 = 256;

/// Distance, in units, from the screen origin to the grid along both axes,
/// on top of half a cell.
pub const GRID_MARGIN: u16 = 6 * UNITS_PER_PIXEL;

/// Whether a cell is alive or dead.
#[derive(Clone, Copy, Debug, PartialEq, Eq, Structural)]
pub enum CellState {
    Dead,
    Alive,
}

impl CellState {
    /// The state as a truth value of the model: `true` for `Alive`.
    pub open spec fn alive(self) -> bool {
        self == CellState::Alive
    }

    /// The state that stands for a truth value of the model.
    pub open spec fn of(alive: bool) -> CellState {
        if alive {
            CellState::Alive
        } else {
            CellState::Dead
        }
    }

    pub fn is_alive(&self) -> (alive: bool)
        ensures
            alive == self.alive(),
    {
        match self {
            CellState::Alive => true,
            _ => false,
        }
    }

    /// The other state.
    pub fn opposite(self) -> (other: CellState)
        ensures
            other.alive() == !self.alive(),
    {
        match self {
            CellState::Alive => CellState::Dead,
            CellState::Dead => CellState::Alive,
        }
    }

    /// The number the renderer gets for the state: 0 for `Dead`, 1 for `Alive`.
    pub open spec fn flag(self) -> u32 {
        if self.alive() {
            1u32
        } else {
            0u32
        }
    }

    pub fn as_flag(self) -> (flag: u32)
        ensures
            flag == self.flag(),
    {
        match self {
            CellState::Alive => 1,
            CellState::Dead => 0,
        }
    }
}

/// One cell of a grid: its column `x`, its row `y` and its state.
#[derive(Clone, Copy, Debug, PartialEq, Eq, Structural)]
pub struct Cell {
    pub x: u32,
    pub y: u32,
    pub state: CellState,
}

impl Default for Cell {
    fn default() -> (cell: Cell)
        ensures
            cell == (Cell { x: 0, y: 0, state: CellState::Dead }),
    {
        Cell { x: 0, y: 0, state: CellState::Dead }
    }
}

/// Where the centre of the cell in column (or row) `coord` lies on the screen
/// along that axis: cells are `scale` wide and `spacing` apart, and the first
/// one is centred half a cell plus the margin from the origin.
pub open spec fn cell_position(coord: int, scale: int, spacing: int) -> int {
    (scale + spacing) * coord + scale / 2 + GRID_MARGIN as int
}

/// What the renderer needs to draw one cell: the side of its square, the
/// screen position of its centre, and its state as a number.
#[derive(Clone, Copy, Debug, PartialEq, Eq, Structural)]
pub struct CellInstance {
    pub scale: u16,
    pub x: i64,
    pub y: i64,
    pub state: u32,
}

impl CellInstance {
    /// The record that `from_cell` computes.
    pub open spec fn of_cell(cell: Cell, scale_factor: u16, offset: u16) -> CellInstance {
        CellInstance {
            scale: scale_factor,
            x: cell_position(cell.x as int, scale_factor as int, offset as int) as i64,
            y: cell_position(cell.y as int, scale_factor as int, offset as int) as i64,
            state: cell.state.flag(),
        }
    }

    pub fn from_cell(cell: &Cell, scale_factor: u16, offset: u16) -> (instance: CellInstance)
        ensures
            instance == CellInstance::of_cell(*cell, scale_factor, offset),
            instance.x == cell_position(cell.x as int, scale_factor as int, offset as int),
            instance.y == cell_position(cell.y as int, scale_factor as int, offset as int),
    {
        CellInstance {
            scale: scale_factor,
            x: screen_position(cell.x, scale_factor, offset),
            y: screen_position(cell.y, scale_factor, offset),
            state: cell.state.as_flag(),
        }
    }
}

/// The position of every cell fits the type of a position with room to
/// spare, so the records hold `cell_position` itself.
pub proof fn lemma_position_fits(cell: Cell, scale: u16, spacing: u16)
    ensures
        0 <= cell_position(cell.x as int, scale as int, spacing as int) <= i64::MAX,
        0 <= cell_position(cell.y as int, scale as int, spacing as int) <= i64::MAX,
        CellInstance::of_cell(cell, scale, spacing).x == cell_position(
            cell.x as int,
            scale as int,
            spacing as int,
        ),
        CellInstance::of_cell(cell, scale, spacing).y == cell_position(
            cell.y as int,
            scale as int,
            spacing as int,
        ),
{
    let pitch = scale as int + spacing as int;
    assert(0 <= pitch * cell.x <= 131070 * 4294967295) by (nonlinear_arith)
        requires
            0 <= pitch <= 131070,
            0 <= cell.x <= 4294967295,
    ;
    assert(0 <= pitch * cell.y <= 131070 * 4294967295) by (nonlinear_arith)
        requires
            0 <= pitch <= 131070,
            0 <= cell.y <= 4294967295,
    ;
}

/// Computes `cell_position` for a cell's column or row.
pub fn screen_position(coord: u32, scale: u16, spacing: u16) -> (position: i64)
    ensures
        position == cell_position(coord as int, scale as int, spacing as int),
        0 <= position,
{
    let pitch: i64 = scale as i64 + spacing as i64;
    let c: i64 = coord as i64;
    assert(0 <= pitch * c <= 131070 * 4294967295) by (nonlinear_arith)
        requires
            0 <= pitch <= 131070,
            0 <= c <= 4294967295,
    ;
    pitch * c + (scale / 2) as i64 + GRID_MARGIN as i64
}

} // verus!
