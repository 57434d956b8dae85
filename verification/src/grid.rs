use vstd::prelude::*;
use crate::cell::{Cell, CellInstance, CellState};
use crate::generation::{lemma_coords_to_place, lemma_place_to_coords, Generation};

verus! {

/// Why an operation on a grid was refused.
#[derive(Clone, Copy, Debug, PartialEq, Eq, Structural)]
pub enum GridError {
    /// A grid was asked for with no columns or no rows.
    InvalidDimensions,
    /// A coordinate or an index lies outside the grid.
    OutOfBounds,
}

/// A board of fixed size. The cells are kept row by row, and each cell
/// carries the column and the row of its place.
#[derive(Debug)]
pub struct Grid {
    width: u32,
    height: u32,
    cells: Vec<Cell>,
}

impl View for Grid {
    type V = Generation;

    closed spec fn view(&self) -> Generation {
        Generation {
            width: self.width as nat,
            height: self.height as nat,
            alive: Seq::new(self.cells@.len(), |i: int| self.cells@[i].state.alive()),
        }
    }
}

impl Grid {
    /// Every cell stands at the place that its column and row name.
    pub closed spec fn coords_in_place(&self) -> bool {
        &&& self.cells@.len() == self.width * self.height
        &&& forall|i: int|
            0 <= i < self.cells@.len() ==> {
                &&& (#[trigger] self.cells@[i]).x < self.width
                &&& self.cells@[i].y < self.height
                &&& self.cells@[i].x + self.cells@[i].y * self.width == i
            }
    }

    /// The grid's invariant: it has a cell for every place of a board with
    /// at least one column and one row, each with its own coordinates.
    pub open spec fn wf(&self) -> bool {
        &&& self@.wf()
        &&& self.coords_in_place()
    }

    /// The cell records are those of the model.
    proof fn lemma_cells(&self)
        requires
            self.wf(),
        ensures
            self.cells@.len() == self@.alive.len(),
            self.cells@.len() == self.width * self.height,
            self@.width == self.width,
            self@.height == self.height,
            forall|i: int|
                0 <= i < self.cells@.len() ==> {
                    &&& #[trigger] self.cells@[i] == self@.cell(i)
                    &&& self.cells@[i].x == self@.column(i)
                    &&& self.cells@[i].y == self@.row(i)
                    &&& self.cells@[i].state.alive() == self@.alive[i]
                    &&& self@.contains(self@.column(i), self@.row(i))
                },
    {
        assert forall|i: int| 0 <= i < self.cells@.len() implies {
            &&& #[trigger] self.cells@[i] == self@.cell(i)
            &&& self.cells@[i].x == self@.column(i)
            &&& self.cells@[i].y == self@.row(i)
            &&& self.cells@[i].state.alive() == self@.alive[i]
            &&& self@.contains(self@.column(i), self@.row(i))
        } by {
            let c = self.cells@[i];
            lemma_coords_to_place(c.x as int, c.y as int, self.width as int, self.height as int);
        }
    }

    /// A grid of `width` columns and `height` rows with every cell dead.
    /// A grid without columns or without rows is refused.
    pub fn create(width: u32, height: u32) -> (created: Result<Grid, GridError>)
        requires
            width * height <= usize::MAX,
        ensures
            match created {
                Ok(grid) => width > 0 && height > 0 && grid.wf() && grid@ == Generation::dead(
                    width as nat,
                    height as nat,
                ),
                Err(e) => (width == 0 || height == 0) && e == GridError::InvalidDimensions,
            },
    {
        if width == 0 || height == 0 {
            return Err(GridError::InvalidDimensions);
        }
        let w: usize = width as usize;
        let n: usize = w * (height as usize);
        let mut cells: Vec<Cell> = Vec::new();
        let mut i: usize = 0;
        while i < n
            invariant
                w == width,
                width > 0,
                height > 0,
                n == width * height,
                i <= n,
                cells@.len() == i,
                forall|k: int|
                    0 <= k < i ==> {
                        &&& (#[trigger] cells@[k]).x < width
                        &&& cells@[k].y < height
                        &&& cells@[k].x + cells@[k].y * width == k
                        &&& cells@[k].state == CellState::Dead
                    },
            decreases n - i,
        {
            proof {
                lemma_place_to_coords(i as int, width as int, height as int);
            }
            let x: u32 = (i % w) as u32;
            let y: u32 = (i / w) as u32;
            cells.push(Cell { x, y, state: CellState::Dead });
            i += 1;
        }
        let grid = Grid { width, height, cells };
        assert(grid@.alive =~= Generation::dead(width as nat, height as nat).alive);
        Ok(grid)
    }

    pub fn width(&self) -> (width: u32)
        ensures
            width == self@.width,
    {
        self.width
    }

    pub fn height(&self) -> (height: u32)
        ensures
            height == self@.height,
    {
        self.height
    }

    /// How many cells the grid has.
    pub fn len(&self) -> (len: usize)
        requires
            self.wf(),
        ensures
            len == self@.alive.len(),
            len == self@.width * self@.height,
    {
        self.cells.len()
    }

    /// The place of column `x`, row `y`, which is `x + y * width`.
    /// Coordinates off the grid are refused.
    pub fn index(&self, x: u32, y: u32) -> (place: Result<usize, GridError>)
        requires
            self.wf(),
        ensures
            match place {
                Ok(i) => self@.contains(x as int, y as int) && i == self@.index(x as int, y as int)
                    && i < self@.alive.len(),
                Err(e) => !self@.contains(x as int, y as int) && e == GridError::OutOfBounds,
            },
    {
        if x < self.width && y < self.height {
            let n = self.cells.len();
            proof {
                lemma_coords_to_place(x as int, y as int, self.width as int, self.height as int);
                assert(n == self.width * self.height);
                assert(0 <= y * self.width) by (nonlinear_arith);
            }
            Ok(x as usize + y as usize * self.width as usize)
        } else {
            Err(GridError::OutOfBounds)
        }
    }

    /// The cell at place `index`. An index past the last cell is refused.
    pub fn get(&self, index: usize) -> (found: Result<Cell, GridError>)
        requires
            self.wf(),
        ensures
            match found {
                Ok(cell) => index < self@.alive.len() && cell == self@.cell(index as int),
                Err(e) => index >= self@.alive.len() && e == GridError::OutOfBounds,
            },
    {
        proof {
            self.lemma_cells();
        }
        if index < self.cells.len() {
            Ok(self.cells[index])
        } else {
            Err(GridError::OutOfBounds)
        }
    }

    /// Sets the state of the cell at place `index`. An index past the last
    /// cell is refused, and the grid stays as it was.
    pub fn toggle_at(&mut self, index: usize, new_state: CellState) -> (done: Result<(), GridError>)
        requires
            old(self).wf(),
        ensures
            final(self).wf(),
            match done {
                Ok(_) => index < old(self)@.alive.len() && final(self)@ == old(self)@.with_state(
                    index as int,
                    new_state.alive(),
                ),
                Err(e) => index >= old(self)@.alive.len() && e == GridError::OutOfBounds
                    && *final(self) == *old(self),
            },
    {
        if index >= self.cells.len() {
            return Err(GridError::OutOfBounds);
        }
        let cell = self.cells[index];
        self.cells.set(index, Cell { x: cell.x, y: cell.y, state: new_state });
        assert(self@.alive =~= old(self)@.with_state(index as int, new_state.alive()).alive);
        Ok(())
    }

    /// Sets every cell dead.
    pub fn reset_all_dead(&mut self)
        requires
            old(self).wf(),
        ensures
            final(self).wf(),
            final(self)@ == Generation::dead(old(self)@.width, old(self)@.height),
    {
        let n = self.cells.len();
        let mut i: usize = 0;
        while i < n
            invariant
                self.wf(),
                self.width == old(self).width,
                self.height == old(self).height,
                n == self.cells@.len(),
                i <= n,
                forall|k: int| 0 <= k < i ==> (#[trigger] self.cells@[k]).state == CellState::Dead,
            decreases n - i,
        {
            let cell = self.cells[i];
            self.cells.set(i, Cell { x: cell.x, y: cell.y, state: CellState::Dead });
            i += 1;
        }
        assert(self@.alive =~= Generation::dead(old(self)@.width, old(self)@.height).alive);
    }

    /// Whether the cell in column `x`, row `y` of the grid is alive.
    fn alive_in(&self, x: u32, y: u32) -> (alive: bool)
        requires
            self.wf(),
            self@.contains(x as int, y as int),
        ensures
            alive == self@.alive_at(x as int, y as int),
    {
        let n = self.cells.len();
        proof {
            lemma_coords_to_place(x as int, y as int, self.width as int, self.height as int);
            assert(n == self.width * self.height);
            assert(0 <= y * self.width) by (nonlinear_arith);
        }
        self.cells[x as usize + y as usize * self.width as usize].state.is_alive()
    }

    /// The count that `live_neighbors` gives, for a cell of the grid.
    fn neighbors_in(&self, x: u32, y: u32) -> (count: u8)
        requires
            self.wf(),
            self@.contains(x as int, y as int),
        ensures
            count == self@.live_neighbors(x as int, y as int),
    {
        let has_left = x > 0;
        let has_top = y > 0;
        let has_right = x < self.width - 1;
        let has_bottom = y < self.height - 1;

        let mut count: u8 = 0;
        if has_top && self.alive_in(x, y - 1) {
            count += 1;
        }
        if has_bottom && self.alive_in(x, y + 1) {
            count += 1;
        }
        if has_right && self.alive_in(x + 1, y) {
            count += 1;
        }
        if has_left && self.alive_in(x - 1, y) {
            count += 1;
        }
        if has_right && has_top && self.alive_in(x + 1, y - 1) {
            count += 1;
        }
        if has_right && has_bottom && self.alive_in(x + 1, y + 1) {
            count += 1;
        }
        if has_left && has_top && self.alive_in(x - 1, y - 1) {
            count += 1;
        }
        if has_left && has_bottom && self.alive_in(x - 1, y + 1) {
            count += 1;
        }
        count
    }

    /// How many of the cells around column `x`, row `y` are alive. A cell on
    /// an edge has no neighbours beyond it. Coordinates off the grid are
    /// refused.
    pub fn live_neighbors(&self, x: u32, y: u32) -> (counted: Result<u8, GridError>)
        requires
            self.wf(),
        ensures
            match counted {
                Ok(count) => self@.contains(x as int, y as int) && count
                    == self@.live_neighbors(x as int, y as int),
                Err(e) => !self@.contains(x as int, y as int) && e == GridError::OutOfBounds,
            },
    {
        if x < self.width && y < self.height {
            Ok(self.neighbors_in(x, y))
        } else {
            Err(GridError::OutOfBounds)
        }
    }

    /// Replaces the grid's generation by the next one. Every cell is judged
    /// by the generation before the step: the new states are gathered apart
    /// and put in place when all are known.
    pub fn step(&mut self)
        requires
            old(self).wf(),
        ensures
            final(self).wf(),
            final(self)@ == old(self)@.next(),
    {
        let n = self.cells.len();
        let mut next: Vec<Cell> = Vec::with_capacity(n);
        let mut i: usize = 0;
        proof {
            self.lemma_cells();
        }
        while i < n
            invariant
                *self == *old(self),
                self.wf(),
                n == self.cells@.len(),
                i <= n,
                next@.len() == i,
                forall|k: int|
                    0 <= k < n ==> {
                        &&& (#[trigger] self.cells@[k]).x == self@.column(k)
                        &&& self.cells@[k].y == self@.row(k)
                        &&& self.cells@[k].state.alive() == self@.alive[k]
                        &&& self@.contains(self@.column(k), self@.row(k))
                    },
                forall|k: int|
                    0 <= k < i ==> {
                        &&& (#[trigger] next@[k]).x == self.cells@[k].x
                        &&& next@[k].y == self.cells@[k].y
                        &&& next@[k].state.alive() == self@.next_alive_at(
                            self@.column(k),
                            self@.row(k),
                        )
                    },
            decreases n - i,
        {
            let cell = self.cells[i];
            proof {
                lemma_coords_to_place(
                    cell.x as int,
                    cell.y as int,
                    self.width as int,
                    self.height as int,
                );
            }
            let state = next_state(cell.state, self.neighbors_in(cell.x, cell.y));
            next.push(Cell { x: cell.x, y: cell.y, state });
            i += 1;
        }
        self.cells = next;
        assert(self@.alive =~= old(self)@.next().alive);
    }

    /// The records from which the renderer draws the grid, one for each cell
    /// in the grid's order, for cells `scale` wide and `spacing` apart.
    pub fn snapshot(&self, scale: u16, spacing: u16) -> (records: Vec<CellInstance>)
        requires
            self.wf(),
        ensures
            records@.len() == self@.alive.len(),
            forall|i: int|
                0 <= i < records@.len() ==> #[trigger] records@[i] == CellInstance::of_cell(
                    self@.cell(i),
                    scale,
                    spacing,
                ),
    {
        let n = self.cells.len();
        let mut records: Vec<CellInstance> = Vec::with_capacity(n);
        let mut i: usize = 0;
        proof {
            self.lemma_cells();
        }
        while i < n
            invariant
                n == self.cells@.len(),
                n == self@.alive.len(),
                i <= n,
                records@.len() == i,
                forall|k: int| 0 <= k < n ==> #[trigger] self.cells@[k] == self@.cell(k),
                forall|k: int|
                    0 <= k < i ==> #[trigger] records@[k] == CellInstance::of_cell(
                        self@.cell(k),
                        scale,
                        spacing,
                    ),
            decreases n - i,
        {
            records.push(CellInstance::from_cell(&self.cells[i], scale, spacing));
            i += 1;
        }
        records
    }

    /// Sets alive every cell that `coords` lists by column and row, and
    /// leaves the others as they are. An entry off the grid is refused and
    /// changes nothing, the entries on the grid are applied all the same, and
    /// the result then says `OutOfBounds`.
    pub fn stamp(&mut self, coords: &Vec<(u32, u32)>) -> (done: Result<(), GridError>)
        requires
            old(self).wf(),
        ensures
            final(self).wf(),
            final(self)@ == old(self)@.stamped(coords@),
            match done {
                Ok(_) => old(self)@.contains_all(coords@),
                Err(e) => !old(self)@.contains_all(coords@) && e == GridError::OutOfBounds,
            },
    {
        let mut all_inside = true;
        let mut k: usize = 0;
        while k < coords.len()
            invariant
                self.wf(),
                self@.width == old(self)@.width,
                self@.height == old(self)@.height,
                self@.alive.len() == old(self)@.alive.len(),
                k <= coords@.len(),
                all_inside <==> forall|j: int|
                    0 <= j < k ==> old(self)@.contains(
                        (#[trigger] coords@[j]).0 as int,
                        coords@[j].1 as int,
                    ),
                forall|i: int|
                    0 <= i < self@.alive.len() ==> (#[trigger] self@.alive[i] <==> (old(
                        self,
                    )@.alive[i] || Generation::listed(
                        coords@,
                        k as int,
                        self@.column(i),
                        self@.row(i),
                    ))),
            decreases coords@.len() - k,
        {
            let x = coords[k].0;
            let y = coords[k].1;
            let ghost before = self@;
            proof {
                assert forall|i: int| 0 <= i < before.alive.len() implies before.contains(
                    before.column(i),
                    before.row(i),
                ) && before.index(before.column(i), before.row(i)) == i by {
                    lemma_place_to_coords(i, before.width as int, before.height as int);
                }
            }
            match self.index(x, y) {
                Ok(place) => {
                    proof {
                        lemma_coords_to_place(
                            x as int,
                            y as int,
                            before.width as int,
                            before.height as int,
                        );
                    }
                    let _ = self.toggle_at(place, CellState::Alive);
                },
                Err(_) => {
                    all_inside = false;
                },
            }
            k += 1;
        }
        assert(self@.alive =~= old(self)@.stamped(coords@).alive);
        if all_inside {
            Ok(())
        } else {
            Err(GridError::OutOfBounds)
        }
    }
}

/// The state of a cell one generation on, from its state now and the number
/// of its live neighbours.
pub fn next_state(state: CellState, neighbors: u8) -> (next: CellState)
    ensures
        next.alive() == Generation::rule(state.alive(), neighbors as nat),
{
    if state.is_alive() {
        if neighbors == 2 || neighbors == 3 {
            CellState::Alive
        } else {
            CellState::Dead
        }
    } else if neighbors == 3 {
        CellState::Alive
    } else {
        CellState::Dead
    }
}

} // verus!
