use vstd::prelude::*;
use vstd::arithmetic::div_mod::{
    lemma_fundamental_div_mod, lemma_fundamental_div_mod_converse, lemma_mod_pos_bound,
};
use crate::cell::{Cell, CellState};

verus! {

/// One generation of the game as a mathematical value: the size of the board
/// and, row by row, which cells are alive.
pub struct Generation {
    pub width: nat,
    pub height: nat,
    pub alive: Seq<bool>,
}

impl Generation {
    /// The board has at least one cell and `alive` has one entry for each.
    pub open spec fn wf(self) -> bool {
        &&& self.width > 0
        &&& self.height > 0
        &&& self.alive.len() == self.width * self.height
    }

    /// Whether column `x`, row `y` lies on the board.
    pub open spec fn contains(self, x: int, y: int) -> bool {
        0 <= x < self.width && 0 <= y < self.height
    }

    /// The place of column `x`, row `y` in row-major order.
    pub open spec fn index(self, x: int, y: int) -> int {
        x + y * self.width
    }

    /// The column of the cell at place `i`.
    pub open spec fn column(self, i: int) -> int {
        i % (self.width as int)
    }

    /// The row of the cell at place `i`.
    pub open spec fn row(self, i: int) -> int {
        i / (self.width as int)
    }

    /// Whether the cell in column `x`, row `y` is alive. Off the board there
    /// is no cell, and nothing is alive.
    pub open spec fn alive_at(self, x: int, y: int) -> bool {
        self.contains(x, y) && self.alive[self.index(x, y)]
    }

    /// 1 for a live cell in column `x`, row `y`, and 0 otherwise.
    pub open spec fn population_at(self, x: int, y: int) -> nat {
        if self.alive_at(x, y) {
            1
        } else {
            0
        }
    }

    /// How many of the up to eight cells around column `x`, row `y` are
    /// alive. The board does not wrap around.
    pub open spec fn live_neighbors(self, x: int, y: int) -> nat {
        self.population_at(x, y - 1) + self.population_at(x, y + 1)
            + self.population_at(x + 1, y) + self.population_at(x - 1, y)
            + self.population_at(x + 1, y - 1) + self.population_at(x + 1, y + 1)
            + self.population_at(x - 1, y - 1) + self.population_at(x - 1, y + 1)
    }

    /// The rule of the game: a live cell survives with two or three live
    /// neighbours, a dead one comes alive with exactly three.
    pub open spec fn rule(alive: bool, neighbors: nat) -> bool {
        if alive {
            neighbors == 2 || neighbors == 3
        } else {
            neighbors == 3
        }
    }

    /// Whether the cell in column `x`, row `y` is alive one generation on.
    pub open spec fn next_alive_at(self, x: int, y: int) -> bool {
        Self::rule(self.alive_at(x, y), self.live_neighbors(x, y))
    }

    /// The generation that follows this one. Every cell is judged by this
    /// generation alone.
    pub open spec fn next(self) -> Generation {
        Generation {
            width: self.width,
            height: self.height,
            alive: Seq::new(
                self.alive.len(),
                |i: int| self.next_alive_at(self.column(i), self.row(i)),
            ),
        }
    }

    /// A board of the given size with no live cell.
    pub open spec fn dead(width: nat, height: nat) -> Generation {
        Generation { width, height, alive: Seq::new(width * height, |i: int| false) }
    }

    /// No cell is alive.
    pub open spec fn all_dead(self) -> bool {
        forall|i: int| 0 <= i < self.alive.len() ==> !#[trigger] self.alive[i]
    }

    /// This generation with the cell at place `i` set alive or dead.
    pub open spec fn with_state(self, i: int, alive: bool) -> Generation {
        Generation { width: self.width, height: self.height, alive: self.alive.update(i, alive) }
    }

    /// The cell record at place `i`: its column, its row and its state.
    pub open spec fn cell(self, i: int) -> Cell {
        Cell {
            x: self.column(i) as u32,
            y: self.row(i) as u32,
            state: CellState::of(self.alive[i]),
        }
    }

    /// Whether `(x, y)` is among the first `k` entries of `coords`.
    pub open spec fn listed(coords: Seq<(u32, u32)>, k: int, x: int, y: int) -> bool {
        exists|j: int| 0 <= j < k && (#[trigger] coords[j]).0 == x && coords[j].1 == y
    }

    /// This generation with every cell alive that `coords` lists, besides
    /// those that were alive already. Entries off the board change nothing.
    pub open spec fn stamped(self, coords: Seq<(u32, u32)>) -> Generation {
        Generation {
            width: self.width,
            height: self.height,
            alive: Seq::new(
                self.alive.len(),
                |i: int|
                    self.alive[i] || Self::listed(
                        coords,
                        coords.len() as int,
                        self.column(i),
                        self.row(i),
                    ),
            ),
        }
    }

    /// Every entry of `coords` lies on the board.
    pub open spec fn contains_all(self, coords: Seq<(u32, u32)>) -> bool {
        forall|j: int|
            0 <= j < coords.len() ==> self.contains(
                (#[trigger] coords[j]).0 as int,
                coords[j].1 as int,
            )
    }
}

/// A place on a board of width `w` and height `h` has a column and a row on
/// the board, and is the place of that column and row.
pub proof fn lemma_place_to_coords(i: int, w: int, h: int)
    requires
        w > 0,
        h > 0,
        0 <= i < w * h,
    ensures
        0 <= i % w < w,
        0 <= i / w < h,
        i % w + (i / w) * w == i,
{
    lemma_fundamental_div_mod(i, w);
    lemma_mod_pos_bound(i, w);
    let q = i / w;
    let r = i % w;
    assert(q < h && q >= 0 && r + q * w == i) by (nonlinear_arith)
        requires
            i == w * q + r,
            0 <= r < w,
            0 <= i < w * h,
            w > 0,
    ;
}

/// The place of column `x`, row `y` on a board of width `w` and height `h`
/// lies within the board's places and has that column and that row.
pub proof fn lemma_coords_to_place(x: int, y: int, w: int, h: int)
    requires
        0 <= x < w,
        0 <= y < h,
    ensures
        0 <= x + y * w < w * h,
        (x + y * w) % w == x,
        (x + y * w) / w == y,
{
    lemma_fundamental_div_mod_converse(x + y * w, w, y, x);
    assert(0 <= x + y * w < w * h) by (nonlinear_arith)
        requires
            0 <= x < w,
            0 <= y < h,
    ;
}

} // verus!
