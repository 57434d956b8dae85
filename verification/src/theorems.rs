use vstd::prelude::*;
use crate::generation::{lemma_coords_to_place, lemma_place_to_coords, Generation};

verus! {

/// Whether `(x, y)` belongs to the two-by-two block whose first column is
/// `bx` and whose first row is `by`.
pub open spec fn in_block(bx: int, by: int, x: int, y: int) -> bool {
    bx <= x <= bx + 1 && by <= y <= by + 1
}

/// Whether `(x, y)` belongs to the line of three cells in row `cy` around
/// column `cx`.
pub open spec fn in_row_line(cx: int, cy: int, x: int, y: int) -> bool {
    y == cy && cx - 1 <= x <= cx + 1
}

/// Whether `(x, y)` belongs to the line of three cells in column `cx` around
/// row `cy`.
pub open spec fn in_column_line(cx: int, cy: int, x: int, y: int) -> bool {
    x == cx && cy - 1 <= y <= cy + 1
}

/// Whether `(x, y)` belongs to the glider that heads down and to the right,
/// in the given one of its four phases, drawn in the square of four by four
/// cells whose first column is `ox` and whose first row is `oy`. After the
/// fourth phase comes the first again, one column and one row further.
pub open spec fn in_glider(phase: int, ox: int, oy: int, x: int, y: int) -> bool {
    let dx = x - ox;
    let dy = y - oy;
    if phase == 0 {
        (dx == 1 && dy == 0) || (dx == 2 && dy == 1) || (0 <= dx <= 2 && dy == 2)
    } else if phase == 1 {
        (dx == 0 && dy == 1) || (dx == 2 && dy == 1) || (1 <= dx <= 2 && dy == 2) || (dx == 1
            && dy == 3)
    } else if phase == 2 {
        (dx == 2 && dy == 1) || (dx == 0 && dy == 2) || (dx == 2 && dy == 2) || (1 <= dx <= 2
            && dy == 3)
    } else if phase == 3 {
        (dx == 1 && dy == 1) || (2 <= dx <= 3 && dy == 2) || (1 <= dx <= 2 && dy == 3)
    } else {
        false
    }
}

impl Generation {
    /// The live cells are those of one glider in the given phase, and no
    /// others.
    pub open spec fn shows_glider(self, phase: int, ox: int, oy: int) -> bool {
        forall|x: int, y: int| #[trigger] self.alive_at(x, y) <==> in_glider(phase, ox, oy, x, y)
    }

    /// The live cells are those of one glider in the given phase, and no
    /// others; the board holds the square of four by four cells through
    /// which the glider passes.
    pub open spec fn is_glider(self, phase: int, ox: int, oy: int) -> bool {
        &&& self.contains(ox, oy)
        &&& self.contains(ox + 3, oy + 3)
        &&& self.shows_glider(phase, ox, oy)
    }

    /// The live cells are those of one two-by-two block on the board, and no
    /// others.
    pub open spec fn is_block(self, bx: int, by: int) -> bool {
        &&& self.contains(bx, by)
        &&& self.contains(bx + 1, by + 1)
        &&& forall|x: int, y: int| #[trigger] self.alive_at(x, y) <==> in_block(bx, by, x, y)
    }

    /// The four cells of the block are alive, and the cells around the block
    /// are dead, whatever lies further off.
    pub open spec fn has_isolated_block(self, bx: int, by: int) -> bool {
        &&& self.contains(bx, by)
        &&& self.contains(bx + 1, by + 1)
        &&& forall|x: int, y: int|
            bx - 1 <= x <= bx + 2 && by - 1 <= y <= by + 2 ==> (#[trigger] self.alive_at(x, y)
                <==> in_block(bx, by, x, y))
    }

    /// The live cells are those of one line of three in a row, and no
    /// others; the board has room for the line and for the one across it.
    pub open spec fn is_row_blinker(self, cx: int, cy: int) -> bool {
        &&& self.contains(cx - 1, cy - 1)
        &&& self.contains(cx + 1, cy + 1)
        &&& forall|x: int, y: int| #[trigger] self.alive_at(x, y) <==> in_row_line(cx, cy, x, y)
    }

    /// The live cells are those of one line of three in a column, and no
    /// others; the board has room for the line and for the one across it.
    pub open spec fn is_column_blinker(self, cx: int, cy: int) -> bool {
        &&& self.contains(cx - 1, cy - 1)
        &&& self.contains(cx + 1, cy + 1)
        &&& forall|x: int, y: int|
            #[trigger] self.alive_at(x, y) <==> in_column_line(cx, cy, x, y)
    }

    /// The cell lies in the first or last column, or in the first or last row.
    pub open spec fn on_edge(self, x: int, y: int) -> bool {
        x == 0 || x == self.width - 1 || y == 0 || y == self.height - 1
    }

    /// The cell lies in the first or last column and in the first or last row.
    pub open spec fn on_corner(self, x: int, y: int) -> bool {
        (x == 0 || x == self.width - 1) && (y == 0 || y == self.height - 1)
    }
}

/// The next generation has the size of this one, and a cell of the board is
/// alive in it exactly if the rule says so of the cell and its neighbours in
/// this one.
pub proof fn lemma_next_alive_at(g: Generation, x: int, y: int)
    requires
        g.wf(),
    ensures
        g.next().wf(),
        g.next().width == g.width,
        g.next().height == g.height,
        g.next().alive_at(x, y) == (g.contains(x, y) && g.next_alive_at(x, y)),
{
    if g.contains(x, y) {
        lemma_coords_to_place(x, y, g.width as int, g.height as int);
    }
}

/// Two generations of one size in which the same cells are alive are the
/// same generation.
pub proof fn lemma_same_cells(a: Generation, b: Generation)
    requires
        a.wf(),
        b.wf(),
        a.width == b.width,
        a.height == b.height,
        forall|x: int, y: int| a.alive_at(x, y) == b.alive_at(x, y),
    ensures
        a == b,
{
    assert forall|i: int| 0 <= i < a.alive.len() implies a.alive[i] == b.alive[i] by {
        lemma_place_to_coords(i, a.width as int, a.height as int);
        let x = a.column(i);
        let y = a.row(i);
        assert(a.alive_at(x, y) == b.alive_at(x, y));
    }
    assert(a.alive =~= b.alive);
}

/// Nothing is born on an empty board: the generation after one without a
/// live cell has no live cell, and is that same generation.
pub proof fn lemma_empty_stays_empty(g: Generation)
    requires
        g.wf(),
        g.all_dead(),
    ensures
        g.next().all_dead(),
        g.next() == g,
{
    assert forall|x: int, y: int| !g.alive_at(x, y) by {
        if g.contains(x, y) {
            lemma_coords_to_place(x, y, g.width as int, g.height as int);
        }
    }
    assert forall|i: int| 0 <= i < g.alive.len() implies !g.next().alive[i] by {
        let x = g.column(i);
        let y = g.row(i);
        assert(!g.next_alive_at(x, y));
    }
    assert(g.next().alive =~= g.alive);
}

/// A two-by-two block with nothing else alive is a still life: the next
/// generation is the same as this one.
pub proof fn lemma_block_is_still(g: Generation, bx: int, by: int)
    requires
        g.wf(),
        g.is_block(bx, by),
    ensures
        g.next() == g,
{
    assert forall|x: int, y: int| g.next().alive_at(x, y) == g.alive_at(x, y) by {
        lemma_next_alive_at(g, x, y);
    }
    lemma_next_alive_at(g, 0, 0);
    lemma_same_cells(g.next(), g);
}

/// The cells of a two-by-two block live on as long as the cells around the
/// block are dead, whatever lies further off.
pub proof fn lemma_isolated_block_survives(g: Generation, bx: int, by: int)
    requires
        g.wf(),
        g.has_isolated_block(bx, by),
    ensures
        forall|x: int, y: int| in_block(bx, by, x, y) ==> #[trigger] g.next().alive_at(x, y),
{
    assert forall|x: int, y: int| in_block(bx, by, x, y) implies #[trigger] g.next().alive_at(
        x,
        y,
    ) by {
        lemma_next_alive_at(g, x, y);
    }
}

/// A line of three in a row, alone on the board, is the line of three in a
/// column around the same cell one generation on.
pub proof fn lemma_row_blinker_turns(g: Generation, cx: int, cy: int)
    requires
        g.wf(),
        g.is_row_blinker(cx, cy),
    ensures
        g.next().wf(),
        g.next().is_column_blinker(cx, cy),
{
    lemma_next_alive_at(g, cx, cy);
    assert forall|x: int, y: int| #[trigger]
        g.next().alive_at(x, y) <==> in_column_line(cx, cy, x, y) by {
        lemma_next_alive_at(g, x, y);
    }
}

/// A line of three in a column, alone on the board, is the line of three in
/// a row around the same cell one generation on.
pub proof fn lemma_column_blinker_turns(g: Generation, cx: int, cy: int)
    requires
        g.wf(),
        g.is_column_blinker(cx, cy),
    ensures
        g.next().wf(),
        g.next().is_row_blinker(cx, cy),
{
    lemma_next_alive_at(g, cx, cy);
    assert forall|x: int, y: int| #[trigger]
        g.next().alive_at(x, y) <==> in_row_line(cx, cy, x, y) by {
        lemma_next_alive_at(g, x, y);
    }
}

/// A blinker has period two: a line of three, in a row or in a column, alone
/// on the board, is the line across it after one generation and itself
/// again after two.
pub proof fn lemma_blinker_period_two(g: Generation, cx: int, cy: int)
    requires
        g.wf(),
        g.is_row_blinker(cx, cy) || g.is_column_blinker(cx, cy),
    ensures
        g.is_row_blinker(cx, cy) ==> g.next().is_column_blinker(cx, cy),
        g.is_column_blinker(cx, cy) ==> g.next().is_row_blinker(cx, cy),
        g.next() != g,
        g.next().next() == g,
{
    if g.is_row_blinker(cx, cy) {
        lemma_row_blinker_turns(g, cx, cy);
        lemma_column_blinker_turns(g.next(), cx, cy);
        assert(g.alive_at(cx - 1, cy) && !g.next().alive_at(cx - 1, cy));
    } else {
        lemma_column_blinker_turns(g, cx, cy);
        lemma_row_blinker_turns(g.next(), cx, cy);
        assert(g.alive_at(cx, cy - 1) && !g.next().alive_at(cx, cy - 1));
    }
    lemma_next_alive_at(g, cx, cy);
    lemma_next_alive_at(g.next(), cx, cy);
    lemma_same_cells(g.next().next(), g);
}

/// A glider, alone on the board, is in its next phase one generation on; and
/// after its fourth phase it is in its first again, one column to the right
/// and one row down.
pub proof fn lemma_glider_step(g: Generation, phase: int, ox: int, oy: int)
    requires
        g.wf(),
        0 <= phase <= 3,
        g.is_glider(phase, ox, oy),
    ensures
        g.next().wf(),
        phase < 3 ==> g.next().is_glider(phase + 1, ox, oy),
        phase == 3 ==> g.next().shows_glider(0, ox + 1, oy + 1),
{
    lemma_next_alive_at(g, ox, oy);
    if phase < 3 {
        assert forall|x: int, y: int| #[trigger]
            g.next().alive_at(x, y) <==> in_glider(phase + 1, ox, oy, x, y) by {
            lemma_next_alive_at(g, x, y);
        }
    } else {
        assert forall|x: int, y: int| #[trigger]
            g.next().alive_at(x, y) <==> in_glider(0, ox + 1, oy + 1, x, y) by {
            lemma_next_alive_at(g, x, y);
        }
    }
}

/// A glider travels: alone on a board that holds the square through which
/// it passes, it stands after four generations where it stood before, moved
/// by one column to the right and one row down.
pub proof fn lemma_glider_travels(g: Generation, ox: int, oy: int)
    requires
        g.wf(),
        g.is_glider(0, ox, oy),
    ensures
        g.next().next().next().next().shows_glider(0, ox + 1, oy + 1),
        forall|x: int, y: int| #[trigger]
            g.next().next().next().next().alive_at(x, y) == g.alive_at(x - 1, y - 1),
{
    let g1 = g.next();
    let g2 = g1.next();
    let g3 = g2.next();
    let g4 = g3.next();
    lemma_glider_step(g, 0, ox, oy);
    lemma_glider_step(g1, 1, ox, oy);
    lemma_glider_step(g2, 2, ox, oy);
    lemma_glider_step(g3, 3, ox, oy);
    assert forall|x: int, y: int| #[trigger] g4.alive_at(x, y) == g.alive_at(x - 1, y - 1) by {
        assert(g.alive_at(x - 1, y - 1) <==> in_glider(0, ox, oy, x - 1, y - 1));
    }
}

/// Stamping is a union: after it a cell is alive exactly if it was alive
/// before or is a cell of the board that the list names. No cell is cleared.
pub proof fn lemma_stamp_is_union(g: Generation, coords: Seq<(u32, u32)>, x: int, y: int)
    requires
        g.wf(),
    ensures
        g.stamped(coords).wf(),
        g.stamped(coords).alive_at(x, y) == (g.alive_at(x, y) || (g.contains(x, y)
            && Generation::listed(coords, coords.len() as int, x, y))),
{
    if g.contains(x, y) {
        lemma_coords_to_place(x, y, g.width as int, g.height as int);
    }
}

/// Stamping the same list a second time changes nothing.
pub proof fn lemma_stamp_twice(g: Generation, coords: Seq<(u32, u32)>)
    requires
        g.wf(),
    ensures
        g.stamped(coords).stamped(coords) == g.stamped(coords),
{
    assert(g.stamped(coords).stamped(coords).alive =~= g.stamped(coords).alive);
}

/// A cell in a corner of the board has at most three live neighbours, and a
/// cell on an edge at most five: the cells beyond the edge are not there to
/// be counted.
pub proof fn lemma_edge_neighbors_bounded(g: Generation, x: int, y: int)
    requires
        g.contains(x, y),
    ensures
        g.live_neighbors(x, y) <= 8,
        g.on_edge(x, y) ==> g.live_neighbors(x, y) <= 5,
        g.on_corner(x, y) ==> g.live_neighbors(x, y) <= 3,
{
}

} // verus!
