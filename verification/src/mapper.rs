use vstd::prelude::*;
use vstd::arithmetic::div_mod::{
    lemma_fundamental_div_mod, lemma_fundamental_div_mod_converse, lemma_mod_bound,
};
use crate::cell::{cell_position, lemma_position_fits, CellInstance, GRID_MARGIN};
use crate::generation::{lemma_coords_to_place, lemma_place_to_coords, Generation};

verus! {

/// The column (or row) of the cell under a screen position along one axis,
/// for cells `scale` wide and `spacing` apart: the position less the spacing
/// and half a cell, divided by the distance from one cell to the next and
/// rounded down. It is negative before the first cell.
pub open spec fn cell_coord(position: int, scale: int, spacing: int) -> int
    recommends
        scale + spacing > 0,
{
    (position - spacing - scale / 2) / (scale + spacing)
}

/// The place of the cell under the pointer on a board of the given size, if
/// there is one: none where the column or the row is negative or past the
/// board, and none where cells have neither width nor spacing.
pub open spec fn cell_under(
    pointer_x: int,
    pointer_y: int,
    scale: int,
    spacing: int,
    width: int,
    height: int,
) -> Option<int> {
    let i = cell_coord(pointer_x, scale, spacing);
    let j = cell_coord(pointer_y, scale, spacing);
    if scale + spacing > 0 && 0 <= i < width && 0 <= j < height {
        Some(i + j * width)
    } else {
        None
    }
}

/// The column (or row) under a position along one axis, if it is one of the
/// first `limit`.
pub fn coord_from_position(
    position: i64,
    scale: u16,
    spacing: u16,
    limit: u32,
) -> (coord: Option<u32>)
    ensures
        match coord {
            Some(c) => scale + spacing > 0 && c < limit && c == cell_coord(
                position as int,
                scale as int,
                spacing as int,
            ),
            None => scale + spacing == 0 || !(0 <= cell_coord(
                position as int,
                scale as int,
                spacing as int,
            ) < limit),
        },
{
    let pitch: i64 = scale as i64 + spacing as i64;
    let origin: i64 = spacing as i64 + (scale / 2) as i64;
    if pitch == 0 {
        return None;
    }
    proof {
        let shifted = position as int - origin as int;
        lemma_fundamental_div_mod(shifted, pitch as int);
        lemma_mod_bound(shifted, pitch as int);
        let q = shifted / (pitch as int);
        let r = shifted % (pitch as int);
        assert((shifted < 0) == (q < 0)) by (nonlinear_arith)
            requires
                shifted == pitch * q + r,
                0 <= r < pitch,
        ;
    }
    if position < origin {
        return None;
    }
    let c: i64 = (position - origin) / pitch;
    if c >= limit as i64 {
        return None;
    }
    Some(c as u32)
}

/// The place of the cell under the pointer, on a board of `width` columns
/// and `height` rows drawn with cells `scale` wide and `spacing` apart.
pub fn cell_index_from_position(
    pointer_x: i64,
    pointer_y: i64,
    scale: u16,
    spacing: u16,
    width: u32,
    height: u32,
) -> (place: Option<usize>)
    requires
        width * height <= usize::MAX,
    ensures
        match place {
            Some(i) => cell_under(
                pointer_x as int,
                pointer_y as int,
                scale as int,
                spacing as int,
                width as int,
                height as int,
            ) == Some(i as int) && i < width * height,
            None => cell_under(
                pointer_x as int,
                pointer_y as int,
                scale as int,
                spacing as int,
                width as int,
                height as int,
            ) is None,
        },
{
    match coord_from_position(pointer_x, scale, spacing, width) {
        Some(i) => match coord_from_position(pointer_y, scale, spacing, height) {
            Some(j) => {
                proof {
                    lemma_coords_to_place(i as int, j as int, width as int, height as int);
                    assert(0 <= j * width) by (nonlinear_arith);
                }
                Some(i as usize + j as usize * width as usize)
            },
            None => None,
        },
        None => None,
    }
}

/// The mapping from positions to cells undoes the placement of cells on the
/// screen: the position at which the cell in column `x`, row `y` is drawn
/// lies over that cell. This holds where the spacing is no more than the
/// margin, and the margin less than one cell and two spacings; outside that
/// range the drawn position lies over another column and row, or over none.
pub proof fn lemma_position_maps_back(
    x: int,
    y: int,
    scale: int,
    spacing: int,
    width: int,
    height: int,
)
    requires
        0 <= x < width,
        0 <= y < height,
        0 <= scale,
        0 <= spacing <= GRID_MARGIN < scale + 2 * spacing,
    ensures
        cell_coord(cell_position(x, scale, spacing), scale, spacing) == x,
        cell_coord(cell_position(y, scale, spacing), scale, spacing) == y,
        cell_under(
            cell_position(x, scale, spacing),
            cell_position(y, scale, spacing),
            scale,
            spacing,
            width,
            height,
        ) == Some(x + y * width),
{
    lemma_coord_of_position(x, scale, spacing);
    lemma_coord_of_position(y, scale, spacing);
}

/// The same of the records that a snapshot holds: on a board drawn with
/// cells `scale` wide and `spacing` apart, the position in the record of the
/// cell at place `i` lies over the cell at place `i`, where the spacing is no
/// more than the margin, and the margin less than one cell and two spacings.
pub proof fn lemma_record_maps_back(g: Generation, i: int, scale: u16, spacing: u16)
    requires
        g.wf(),
        g.width <= u32::MAX,
        g.height <= u32::MAX,
        0 <= i < g.alive.len(),
        spacing <= GRID_MARGIN < scale + 2 * spacing,
    ensures
        cell_under(
            CellInstance::of_cell(g.cell(i), scale, spacing).x as int,
            CellInstance::of_cell(g.cell(i), scale, spacing).y as int,
            scale as int,
            spacing as int,
            g.width as int,
            g.height as int,
        ) == Some(i),
{
    lemma_place_to_coords(i, g.width as int, g.height as int);
    lemma_position_fits(g.cell(i), scale, spacing);
    lemma_position_maps_back(
        g.column(i),
        g.row(i),
        scale as int,
        spacing as int,
        g.width as int,
        g.height as int,
    );
}

/// Along one axis, the column under the drawn position of column `coord` is
/// `coord` plus the whole cells by which the margin exceeds the spacing: the
/// same column exactly where the margin exceeds it by less than one cell and
/// spacing, and is not below it.
pub proof fn lemma_coord_of_position(coord: int, scale: int, spacing: int)
    requires
        0 <= scale,
        0 <= spacing,
        scale + spacing > 0,
    ensures
        cell_coord(cell_position(coord, scale, spacing), scale, spacing) == coord + (GRID_MARGIN
            - spacing) / (scale + spacing),
        0 <= GRID_MARGIN - spacing < scale + spacing ==> cell_coord(
            cell_position(coord, scale, spacing),
            scale,
            spacing,
        ) == coord,
        !(0 <= GRID_MARGIN - spacing < scale + spacing) ==> cell_coord(
            cell_position(coord, scale, spacing),
            scale,
            spacing,
        ) != coord,
{
    let pitch = scale + spacing;
    let rest = GRID_MARGIN - spacing;
    let shifted = cell_position(coord, scale, spacing) - spacing - scale / 2;
    assert(shifted == pitch * coord + rest);
    lemma_fundamental_div_mod(rest, pitch);
    lemma_mod_bound(rest, pitch);
    let q = rest / pitch;
    let r = rest % pitch;
    assert(shifted == (coord + q) * pitch + r) by (nonlinear_arith)
        requires
            shifted == pitch * coord + rest,
            rest == pitch * q + r,
    ;
    lemma_fundamental_div_mod_converse(shifted, pitch, coord + q, r);
    if 0 <= rest < pitch {
        lemma_fundamental_div_mod_converse(rest, pitch, 0, rest);
    } else {
        assert(q != 0) by (nonlinear_arith)
            requires
                rest == pitch * q + r,
                0 <= r < pitch,
                !(0 <= rest < pitch),
        ;
    }
}

} // verus!
