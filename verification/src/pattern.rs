use vstd::prelude::*;

verus! {

/// The shapes that can be stamped onto a grid by name.
#[derive(Clone, Copy, Debug, PartialEq, Eq, Structural)]
pub enum Preset {
    GosperGliderGun,
    Blinkers,
    Pulsars,
}

/// The cells of a preset, by column and row.
pub open spec fn preset_cells(preset: Preset) -> Seq<(u32, u32)> {
    match preset {
        Preset::GosperGliderGun => gosper_glider_gun_cells(),
        Preset::Blinkers => blinkers_cells(),
        Preset::Pulsars => pulsars_cells(),
    }
}

/// The cells of a preset, as a list to stamp onto a grid. Every preset fits
/// a grid of 76 columns and 43 rows.
pub fn cells(preset: Preset) -> (coords: Vec<(u32, u32)>)
    ensures
        coords@ == preset_cells(preset),
        fits(coords@, 76, 43),
{
    match preset {
        Preset::GosperGliderGun => gosper_glider_gun(),
        Preset::Blinkers => blinkers(),
        Preset::Pulsars => pulsars(),
    }
}

/// Every entry of `coords` names a column below `width` and a row below
/// `height`.
pub open spec fn fits(coords: Seq<(u32, u32)>, width: int, height: int) -> bool {
    forall|j: int|
        0 <= j < coords.len() ==> (#[trigger] coords[j]).0 < width && coords[j].1 < height
}

/// The Gosper glider gun, by column and row: two blocks and between them the
/// two shapes that send out a glider every thirty generations.
pub open spec fn gosper_glider_gun_cells() -> Seq<(u32, u32)> {
    seq![
        (1u32, 5u32), (2u32, 5u32), (1u32, 6u32), (2u32, 6u32),
        (11u32, 5u32), (11u32, 6u32), (11u32, 7u32), (12u32, 4u32),
        (13u32, 3u32), (14u32, 3u32), (12u32, 8u32), (13u32, 9u32),
        (14u32, 9u32), (15u32, 6u32), (16u32, 4u32), (17u32, 5u32),
        (17u32, 6u32), (17u32, 7u32), (18u32, 6u32), (16u32, 8u32),
        (21u32, 5u32), (21u32, 4u32), (21u32, 3u32), (22u32, 5u32),
        (22u32, 4u32), (22u32, 3u32), (23u32, 2u32), (23u32, 6u32),
        (25u32, 1u32), (25u32, 2u32), (25u32, 6u32), (25u32, 7u32),
        (35u32, 3u32), (35u32, 4u32), (36u32, 3u32), (36u32, 4u32),
    ]
}

/// The cells of `gosper_glider_gun_cells`, as a list to stamp onto a grid.
pub fn gosper_glider_gun() -> (coords: Vec<(u32, u32)>)
    ensures
        coords@ == gosper_glider_gun_cells(),
        fits(coords@, 37, 10),
{
    let coords: Vec<(u32, u32)> = vec![
        (1, 5), (2, 5), (1, 6), (2, 6),
        (11, 5), (11, 6), (11, 7), (12, 4),
        (13, 3), (14, 3), (12, 8), (13, 9),
        (14, 9), (15, 6), (16, 4), (17, 5),
        (17, 6), (17, 7), (18, 6), (16, 8),
        (21, 5), (21, 4), (21, 3), (22, 5),
        (22, 4), (22, 3), (23, 2), (23, 6),
        (25, 1), (25, 2), (25, 6), (25, 7),
        (35, 3), (35, 4), (36, 3), (36, 4),
    ];
    assert(coords@ =~= gosper_glider_gun_cells());
    coords
}

/// Three crosses of five cells, by column and row, each of which settles
/// into oscillating lines.
pub open spec fn blinkers_cells() -> Seq<(u32, u32)> {
    seq![
        (7u32, 26u32), (7u32, 27u32), (7u32, 28u32), (6u32, 27u32),
        (8u32, 27u32), (14u32, 40u32), (14u32, 41u32), (14u32, 42u32),
        (13u32, 41u32), (15u32, 41u32), (24u32, 28u32), (24u32, 29u32),
        (24u32, 30u32), (23u32, 29u32), (25u32, 29u32),
    ]
}

/// The cells of `blinkers_cells`, as a list to stamp onto a grid.
pub fn blinkers() -> (coords: Vec<(u32, u32)>)
    ensures
        coords@ == blinkers_cells(),
        fits(coords@, 26, 43),
{
    let coords: Vec<(u32, u32)> = vec![
        (7, 26), (7, 27), (7, 28), (6, 27),
        (8, 27), (14, 40), (14, 41), (14, 42),
        (13, 41), (15, 41), (24, 28), (24, 29),
        (24, 30), (23, 29), (25, 29),
    ];
    assert(coords@ =~= blinkers_cells());
    coords
}

/// A pulsar, by column and row: four times three lines of three cells around
/// a centre, an oscillator of period three.
pub open spec fn pulsars_cells() -> Seq<(u32, u32)> {
    seq![
        (68u32, 14u32), (68u32, 15u32), (68u32, 16u32), (67u32, 17u32),
        (66u32, 17u32), (65u32, 17u32), (67u32, 12u32), (66u32, 12u32),
        (65u32, 12u32), (63u32, 16u32), (63u32, 15u32), (63u32, 14u32),
        (70u32, 16u32), (70u32, 15u32), (70u32, 14u32), (65u32, 19u32),
        (66u32, 19u32), (67u32, 19u32), (68u32, 20u32), (68u32, 21u32),
        (68u32, 22u32), (71u32, 17u32), (72u32, 17u32), (73u32, 17u32),
        (71u32, 19u32), (72u32, 19u32), (73u32, 19u32), (70u32, 20u32),
        (70u32, 21u32), (70u32, 22u32), (67u32, 24u32), (66u32, 24u32),
        (65u32, 24u32), (63u32, 20u32), (63u32, 21u32), (63u32, 22u32),
        (71u32, 24u32), (72u32, 24u32), (73u32, 24u32), (75u32, 20u32),
        (75u32, 21u32), (75u32, 22u32), (75u32, 16u32), (75u32, 15u32),
        (75u32, 14u32), (71u32, 12u32), (72u32, 12u32), (73u32, 12u32),
    ]
}

/// The cells of `pulsars_cells`, as a list to stamp onto a grid.
pub fn pulsars() -> (coords: Vec<(u32, u32)>)
    ensures
        coords@ == pulsars_cells(),
        fits(coords@, 76, 25),
{
    let coords: Vec<(u32, u32)> = vec![
        (68, 14), (68, 15), (68, 16), (67, 17),
        (66, 17), (65, 17), (67, 12), (66, 12),
        (65, 12), (63, 16), (63, 15), (63, 14),
        (70, 16), (70, 15), (70, 14), (65, 19),
        (66, 19), (67, 19), (68, 20), (68, 21),
        (68, 22), (71, 17), (72, 17), (73, 17),
        (71, 19), (72, 19), (73, 19), (70, 20),
        (70, 21), (70, 22), (67, 24), (66, 24),
        (65, 24), (63, 20), (63, 21), (63, 22),
        (71, 24), (72, 24), (73, 24), (75, 20),
        (75, 21), (75, 22), (75, 16), (75, 15),
        (75, 14), (71, 12), (72, 12), (73, 12),
    ];
    assert(coords@ =~= pulsars_cells());
    coords
}

} // verus!
