use vstd::prelude::*;
use crate::cell::UNITS_PER_PIXEL;

verus! {

/// The side of a cell at start-up.
pub const INITIAL_SCALE_FACTOR: u16 = 10 * UNITS_PER_PIXEL;

/// The spacing between cells at start-up.
pub const INITIAL_OFFSET: u16 = 5 * UNITS_PER_PIXEL;

/// The smallest and the largest side of a cell that the controls offer.
pub const MIN_SCALE_FACTOR: u16 = 5 * UNITS_PER_PIXEL;

pub const MAX_SCALE_FACTOR: u16 = 100 * UNITS_PER_PIXEL;

/// The smallest and the largest spacing that the controls offer.
pub const MIN_OFFSET: u16 = 1 * UNITS_PER_PIXEL;

pub const MAX_OFFSET: u16 = 100 * UNITS_PER_PIXEL;

/// `value`, or the nearest bound where it lies outside `low..=high`.
pub open spec fn clamped(value: u16, low: u16, high: u16) -> u16 {
    if value < low {
        low
    } else if value > high {
        high
    } else {
        value
    }
}

/// What the controls set: whether the simulation runs, and how large and
/// how far apart the cells are drawn.
#[derive(Clone, Copy, Debug, PartialEq, Eq, Structural)]
pub struct State {
    pub running: bool,
    pub cell_scale_factor: u16,
    pub cell_offset: u16,
}

impl State {
    /// The controls at start-up: paused, with the initial scale and spacing.
    pub fn new() -> (state: State)
        ensures
            state == (State {
                running: false,
                cell_scale_factor: INITIAL_SCALE_FACTOR,
                cell_offset: INITIAL_OFFSET,
            }),
    {
        State {
            running: false,
            cell_scale_factor: INITIAL_SCALE_FACTOR,
            cell_offset: INITIAL_OFFSET,
        }
    }

    /// Starts the simulation. Nothing changes where it runs already.
    pub fn start(&mut self)
        ensures
            *final(self) == (State { running: true, ..*old(self) }),
    {
        if !self.running {
            self.running = true;
        }
    }

    /// Pauses the simulation. Nothing changes where it is paused already.
    pub fn pause(&mut self)
        ensures
            *final(self) == (State { running: false, ..*old(self) }),
    {
        if self.running {
            self.running = false;
        }
    }

    /// Sets the side of a cell, held to the range that the controls offer.
    pub fn set_cell_scale_factor(&mut self, value: u16)
        ensures
            *final(self) == (State {
                cell_scale_factor: clamped(value, MIN_SCALE_FACTOR, MAX_SCALE_FACTOR),
                ..*old(self)
            }),
    {
        self.cell_scale_factor = clamp(value, MIN_SCALE_FACTOR, MAX_SCALE_FACTOR);
    }

    /// Sets the spacing between cells, held to the range that the controls
    /// offer.
    pub fn set_cell_offset(&mut self, value: u16)
        ensures
            *final(self) == (State {
                cell_offset: clamped(value, MIN_OFFSET, MAX_OFFSET),
                ..*old(self)
            }),
    {
        self.cell_offset = clamp(value, MIN_OFFSET, MAX_OFFSET);
    }
}

/// Computes `clamped`.
pub fn clamp(value: u16, low: u16, high: u16) -> (held: u16)
    ensures
        held == clamped(value, low, high),
{
    if value < low {
        low
    } else if value > high {
        high
    } else {
        value
    }
}

} // verus!
