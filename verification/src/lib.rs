//! The simulation core of a Game of Life: a fixed-size grid of cells, the
//! generation rule, the mapping between screen positions and cells, the
//! preset patterns, and the play/pause and input logic around them.
//!
//! Lengths and screen positions are whole numbers of sub-pixel units,
//! [`cell::UNITS_PER_PIXEL`] of them to the pixel.

pub mod cell;
pub mod generation;
pub mod grid;
pub mod gui;
pub mod input;
pub mod mapper;
pub mod pattern;
pub mod state;
pub mod theorems;
