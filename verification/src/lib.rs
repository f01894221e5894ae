//! Simulation core of a grid-based puzzle game: a rectangular field of
//! concealable cells, a fixed-point player cursor bounded to the field's
//! pixel extent, and a model of the tile-based display surface that the
//! field is rendered to. Each state transition — revealing a cell, cycling
//! its mark, moving the cursor — carries a contract that pins down exactly
//! which cells, sub-tiles and counters it touches; the hardware back ends
//! (rasterizer, audio mixer, input polling) appear as plain data types
//! that a front end translates from and to.

pub mod cursor;
pub mod field;
pub mod fixed;
pub mod render;
