//! Collage layout choices.

use vstd::prelude::*;

use crate::raster::Color;

verus! {

/// How collage cells are arranged.
#[derive(Debug, Clone, Copy, PartialEq, Eq, Structural)]
pub enum CollageLayout {
    /// One column, images stacked top to bottom.
    Vertical,
    /// One row, images side by side.
    Horizontal,
    /// A grid with a fixed, positive number of columns.
    Grid {
        /// Columns per row.
        columns: u32,
    },
}

/// Spacing and background of a collage.
#[derive(Debug, Clone, Copy, PartialEq, Eq, Structural)]
pub struct CollageOptions {
    /// Gap between cells, in pixels.
    pub spacing: u32,
    /// Canvas colour behind the cells.
    pub background: Color,
}

} // verus!
