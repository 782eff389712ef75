//! Cutting an image into a grid of tiles.
//!
//! The grid always yields exactly `rows × columns` tiles. When a dimension does not divide
//! evenly, the remainder goes to the leading rows or columns (one extra pixel each), so the
//! tiles put back together are exactly the source: no pixel lost, none repeated.

use vstd::prelude::*;

use crate::error::CoreError;
use crate::raster::{is_region_of, Raster};
use crate::text::{decimal, push_decimal, push_str};

verus! {

/// A slicing grid of `rows` × `columns` tiles; both are positive.
#[derive(Debug, Clone, Copy, PartialEq, Eq, Structural)]
pub struct SliceGrid {
    /// Number of rows.
    pub rows: u32,
    /// Number of columns.
    pub columns: u32,
}

impl SliceGrid {
    /// Both counts are positive.
    pub open spec fn wf(self) -> bool {
        self.rows > 0 && self.columns > 0
    }

    /// The 3 × 3 grid.
    pub fn three_by_three() -> (grid: SliceGrid)
        ensures
            grid.rows == 3,
            grid.columns == 3,
            grid.wf(),
    {
        SliceGrid { rows: 3, columns: 3 }
    }

    /// A grid of the given size; a zero count is refused.
    pub fn new(rows: u32, columns: u32) -> (grid: Result<SliceGrid, CoreError>)
        ensures
            grid is Ok <==> rows > 0 && columns > 0,
            grid matches Ok(g) ==> g.rows == rows && g.columns == columns && g.wf(),
            grid matches Err(e) ==> e is InvalidArgument,
    {
        if rows == 0 {
            return Err(CoreError::InvalidArgument(String::from_str("rows must be positive")));
        }
        if columns == 0 {
            return Err(CoreError::InvalidArgument(String::from_str("columns must be positive")));
        }
        Ok(SliceGrid { rows, columns })
    }

    /// How many tiles the grid yields.
    pub fn tile_count(self) -> (count: u32)
        requires
            self.rows * self.columns <= u32::MAX,
        ensures
            count == self.rows * self.columns,
    {
        self.rows * self.columns
    }
}

/// One tile and its place in the grid.
#[derive(Debug, Clone)]
pub struct Tile {
    /// Row, from 0.
    pub row: u32,
    /// Column, from 0.
    pub column: u32,
    /// Position in row-major order, from 0.
    pub index: u32,
    /// The tile's pixels.
    pub image: Raster,
}

/// `_{index + 1}_r{row}c{column}`.
pub open spec fn spec_tile_suffix(index: nat, row: nat, column: nat) -> Seq<char> {
    seq!['_'] + decimal(index + 1) + seq!['_', 'r'] + decimal(row) + seq!['c'] + decimal(column)
}

impl Tile {
    /// File-name suffix carrying both the 1-based sequence number and the grid position,
    /// such as `_1_r0c0`.
    pub fn filename_suffix(&self) -> (suffix: String)
        requires
            self.index < u32::MAX,
        ensures
            suffix@ == spec_tile_suffix(self.index as nat, self.row as nat, self.column as nat),
    {
        proof {
            reveal_strlit("_");
            reveal_strlit("_r");
            reveal_strlit("c");
        }
        let mut suffix = String::from_str("_");
        push_decimal(&mut suffix, (self.index + 1) as u64);
        push_str(&mut suffix, "_r");
        push_decimal(&mut suffix, self.row as u64);
        push_str(&mut suffix, "c");
        push_decimal(&mut suffix, self.column as u64);
        assert(suffix@ =~= spec_tile_suffix(self.index as nat, self.row as nat, self.column as nat));
        suffix
    }
}

/// Where the `index`-th of `divisions` spans of `total` pixels starts: the first
/// `total % divisions` spans are one pixel longer than the rest.
pub open spec fn span_start(total: nat, divisions: nat, index: nat) -> nat {
    index * (total / divisions) + if index < total % divisions {
        index
    } else {
        total % divisions
    }
}

/// The length of the `index`-th of `divisions` spans of `total` pixels.
pub open spec fn span_len(total: nat, divisions: nat, index: nat) -> nat {
    total / divisions + if index < total % divisions {
        1nat
    } else {
        0nat
    }
}

proof fn lemma_span_bounds(total: nat, divisions: nat, index: nat)
    requires
        divisions > 0,
        index <= divisions,
    ensures
        span_start(total, divisions, index) <= total,
        index == divisions ==> span_start(total, divisions, index) == total,
        index < divisions ==> span_start(total, divisions, index) + span_len(
            total,
            divisions,
            index,
        ) == span_start(total, divisions, index + 1),
{
    let q = total / divisions;
    let r = total % divisions;
    assert(total == divisions * q + r) by {
        vstd::arithmetic::div_mod::lemma_fundamental_div_mod(total as int, divisions as int);
    }
    assert(index * q <= divisions * q) by (nonlinear_arith)
        requires
            index <= divisions,
    ;
    assert((index + 1) * q == index * q + q) by (nonlinear_arith);
}

/// The spans of a division tile the whole length: the first starts at 0, each starts where
/// the previous one ends, the last ends at `total`, and when `total >= divisions` every span
/// holds at least one pixel.
pub proof fn law_spans_partition(total: nat, divisions: nat, index: nat)
    requires
        divisions > 0,
        index < divisions,
    ensures
        span_start(total, divisions, 0) == 0,
        span_start(total, divisions, index) + span_len(total, divisions, index) == span_start(
            total,
            divisions,
            index + 1,
        ),
        span_start(total, divisions, index) + span_len(total, divisions, index) <= total,
        span_start(total, divisions, divisions) == total,
        total >= divisions ==> span_len(total, divisions, index) >= 1,
{
    lemma_span_bounds(total, divisions, index);
    lemma_span_bounds(total, divisions, index + 1);
    lemma_span_bounds(total, divisions, divisions);
    if total >= divisions {
        assert(total / divisions >= 1) by {
            vstd::arithmetic::div_mod::lemma_div_is_ordered(
                divisions as int,
                total as int,
                divisions as int,
            );
            vstd::arithmetic::div_mod::lemma_div_by_self(divisions as int);
        }
    }
}

/// The `index`-th of `divisions` spans of `total` pixels, as (start, length).
fn span(total: u32, divisions: u32, index: u32) -> (r: (u32, u32))
    requires
        divisions > 0,
        index < divisions,
    ensures
        r.0 == span_start(total as nat, divisions as nat, index as nat),
        r.1 == span_len(total as nat, divisions as nat, index as nat),
        r.0 + r.1 <= total,
{
    proof {
        law_spans_partition(total as nat, divisions as nat, index as nat);
        assert(index * (total / divisions) <= span_start(
            total as nat,
            divisions as nat,
            index as nat,
        ));
    }
    let base = total / divisions;
    let remainder = total % divisions;
    let extra = if index < remainder {
        index
    } else {
        remainder
    };
    let start = index * base + extra;
    let len = base + if index < remainder {
        1u32
    } else {
        0u32
    };
    (start, len)
}

/// What the `i`-th tile of a slicing holds: its row, column and index in row-major order,
/// and exactly the pixels of its span of rows and columns.
pub open spec fn is_tile_of(tile: Tile, img: Raster, grid: SliceGrid, i: int) -> bool {
    let row = i / grid.columns as int;
    let column = i % grid.columns as int;
    &&& tile.row == row
    &&& tile.column == column
    &&& tile.index == i
    &&& tile.image.wf()
    &&& tile.image.width == span_len(img.width as nat, grid.columns as nat, column as nat)
    &&& tile.image.height == span_len(img.height as nat, grid.rows as nat, row as nat)
    &&& is_region_of(
        tile.image@,
        img@,
        span_start(img.width as nat, grid.columns as nat, column as nat) as int,
        span_start(img.height as nat, grid.rows as nat, row as nat) as int,
    )
}

/// Cuts `img` into `grid.rows × grid.columns` tiles in row-major order.
///
/// An image narrower than the column count or shorter than the row count would give empty
/// tiles, and is refused.
pub fn slice(img: &Raster, grid: SliceGrid) -> (tiles: Result<Vec<Tile>, CoreError>)
    requires
        img.wf(),
        grid.wf(),
        grid.rows * grid.columns <= u32::MAX,
    ensures
        tiles is Ok <==> img.width >= grid.columns && img.height >= grid.rows,
        tiles matches Err(e) ==> e is InvalidArgument,
        tiles matches Ok(ts) ==> ts.len() == grid.rows * grid.columns && forall|i: int|
            0 <= i < ts.len() ==> #[trigger] is_tile_of(ts[i], *img, grid, i),
{
    let rows = grid.rows;
    let cols = grid.columns;
    if img.width < cols || img.height < rows {
        return Err(
            CoreError::InvalidArgument(
                String::from_str("the image is too small for the grid: every tile needs a pixel"),
            ),
        );
    }
    let mut tiles: Vec<Tile> = Vec::new();
    let mut row: u32 = 0;
    while row < rows
        invariant
            img.wf(),
            grid.wf(),
            rows == grid.rows,
            cols == grid.columns,
            rows * cols <= u32::MAX,
            row <= rows,
            tiles.len() == row * cols,
            forall|i: int| 0 <= i < tiles.len() ==> #[trigger] is_tile_of(tiles[i], *img, grid, i),
        decreases rows - row,
    {
        let (y, h) = span(img.height, rows, row);
        let mut column: u32 = 0;
        while column < cols
            invariant
                img.wf(),
                grid.wf(),
                rows == grid.rows,
                cols == grid.columns,
                rows * cols <= u32::MAX,
                row < rows,
                column <= cols,
                y == span_start(img.height as nat, rows as nat, row as nat),
                h == span_len(img.height as nat, rows as nat, row as nat),
                y + h <= img.height,
                tiles.len() == row * cols + column,
                forall|i: int|
                    0 <= i < tiles.len() ==> #[trigger] is_tile_of(tiles[i], *img, grid, i),
            decreases cols - column,
        {
            let (x, w) = span(img.width, cols, column);
            let image = img.region(x, y, w, h);
            proof {
                assert(row * cols + column < rows * cols) by (nonlinear_arith)
                    requires
                        row < rows,
                        column < cols,
                ;
                let i = row * cols + column;
                vstd::arithmetic::div_mod::lemma_fundamental_div_mod_converse(
                    i as int,
                    cols as int,
                    row as int,
                    column as int,
                );
            }
            let index = row * cols + column;
            let tile = Tile { row, column, index, image };
            tiles.push(tile);
            proof {
                assert(is_tile_of(tiles[index as int], *img, grid, index as int));
            }
            column = column + 1;
        }
        proof {
            assert(row * cols + cols == (row + 1) * cols) by (nonlinear_arith);
        }
        row = row + 1;
    }
    Ok(tiles)
}

} // verus!
