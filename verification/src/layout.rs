//! Where the sixteen pads stand: a grid of four columns, in pixels.

use vstd::prelude::*;
use crate::clock::STEPS;
use crate::error::OutOfRange;

verus! {

/// Width of a pad.
pub const PAD_WIDTH: i32 = 80;

/// Height of a pad.
pub const PAD_HEIGHT: i32 = 80;

/// Space between neighbouring pads, and between the grid and its frame.
pub const PAD_GUTTER: i32 = 10;

/// Distance of the grid from the left edge of the window.
pub const GRID_LEFT: i32 = 120;

/// Pads in one row of the grid.
pub const GRID_COLUMNS: usize = 4;

/// The top left corner of a pad.
#[derive(Clone, Copy, Debug, PartialEq, Eq, Structural)]
pub struct PadPosition {
    /// Distance from the left edge of the window.
    pub left: i64,
    /// Distance from the top edge of the window.
    pub top: i64,
}

/// Left edge of column `col`: the columns before it, a gutter before each
/// column up to and including this one, and the offset of the grid.
pub open spec fn spec_left_offset(width: int, col: int, button_space: int, pad_offset: int) -> int {
    width * col + button_space * (col + 1) + pad_offset
}

/// Top edge of row `row`: the rows above it and a gutter before each row up
/// to and including this one.
pub open spec fn spec_top_offset(height: int, row: int, button_space: int) -> int {
    height * row + button_space * (row + 1)
}

/// The product of two 32-bit numbers is at most `2^31` times the size of
/// either factor.
proof fn lemma_product_bound(a: int, b: int, m: int)
    by (nonlinear_arith)
    requires
        -0x8000_0000 <= a <= 0x7fff_ffff,
        -m <= b <= m,
        0 <= m,
    ensures
        -0x8000_0000 * m <= a * b <= 0x8000_0000 * m,
{
}

/// Computes [`spec_left_offset`]. The result of 32-bit arguments always fits
/// in 64 bits.
pub fn calculate_left_offset(width: i32, col: i32, button_space: i32, pad_offset: i32) -> (left: i64)
    ensures
        left == spec_left_offset(width as int, col as int, button_space as int, pad_offset as int),
{
    proof {
        if col >= 0 {
            lemma_product_bound(width as int, col as int, col as int);
            lemma_product_bound(button_space as int, col + 1, col + 1);
        } else {
            lemma_product_bound(width as int, col as int, -col);
            lemma_product_bound(button_space as int, col + 1, -(col + 1));
        }
    }
    let columns: i64 = (width as i64) * (col as i64);
    let gutters: i64 = (button_space as i64) * (col as i64 + 1);
    columns + gutters + pad_offset as i64
}

/// Computes [`spec_top_offset`]. The result of 32-bit arguments always fits
/// in 64 bits.
pub fn calculate_top_offset(height: i32, row: i32, button_space: i32) -> (top: i64)
    ensures
        top == spec_top_offset(height as int, row as int, button_space as int),
{
    proof {
        if row >= 0 {
            lemma_product_bound(height as int, row as int, row as int);
            lemma_product_bound(button_space as int, row + 1, row + 1);
        } else {
            lemma_product_bound(height as int, row as int, -row);
            lemma_product_bound(button_space as int, row + 1, -(row + 1));
        }
    }
    let rows: i64 = (height as i64) * (row as i64);
    let gutters: i64 = (button_space as i64) * (row as i64 + 1);
    rows + gutters
}

/// The top left corner of the pad in column `col` and row `row` of a grid
/// with the given cell size, gutter and left offset.
pub fn calculate_position(
    col: i32,
    row: i32,
    col_width: i32,
    row_height: i32,
    gutter: i32,
    left_offset: i32,
) -> (position: PadPosition)
    ensures
        position.left == spec_left_offset(
            col_width as int,
            col as int,
            gutter as int,
            left_offset as int,
        ),
        position.top == spec_top_offset(row_height as int, row as int, gutter as int),
{
    let left = calculate_left_offset(col_width, col, gutter, left_offset);
    let top = calculate_top_offset(row_height, row, gutter);
    PadPosition { left, top }
}

/// The top left corner of pad `index` in the sequencer's grid: pads fill
/// rows of four from left to right, top to bottom.
pub fn pad_position(index: usize) -> (found: Result<PadPosition, OutOfRange>)
    ensures
        match found {
            Ok(position) => {
                &&& index < 16
                &&& position.left == 130 + 90 * (index % 4)
                &&& position.top == 10 + 90 * (index / 4)
            },
            Err(e) => e == OutOfRange::Step && index >= 16,
        },
{
    if index >= STEPS {
        return Err(OutOfRange::Step);
    }
    let col: i32 = (index % GRID_COLUMNS) as i32;
    let row: i32 = (index / GRID_COLUMNS) as i32;
    Ok(calculate_position(col, row, PAD_WIDTH, PAD_HEIGHT, PAD_GUTTER, GRID_LEFT))
}

} // verus!
