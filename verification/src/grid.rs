//! Grid coordinate mapping: conversion between world-space positions and
//! integer grid cells on the isometric grid, and back.
//!
//! Isometric tiles are twice as wide as they are tall. World coordinates are
//! fixed-point: one world unit is `FP_ONE` sub-units, and a tile is 32 world
//! units wide, so a one-tile step moves half a tile width along x and a
//! quarter of a tile width along y.
//!
//! A cell's anchor (its center) lies at
//! `x = (col - row) * HALF_TILE_FP`, `y = (col + row) * QUARTER_TILE_FP`,
//! and the inverse mapping quantizes to the nearest cell by flooring the
//! diamond-local coordinates, so that `global_to_grid(grid_to_global(c)) == c`
//! for every cell in range.

use vstd::prelude::*;
use vstd::arithmetic::div_mod::{
    lemma_fundamental_div_mod, lemma_fundamental_div_mod_converse, lemma_mod_pos_bound,
};

verus! {

/// Sub-units of one world unit (fixed-point scale).
pub const FP_ONE: i64 = 256;

/// Width of one tile, in fixed-point sub-units (32 world units at scale 256).
pub const TILE_WIDTH_FP: i64 = 8192;

/// Half a tile width: the x-extent of a one-tile step (16 world units).
pub const HALF_TILE_FP: i64 = 4096;

/// A quarter of a tile width, which is half a tile height: the y-extent of a
/// one-tile step (8 world units).
pub const QUARTER_TILE_FP: i64 = 2048;

/// Largest cell coordinate magnitude the mapping is specified for.
pub const CELL_LIMIT: i64 = 0x20_0000;

/// Largest world coordinate magnitude the mapping is specified for.
pub const COORD_LIMIT: i64 = 0x4_0000_0000;

/// Largest world coordinate magnitude for which snapping a position to its
/// cell's anchor stays inside the addressable cell region.
pub const SNAP_LIMIT: i64 = 0x8000_0000;

/// One discrete address on the isometric grid. A value type, freely copied,
/// equal by fields.
#[derive(Clone, Copy, PartialEq, Eq, Structural, Hash, Debug)]
pub struct GridCell {
    pub col: i32,
    pub row: i32,
}

/// A point (or displacement) in world space, in fixed-point sub-units.
/// A value type, freely copied, equal by fields; never mutated in place.
#[derive(Clone, Copy, PartialEq, Eq, Structural, Hash, Debug)]
pub struct WorldPos {
    pub x: i64,
    pub y: i64,
}

/// The cell lies inside the region the grid mapping is specified for.
pub open spec fn cell_in_range(c: GridCell) -> bool {
    &&& -CELL_LIMIT <= c.col <= CELL_LIMIT
    &&& -CELL_LIMIT <= c.row <= CELL_LIMIT
}

/// The position lies inside the region the grid mapping is specified for.
pub open spec fn pos_in_range(p: WorldPos) -> bool {
    &&& -COORD_LIMIT <= p.x <= COORD_LIMIT
    &&& -COORD_LIMIT <= p.y <= COORD_LIMIT
}

/// x coordinate of the anchor (center) of cell `c`.
pub open spec fn center_x(c: GridCell) -> int {
    (c.col - c.row) * HALF_TILE_FP
}

/// y coordinate of the anchor (center) of cell `c`.
pub open spec fn center_y(c: GridCell) -> int {
    (c.col + c.row) * QUARTER_TILE_FP
}

/// Column of the cell containing world point `(x, y)`: floor of the
/// diamond-local column coordinate, offset by half a tile so that anchors
/// land in their own cell.
pub open spec fn col_of(x: int, y: int) -> int {
    (x + 2 * y + HALF_TILE_FP) / (TILE_WIDTH_FP as int)
}

/// Row of the cell containing world point `(x, y)`.
pub open spec fn row_of(x: int, y: int) -> int {
    (2 * y - x + HALF_TILE_FP) / (TILE_WIDTH_FP as int)
}

/// Floor division of `a` by a positive divisor `d` (rounds toward negative
/// infinity, matching mathematical Euclidean division for positive `d`).
fn div_floor(a: i64, d: i64) -> (q: i64)
    requires
        1 <= d <= 0x1_0000_0000,
        -0x4000_0000_0000_0000 <= a <= 0x4000_0000_0000_0000,
    ensures
        q == (a as int) / (d as int),
{
    let du: u64 = d as u64;
    if a >= 0 {
        let q0: u64 = (a as u64) / du;
        proof {
            assert(0 <= (a as int) / (d as int) <= a as int) by (nonlinear_arith)
                requires
                    0 <= a as int,
                    1 <= d as int,
            ;
        }
        q0 as i64
    } else {
        let n: u64 = (-a) as u64;
        let q0: u64 = n / du;
        let r0: u64 = n % du;
        proof {
            let ai: int = a as int;
            let di: int = d as int;
            let ni: int = n as int;
            lemma_fundamental_div_mod(ni, di);
            lemma_mod_pos_bound(ni, di);
            let qi: int = ni / di;
            let ri: int = ni % di;
            assert(0 <= ni / di <= ni) by (nonlinear_arith)
                requires
                    0 <= ni,
                    1 <= di,
            ;
            if ri == 0 {
                assert(ai == (-qi) * di + 0) by (nonlinear_arith)
                    requires
                        ni == di * qi + ri,
                        ri == 0,
                        ai == -ni,
                ;
                lemma_fundamental_div_mod_converse(ai, di, -qi, 0);
            } else {
                assert(ai == (-qi - 1) * di + (di - ri)) by (nonlinear_arith)
                    requires
                        ni == di * qi + ri,
                        ai == -ni,
                ;
                lemma_fundamental_div_mod_converse(ai, di, -qi - 1, di - ri);
            }
        }
        if r0 == 0 {
            -(q0 as i64)
        } else {
            -(q0 as i64) - 1
        }
    }
}

/// Maps a cell to the world position of its anchor (center).
pub fn grid_to_global(c: GridCell) -> (p: WorldPos)
    requires
        cell_in_range(c),
    ensures
        p.x == center_x(c),
        p.y == center_y(c),
        pos_in_range(p),
{
    let diff: i64 = (c.col as i64) - (c.row as i64);
    let sum: i64 = (c.col as i64) + (c.row as i64);
    WorldPos { x: diff * HALF_TILE_FP, y: sum * QUARTER_TILE_FP }
}

/// Maps a world position to the grid cell containing it, quantizing to the
/// nearest cell anchor.
pub fn global_to_grid(p: WorldPos) -> (c: GridCell)
    requires
        pos_in_range(p),
    ensures
        c.col == col_of(p.x as int, p.y as int),
        c.row == row_of(p.x as int, p.y as int),
        -0x80_0000 <= c.col <= 0x80_0000,
        -0x80_0000 <= c.row <= 0x80_0000,
{
    let tcol: i64 = p.x + 2 * p.y + HALF_TILE_FP;
    let trow: i64 = 2 * p.y - p.x + HALF_TILE_FP;
    let col: i64 = div_floor(tcol, TILE_WIDTH_FP);
    let row: i64 = div_floor(trow, TILE_WIDTH_FP);
    GridCell { col: col as i32, row: row as i32 }
}

/// Round-trip exactness on cell anchors: converting a cell to its anchor
/// world position and back yields the same cell, for every cell in range.
pub proof fn lemma_grid_round_trip(c: GridCell)
    requires
        cell_in_range(c),
    ensures
        col_of(center_x(c), center_y(c)) == c.col,
        row_of(center_x(c), center_y(c)) == c.row,
{
    let x: int = center_x(c);
    let y: int = center_y(c);
    assert(x + 2 * y + HALF_TILE_FP == c.col * (TILE_WIDTH_FP as int) + HALF_TILE_FP);
    assert(2 * y - x + HALF_TILE_FP == c.row * (TILE_WIDTH_FP as int) + HALF_TILE_FP);
    lemma_fundamental_div_mod_converse(
        x + 2 * y + HALF_TILE_FP,
        TILE_WIDTH_FP as int,
        c.col as int,
        HALF_TILE_FP as int,
    );
    lemma_fundamental_div_mod_converse(
        2 * y - x + HALF_TILE_FP,
        TILE_WIDTH_FP as int,
        c.row as int,
        HALF_TILE_FP as int,
    );
}

/// Locks a world position to the isometric grid: snaps it to the anchor of
/// the cell containing it.
pub fn lock_to_grid(p: WorldPos) -> (r: WorldPos)
    requires
        -SNAP_LIMIT <= p.x <= SNAP_LIMIT,
        -SNAP_LIMIT <= p.y <= SNAP_LIMIT,
    ensures
        r.x == center_x(GridCell {
            col: col_of(p.x as int, p.y as int) as i32,
            row: row_of(p.x as int, p.y as int) as i32,
        }),
        r.y == center_y(GridCell {
            col: col_of(p.x as int, p.y as int) as i32,
            row: row_of(p.x as int, p.y as int) as i32,
        }),
        pos_in_range(r),
{
    let c = global_to_grid(p);
    grid_to_global(c)
}

} // verus!
