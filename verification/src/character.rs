//! The per-actor movement engine: a held facing, an optional committed
//! destination, and continuous position interpolation between grid cells at
//! fixed speed with snap-to-destination arrival detection.
//!
//! `destination.is_some()` is the sole source of truth for "is moving".
//! While a destination is held, `keep_moving` is the only path by which the
//! actor's position changes: it advances the position along the facing's
//! movement vector and, once within one world unit of the destination,
//! snaps exactly onto it and clears the destination.

use vstd::prelude::*;
use crate::grid::{GridCell, WorldPos, col_of, row_of, pos_in_range, global_to_grid,
    COORD_LIMIT, FP_ONE, QUARTER_TILE_FP, TILE_WIDTH_FP};
use crate::util::{IsometricFacing, facing_dx, facing_dy, movement_vec_x, movement_vec_y,
    is_movement_vector, lemma_facing_exactness};
use crate::tilemap_manager::TileMapManager;

verus! {

/// Largest movement speed the engine is specified for, in sub-units per
/// second along the y axis.
pub const SPEED_LIMIT: u32 = 0x10_0000;

/// Largest time step the engine is specified for, in microseconds (ten
/// seconds).
pub const DELTA_LIMIT: u32 = 10_000_000;

/// Sub-units travelled along the y axis in one tick: speed times the tick
/// duration. The x displacement is twice this, because isometric tiles are
/// twice as wide as they are tall.
pub open spec fn step_len(speed: u32, delta_us: u32) -> int {
    (speed * delta_us) / 1_000_000
}

/// x coordinate after one tick of movement in direction `f` with y-axis
/// displacement `s`.
pub open spec fn moved_x(pos: WorldPos, f: IsometricFacing, s: int) -> int {
    pos.x + 2 * s * facing_dx(f)
}

/// y coordinate after one tick of movement in direction `f` with y-axis
/// displacement `s`.
pub open spec fn moved_y(pos: WorldPos, f: IsometricFacing, s: int) -> int {
    pos.y + s * facing_dy(f)
}

/// The point `(nx, ny)` lies strictly within one world unit of `d`.
pub open spec fn arrived(nx: int, ny: int, d: WorldPos) -> bool {
    (nx - d.x) * (nx - d.x) + (ny - d.y) * (ny - d.y) < FP_ONE * FP_ONE
}

/// One tick of the movement engine: the new position, and the remaining
/// destination (cleared exactly when the new position snapped onto it).
pub open spec fn advance_spec(pos: WorldPos, d: WorldPos, f: IsometricFacing, s: int)
    -> (WorldPos, Option<WorldPos>) {
    if arrived(moved_x(pos, f, s), moved_y(pos, f, s), d) {
        (d, None)
    } else {
        (WorldPos { x: moved_x(pos, f, s) as i64, y: moved_y(pos, f, s) as i64 }, Some(d))
    }
}

/// `n` repeated ticks of the movement engine. Once the destination is
/// cleared the position no longer changes.
pub open spec fn advance_iter(
    pos: WorldPos,
    dest: Option<WorldPos>,
    f: IsometricFacing,
    s: int,
    n: nat,
) -> (WorldPos, Option<WorldPos>)
    decreases n,
{
    if n == 0 {
        (pos, dest)
    } else {
        match dest {
            None => (pos, None),
            Some(d) => advance_iter(
                advance_spec(pos, d, f, s).0,
                advance_spec(pos, d, f, s).1,
                f,
                s,
                (n - 1) as nat,
            ),
        }
    }
}

/// x coordinate one full tile from `pos` in direction `f`.
pub open spec fn step_target_x(f: IsometricFacing, pos: WorldPos) -> int {
    pos.x + movement_vec_x(f, TILE_WIDTH_FP as int)
}

/// y coordinate one full tile from `pos` in direction `f`.
pub open spec fn step_target_y(f: IsometricFacing, pos: WorldPos) -> int {
    pos.y + movement_vec_y(f, TILE_WIDTH_FP as int)
}

/// The grid cell one full tile from `pos` in direction `f`: the destination
/// cell of a movement commit made at `pos` while facing `f`.
pub open spec fn step_cell(f: IsometricFacing, pos: WorldPos) -> GridCell {
    GridCell {
        col: col_of(step_target_x(f, pos), step_target_y(f, pos)) as i32,
        row: row_of(step_target_x(f, pos), step_target_y(f, pos)) as i32,
    }
}

/// The movement record of one actor: its facing, its committed destination
/// (if it is moving), and whether the navigation data the grid mapping
/// depends on has been supplied yet. Owned exclusively by that actor.
#[derive(Clone, Copy, PartialEq, Eq, Structural, Debug)]
pub struct MovingCharacter {
    pub facing: IsometricFacing,
    pub destination: Option<WorldPos>,
    pub nav_ready: bool,
}

impl MovingCharacter {
    /// A fresh record: facing south-west, stationary, no navigation data.
    pub fn new() -> (c: MovingCharacter)
        ensures
            c.facing == IsometricFacing::SW,
            c.destination is None,
            !c.nav_ready,
    {
        MovingCharacter { facing: IsometricFacing::SW, destination: None, nav_ready: false }
    }

    /// Records that the navigation data has been supplied. Until then the
    /// actor's state machine performs no movement logic.
    pub fn set_nav_ready(&mut self)
        ensures
            *final(self) == (MovingCharacter { nav_ready: true, ..*old(self) }),
    {
        self.nav_ready = true;
    }

    /// Whether the character has its navigation data.
    pub fn has_nav(&self) -> (b: bool)
        ensures
            b == self.nav_ready,
    {
        self.nav_ready
    }

    /// The character's current location in grid coordinates.
    pub fn get_gridpos(&self, position: WorldPos) -> (c: GridCell)
        requires
            pos_in_range(position),
        ensures
            c.col == col_of(position.x as int, position.y as int),
            c.row == row_of(position.x as int, position.y as int),
    {
        global_to_grid(position)
    }

    /// The destination of a movement commit: always one tile from the given
    /// position, in the direction currently faced.
    pub fn calculate_movement(&self, position: WorldPos) -> (d: WorldPos)
        requires
            -COORD_LIMIT <= position.x <= COORD_LIMIT,
            -COORD_LIMIT <= position.y <= COORD_LIMIT,
        ensures
            d.x == step_target_x(self.facing, position),
            d.y == step_target_y(self.facing, position),
            position.x - TILE_WIDTH_FP <= d.x <= position.x + TILE_WIDTH_FP,
            position.y - TILE_WIDTH_FP <= d.y <= position.y + TILE_WIDTH_FP,
    {
        let v = self.facing.get_movement_vector(TILE_WIDTH_FP);
        WorldPos { x: position.x + v.x, y: position.y + v.y }
    }

    /// The grid coordinates of the tile one step ahead in the direction
    /// currently faced.
    pub fn calculate_movement_grid(&self, position: WorldPos) -> (c: GridCell)
        requires
            -COORD_LIMIT + TILE_WIDTH_FP <= position.x <= COORD_LIMIT - TILE_WIDTH_FP,
            -COORD_LIMIT + TILE_WIDTH_FP <= position.y <= COORD_LIMIT - TILE_WIDTH_FP,
        ensures
            c == step_cell(self.facing, position),
    {
        let destination = self.calculate_movement(position);
        global_to_grid(destination)
    }

    /// Checks the tile ahead against the occupancy map. If it is free, the
    /// character commits to moving there (the destination is set) and the
    /// call reports true; otherwise nothing changes and it reports false.
    /// Without navigation data the character never moves.
    ///
    /// The admission check consults the shared occupancy map, which the
    /// reservation protocol keeps consistent with all actors' claims; the
    /// caller completes the commit by reserving the destination cell and
    /// then releasing its origin.
    pub fn try_moving(&mut self, position: WorldPos, occ: &TileMapManager) -> (r: bool)
        requires
            -COORD_LIMIT + TILE_WIDTH_FP <= position.x <= COORD_LIMIT - TILE_WIDTH_FP,
            -COORD_LIMIT + TILE_WIDTH_FP <= position.y <= COORD_LIMIT - TILE_WIDTH_FP,
        ensures
            final(self).facing == old(self).facing,
            final(self).nav_ready == old(self).nav_ready,
            r == (old(self).nav_ready
                && !occ.blocked().contains(step_cell(old(self).facing, position))),
            r ==> (final(self).destination matches Some(d)
                && d.x == step_target_x(old(self).facing, position)
                && d.y == step_target_y(old(self).facing, position)
                && position.x - TILE_WIDTH_FP <= d.x <= position.x + TILE_WIDTH_FP
                && position.y - TILE_WIDTH_FP <= d.y <= position.y + TILE_WIDTH_FP),
            !r ==> final(self).destination == old(self).destination,
    {
        if !self.has_nav() {
            return false;
        }
        let destination = self.calculate_movement(position);
        let destination_grid = self.calculate_movement_grid(position);
        if occ.is_blocked(destination_grid) {
            return false;
        }
        self.destination = Some(destination);
        true
    }

    /// One tick of movement toward the committed destination: advances the
    /// position along the facing's movement vector by `speed` times the
    /// tick duration, snapping exactly onto the destination (and clearing
    /// it) once within one world unit. Returns the new position.
    pub fn keep_moving(&mut self, position: WorldPos, speed: u32, delta_us: u32) -> (p: WorldPos)
        requires
            old(self).destination is Some,
            old(self).destination matches Some(d) ==> pos_in_range(d),
            pos_in_range(position),
            speed <= SPEED_LIMIT,
            delta_us <= DELTA_LIMIT,
        ensures
            final(self).facing == old(self).facing,
            final(self).nav_ready == old(self).nav_ready,
            old(self).destination matches Some(d) ==> ({
                &&& p == advance_spec(position, d, old(self).facing,
                        step_len(speed, delta_us)).0
                &&& final(self).destination == advance_spec(position, d, old(self).facing,
                        step_len(speed, delta_us)).1
                &&& (p == d || (position.x - 2 * step_len(speed, delta_us) <= p.x
                        <= position.x + 2 * step_len(speed, delta_us)
                    && position.y - step_len(speed, delta_us) <= p.y
                        <= position.y + step_len(speed, delta_us)))
            }),
    {
        let destination = self.destination.unwrap();
        proof {
            assert((speed as int) * (delta_us as int) <= 0x100_0000_0000_0000) by (nonlinear_arith)
                requires
                    speed <= 0x10_0000,
                    delta_us <= 10_000_000,
            ;
        }
        let s64: u64 = ((speed as u64) * (delta_us as u64)) / 1_000_000;
        proof {
            assert(s64 <= 0x20_0000_0000);
        }
        let s: i64 = s64 as i64;
        proof {
            assert(0 <= s <= 0x20_0000_0000);
        }
        let s2: i64 = s + s;
        let v: WorldPos = match self.facing {
            IsometricFacing::NW => WorldPos { x: -s2, y: -s },
            IsometricFacing::NE => WorldPos { x: s2, y: -s },
            IsometricFacing::SW => WorldPos { x: -s2, y: s },
            IsometricFacing::SE => WorldPos { x: s2, y: s },
        };
        proof {
            assert(-0x40_0000_0001 <= v.x <= 0x40_0000_0001);
            assert(-0x40_0000_0001 <= v.y <= 0x40_0000_0001);
            assert(v.x == 2 * (s as int) * facing_dx(self.facing));
            assert(v.y == (s as int) * facing_dy(self.facing));
        }
        let nx: i64 = position.x + v.x;
        let ny: i64 = position.y + v.y;
        let ex: i64 = nx - destination.x;
        let ey: i64 = ny - destination.y;
        let ex128: i128 = ex as i128;
        let ey128: i128 = ey as i128;
        proof {
            assert(-0x100_0000_0000 <= ex128 as int <= 0x100_0000_0000);
            assert(-0x100_0000_0000 <= ey128 as int <= 0x100_0000_0000);
            assert((ex128 as int) * (ex128 as int) <= 0x1_0000_0000_0000_0000_0000
                && 0 <= (ex128 as int) * (ex128 as int)) by (nonlinear_arith)
                requires
                    -0x100_0000_0000 <= ex128 as int <= 0x100_0000_0000,
            ;
            assert((ey128 as int) * (ey128 as int) <= 0x1_0000_0000_0000_0000_0000
                && 0 <= (ey128 as int) * (ey128 as int)) by (nonlinear_arith)
                requires
                    -0x100_0000_0000 <= ey128 as int <= 0x100_0000_0000,
            ;
        }
        let sq: i128 = ex128 * ex128 + ey128 * ey128;
        // Within one world unit of the destination (FP_ONE squared): snap.
        if sq < 65536 {
            self.destination = None;
            destination
        } else {
            WorldPos { x: nx, y: ny }
        }
    }

    /// Turns the character toward the given adjacent tile. The tile must be
    /// exactly one movement step away from the current position: a facing
    /// toward a non-adjacent or illegal tile must never be requested.
    pub fn face_tile(&mut self, position: WorldPos, tile: GridCell)
        requires
            crate::grid::cell_in_range(tile),
            pos_in_range(position),
            exists|f: IsometricFacing|
                #[trigger] is_movement_vector(
                    WorldPos {
                        x: (crate::grid::center_x(tile) - position.x) as i64,
                        y: (crate::grid::center_y(tile) - position.y) as i64,
                    },
                    f,
                    TILE_WIDTH_FP as int,
                ),
        ensures
            final(self).destination == old(self).destination,
            final(self).nav_ready == old(self).nav_ready,
            is_movement_vector(
                WorldPos {
                    x: (crate::grid::center_x(tile) - position.x) as i64,
                    y: (crate::grid::center_y(tile) - position.y) as i64,
                },
                final(self).facing,
                TILE_WIDTH_FP as int,
            ),
    {
        let tilepos = crate::grid::grid_to_global(tile);
        let movement_vector = WorldPos { x: tilepos.x - position.x, y: tilepos.y - position.y };
        match IsometricFacing::from_movement_vector(movement_vector, TILE_WIDTH_FP) {
            Some(facing) => {
                proof {
                    lemma_facing_exactness(movement_vector, TILE_WIDTH_FP as int);
                }
                self.facing = facing;
            },
            None => {
                proof {
                    lemma_facing_exactness(movement_vector, TILE_WIDTH_FP as int);
                    assert(false);
                }
            },
        }
    }
}

/// Arrival snap: from any origin at most one tile step away from the
/// destination along the committed facing, repeated `keep_moving` ticks
/// eventually produce a position exactly equal to the destination — not
/// merely within a tolerance — after which the destination reads as none.
/// `t` is the remaining distance along the minor axis; one tick must move
/// strictly less than the one-unit snap radius (`5*s*s < FP_ONE*FP_ONE`),
/// as any playable speed and tick rate does.
pub proof fn lemma_arrival_snap(pos: WorldPos, d: WorldPos, f: IsometricFacing, s: int, t: int)
    requires
        d.x - pos.x == 2 * t * facing_dx(f),
        d.y - pos.y == t * facing_dy(f),
        0 <= t <= QUARTER_TILE_FP,
        1 <= s,
        5 * s * s < FP_ONE * FP_ONE,
        -COORD_LIMIT <= d.x <= COORD_LIMIT,
        -COORD_LIMIT <= d.y <= COORD_LIMIT,
    ensures
        exists|n: nat|
            advance_iter(pos, Some(d), f, s, n) == (d, None::<WorldPos>),
    decreases t,
{
    let dx = facing_dx(f);
    let dy = facing_dy(f);
    assert(dx == 1 || dx == -1);
    assert(dy == 1 || dy == -1);
    let nx = moved_x(pos, f, s);
    let ny = moved_y(pos, f, s);
    let t2 = t - s;
    assert(d.x - nx == 2 * t2 * dx && d.y - ny == t2 * dy) by (nonlinear_arith)
        requires
            d.x - pos.x == 2 * t * dx,
            d.y - pos.y == t * dy,
            nx == pos.x + 2 * s * dx,
            ny == pos.y + s * dy,
            t2 == t - s,
    ;
    assert((nx - d.x) * (nx - d.x) + (ny - d.y) * (ny - d.y) == 5 * t2 * t2) by (nonlinear_arith)
        requires
            d.x - nx == 2 * t2 * dx,
            d.y - ny == t2 * dy,
            dx == 1 || dx == -1,
            dy == 1 || dy == -1,
    ;
    if arrived(nx, ny, d) {
        assert(advance_spec(pos, d, f, s) == (d, None::<WorldPos>));
        assert(advance_iter(d, None::<WorldPos>, f, s, 0) == (d, None::<WorldPos>));
        assert(advance_iter(pos, Some(d), f, s, 1) == (d, None::<WorldPos>));
    } else {
        // Not yet within the snap radius: the remaining distance shrank by
        // one step and stayed positive, so induction applies.
        assert(5 * t2 * t2 >= FP_ONE * FP_ONE);
        assert(t2 > s || t2 < -s) by (nonlinear_arith)
            requires
                5 * t2 * t2 > 5 * s * s,
                s >= 1,
        ;
        assert(t2 >= -s);
        assert(0 <= t2 < t);
        assert(-(2 * QUARTER_TILE_FP) <= d.x - nx <= 2 * QUARTER_TILE_FP
            && -QUARTER_TILE_FP <= d.y - ny <= QUARTER_TILE_FP) by (nonlinear_arith)
            requires
                d.x - nx == 2 * t2 * dx,
                d.y - ny == t2 * dy,
                dx == 1 || dx == -1,
                dy == 1 || dy == -1,
                0 <= t2 <= QUARTER_TILE_FP,
        ;
        let pos2 = WorldPos { x: nx as i64, y: ny as i64 };
        assert(pos2.x == nx && pos2.y == ny);
        lemma_arrival_snap(pos2, d, f, s, t2);
        let n2 = choose|n: nat|
            advance_iter(pos2, Some(d), f, s, n) == (d, None::<WorldPos>);
        assert(advance_iter(pos2, Some(d), f, s, n2) == (d, None::<WorldPos>));
        assert(advance_spec(pos, d, f, s) == (pos2, Some(d)));
        assert(advance_iter(pos, Some(d), f, s, n2 + 1) == (d, None::<WorldPos>));
    }
}

} // verus!
