//! The facing/direction model: the four isometric directions, their unit
//! movement vectors, derivation of a facing from a world-space vector, and
//! the input and pathfinding value types shared across the crate.

use vstd::prelude::*;
use vstd::string::StringExecFns;
use crate::grid::{GridCell, WorldPos};

verus! {

/// The keyboard inputs registered with the game, one per movement direction.
#[derive(Clone, Copy, PartialEq, Eq, Structural, Debug)]
pub enum KeyboardInput {
    MoveNW,
    MoveNE,
    MoveSW,
    MoveSE,
}

/// The facing an input requests.
pub open spec fn movement_of_input(k: KeyboardInput) -> IsometricFacing {
    match k {
        KeyboardInput::MoveNW => IsometricFacing::NW,
        KeyboardInput::MoveNE => IsometricFacing::NE,
        KeyboardInput::MoveSW => IsometricFacing::SW,
        KeyboardInput::MoveSE => IsometricFacing::SE,
    }
}

impl KeyboardInput {
    /// Converts a pressed input into the movement direction it requests.
    /// Polling the keyboard itself is the host's concern; it hands the
    /// pressed input here.
    pub fn get_movement(self) -> (r: IsometricFacing)
        ensures
            r == movement_of_input(self),
    {
        match self {
            KeyboardInput::MoveNW => IsometricFacing::NW,
            KeyboardInput::MoveNE => IsometricFacing::NE,
            KeyboardInput::MoveSW => IsometricFacing::SW,
            KeyboardInput::MoveSE => IsometricFacing::SE,
        }
    }
}

/// One of the four cardinal directions in an isometric grid.
#[derive(Clone, Copy, PartialEq, Eq, Structural, Hash, Debug)]
pub enum IsometricFacing {
    NW,
    NE,
    SW,
    SE,
}

impl Default for IsometricFacing {
    /// Actors face south-west until told otherwise.
    fn default() -> (r: Self)
        ensures
            r == IsometricFacing::SW,
    {
        IsometricFacing::SW
    }
}

/// Sign of the x component of a one-tile step in direction `f`.
pub open spec fn facing_dx(f: IsometricFacing) -> int {
    match f {
        IsometricFacing::NW => -1,
        IsometricFacing::NE => 1,
        IsometricFacing::SW => -1,
        IsometricFacing::SE => 1,
    }
}

/// Sign of the y component of a one-tile step in direction `f`.
pub open spec fn facing_dy(f: IsometricFacing) -> int {
    match f {
        IsometricFacing::NW => -1,
        IsometricFacing::NE => -1,
        IsometricFacing::SW => 1,
        IsometricFacing::SE => 1,
    }
}

/// x component of a one-tile movement vector in direction `f`, for a tile
/// `w` sub-units wide: half the tile width, signed.
pub open spec fn movement_vec_x(f: IsometricFacing, w: int) -> int {
    facing_dx(f) * (w / 2)
}

/// y component of a one-tile movement vector in direction `f`: a quarter of
/// the tile width (movement is halved along y because isometric tiles are
/// twice as wide as they are tall).
pub open spec fn movement_vec_y(f: IsometricFacing, w: int) -> int {
    facing_dy(f) * (w / 4)
}

impl IsometricFacing {
    /// A directional movement vector with a magnitude of one isometric tile,
    /// for a tile `tile_width` sub-units wide.
    pub fn get_movement_vector(&self, tile_width: i64) -> (v: WorldPos)
        requires
            4 <= tile_width <= 0x1_0000_0000,
        ensures
            v.x == movement_vec_x(*self, tile_width as int),
            v.y == movement_vec_y(*self, tile_width as int),
            -tile_width <= v.x <= tile_width,
            -tile_width <= v.y <= tile_width,
    {
        let half: i64 = ((tile_width as u64) / 2) as i64;
        let quarter: i64 = ((tile_width as u64) / 4) as i64;
        let v: WorldPos = match self {
            IsometricFacing::NW => WorldPos { x: -half, y: -quarter },
            IsometricFacing::NE => WorldPos { x: half, y: -quarter },
            IsometricFacing::SW => WorldPos { x: -half, y: quarter },
            IsometricFacing::SE => WorldPos { x: half, y: quarter },
        };
        proof {
            assert(half == tile_width as int / 2);
            assert(quarter == tile_width as int / 4);
            assert(v.x == movement_vec_x(*self, tile_width as int));
            assert(v.y == movement_vec_y(*self, tile_width as int));
        }
        v
    }

    /// Derives the facing whose one-tile movement vector is exactly `vector`,
    /// or nothing when `vector` matches none of the four canonical vectors.
    /// Callers treat a `None` as a fatal misuse: a facing must never be
    /// requested toward a non-adjacent cell.
    pub fn from_movement_vector(vector: WorldPos, tile_width: i64) -> (r: Option<Self>)
        requires
            4 <= tile_width <= 0x1_0000_0000,
        ensures
            r == from_vector_spec(vector, tile_width as int),
    {
        if vector == IsometricFacing::NW.get_movement_vector(tile_width) {
            Some(IsometricFacing::NW)
        } else if vector == IsometricFacing::NE.get_movement_vector(tile_width) {
            Some(IsometricFacing::NE)
        } else if vector == IsometricFacing::SW.get_movement_vector(tile_width) {
            Some(IsometricFacing::SW)
        } else if vector == IsometricFacing::SE.get_movement_vector(tile_width) {
            Some(IsometricFacing::SE)
        } else {
            None
        }
    }
}

/// The two-letter label of a facing, used to select directional sprite
/// animations.
pub open spec fn label_spec(f: IsometricFacing) -> Seq<char> {
    match f {
        IsometricFacing::NW => "nw"@,
        IsometricFacing::NE => "ne"@,
        IsometricFacing::SW => "sw"@,
        IsometricFacing::SE => "se"@,
    }
}

impl IsometricFacing {
    /// The facing's two-letter label.
    pub fn to_string(&self) -> (r: String)
        ensures
            r@ == label_spec(*self),
    {
        match self {
            IsometricFacing::NW => "nw".to_owned(),
            IsometricFacing::NE => "ne".to_owned(),
            IsometricFacing::SW => "sw".to_owned(),
            IsometricFacing::SE => "se".to_owned(),
        }
    }

    /// The name of a directional animation: the facing's label, an
    /// underscore, then the base animation name.
    pub fn get_animation(&self, animation: &str) -> (r: String)
        ensures
            r@ == label_spec(*self) + "_"@ + animation@,
    {
        let mut s = self.to_string();
        s.append("_");
        s.append(animation);
        s
    }
}

/// `vector` is exactly the one-tile movement vector of `f` at tile width `w`.
pub open spec fn is_movement_vector(vector: WorldPos, f: IsometricFacing, w: int) -> bool {
    &&& vector.x == movement_vec_x(f, w)
    &&& vector.y == movement_vec_y(f, w)
}

/// The facing whose movement vector is exactly `vector`, if any, checked in
/// the fixed order NW, NE, SW, SE.
pub open spec fn from_vector_spec(vector: WorldPos, w: int) -> Option<IsometricFacing> {
    if is_movement_vector(vector, IsometricFacing::NW, w) {
        Some(IsometricFacing::NW)
    } else if is_movement_vector(vector, IsometricFacing::NE, w) {
        Some(IsometricFacing::NE)
    } else if is_movement_vector(vector, IsometricFacing::SW, w) {
        Some(IsometricFacing::SW)
    } else if is_movement_vector(vector, IsometricFacing::SE, w) {
        Some(IsometricFacing::SE)
    } else {
        None
    }
}

/// Facing exactness: at any tile width of at least one world unit, the four
/// canonical movement vectors are pairwise distinct, deriving a facing from
/// a vector succeeds exactly on those four vectors, and it returns the one
/// facing the vector belongs to.
pub proof fn lemma_facing_exactness(vector: WorldPos, w: int)
    requires
        4 <= w,
    ensures
        forall|f: IsometricFacing|
            #[trigger] is_movement_vector(vector, f, w) <==> from_vector_spec(vector, w) == Some(f),
        (from_vector_spec(vector, w) is None) <==> (forall|f: IsometricFacing|
            !#[trigger] is_movement_vector(vector, f, w)),
{
    assert(w / 2 >= 2);
    assert(w / 4 >= 1);
    assert forall|f: IsometricFacing|
        #[trigger] is_movement_vector(vector, f, w) <==> from_vector_spec(vector, w) == Some(f)
    by {
        if is_movement_vector(vector, f, w) {
            match f {
                IsometricFacing::NW => {},
                IsometricFacing::NE => {},
                IsometricFacing::SW => {},
                IsometricFacing::SE => {},
            }
        }
    }
}

/// The result of an attempt to find a path to a target tile.
#[derive(Clone, Copy, PartialEq, Eq, Structural, Debug)]
pub enum PathfindingResult {
    NoPath,
    /// The tile containing the target, which is already adjacent.
    ReachedTarget(GridCell),
    /// The next tile on a path toward the target.
    FoundPath(GridCell),
}

} // verus!
