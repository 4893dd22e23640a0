//! The wolf: a pursuing mob. Its pursuit policy turns the target's cell
//! and the results of the external shortest-path search into a next-step
//! decision, and its per-tick state machine drives movement, the bite
//! attack, and the same reservation bookkeeping the player uses.

use vstd::prelude::*;
use crate::grid::{GridCell, WorldPos, center_x, center_y, pos_in_range, COORD_LIMIT,
    TILE_WIDTH_FP};
use crate::util::{IsometricFacing, PathfindingResult, is_movement_vector,
    lemma_facing_exactness};
use crate::character::{MovingCharacter, advance_spec, step_cell, step_len, DELTA_LIMIT,
    SPEED_LIMIT};
use crate::player::{commit_reservation_spec, pos_cell, pos_in_play, spawn_reservation_spec,
    step_target, MOVE_DELAY_US, PLAY_LIMIT};
use crate::tilemap_manager::{ReservationModel, TileMapManager};

verus! {

/// Damage dealt by one successful bite, in whole health points.
pub const BITE_DAMAGE: i32 = 5;

/// The four grid-adjacent cells of `c`, in the grid's fixed enumeration
/// order: column ahead, row ahead, column behind, row behind. Pursuit
/// tie-breaks follow this order.
pub open spec fn surrounding_cells_spec(c: GridCell) -> Seq<GridCell> {
    seq![
        GridCell { col: (c.col + 1) as i32, row: c.row },
        GridCell { col: c.col, row: (c.row + 1) as i32 },
        GridCell { col: (c.col - 1) as i32, row: c.row },
        GridCell { col: c.col, row: (c.row - 1) as i32 },
    ]
}

/// `t` is one of the four grid-adjacent cells of `a`.
pub open spec fn adjacent_to(a: GridCell, t: GridCell) -> bool {
    surrounding_cells_spec(a).contains(t)
}

/// The second cell of the first listed path that is long enough to be
/// useful. A path includes its start cell, so a length below two means
/// "no useful step" and the next candidate is tried.
pub open spec fn first_usable(paths: Seq<Seq<GridCell>>) -> Option<GridCell>
    decreases paths.len(),
{
    if paths.len() == 0 {
        None
    } else if paths[0].len() >= 2 {
        Some(paths[0][1])
    } else {
        first_usable(paths.drop_first())
    }
}

/// The pursuit policy. Without navigation data or a target there is
/// nothing to do. A target standing on a cell adjacent to the pursuer is
/// already reached — terminal, no search consulted. Otherwise the search
/// results toward the target's approach cells are taken in enumeration
/// order and the first usable one decides the next step.
pub open spec fn find_path_spec(
    origin: GridCell,
    target: Option<GridCell>,
    paths: Seq<Seq<GridCell>>,
    nav: bool,
) -> PathfindingResult {
    if !nav {
        PathfindingResult::NoPath
    } else {
        match target {
            Option::None => PathfindingResult::NoPath,
            Option::Some(t) => {
                if adjacent_to(origin, t) {
                    PathfindingResult::ReachedTarget(t)
                } else {
                    match first_usable(paths) {
                        Option::Some(c) => PathfindingResult::FoundPath(c),
                        Option::None => PathfindingResult::NoPath,
                    }
                }
            },
        }
    }
}

/// The view of a list of concrete paths as a sequence of cell sequences.
pub open spec fn paths_view(paths: Seq<Vec<GridCell>>) -> Seq<Seq<GridCell>> {
    paths.map_values(|p: Vec<GridCell>| p@)
}

/// The facing that steps from cell `a` onto its neighbor `b`.
pub open spec fn facing_toward(a: GridCell, b: GridCell) -> IsometricFacing {
    if b.col == a.col + 1 && b.row == a.row {
        IsometricFacing::SE
    } else if b.col == a.col - 1 && b.row == a.row {
        IsometricFacing::NW
    } else if b.row == a.row + 1 && b.col == a.col {
        IsometricFacing::SW
    } else {
        IsometricFacing::NE
    }
}

/// The position sits exactly on the anchor of its grid cell. Idle actors
/// rest on anchors: they are locked to the grid at spawn and every
/// completed move snaps exactly onto a cell anchor.
pub open spec fn on_anchor(pos: WorldPos) -> bool {
    &&& pos.x == center_x(pos_cell(pos))
    &&& pos.y == center_y(pos_cell(pos))
}

/// Pursuit determinism, adjacency half: whenever the target's cell is
/// grid-adjacent to the pursuer's, the policy reports `ReachedTarget` —
/// never `FoundPath` — whatever the search returned. The other half,
/// that equal inputs give equal results, is the policy's contract itself:
/// the result is a function of the pursuer cell, target cell, search
/// results and navigation flag alone.
pub proof fn lemma_pursuit_adjacent(
    origin: GridCell,
    t: GridCell,
    paths: Seq<Seq<GridCell>>,
)
    requires
        adjacent_to(origin, t),
    ensures
        find_path_spec(origin, Some(t), paths, true) == PathfindingResult::ReachedTarget(t),
{
}

/// A one-tile step from the anchor of cell `a` toward an adjacent cell
/// `t` is exactly the movement vector of the facing toward `t`.
pub proof fn lemma_neighbor_vector(a: GridCell, t: GridCell, pos: WorldPos)
    requires
        pos.x == center_x(a),
        pos.y == center_y(a),
        adjacent_to(a, t),
        -0x4000_0000 <= a.col <= 0x4000_0000,
        -0x4000_0000 <= a.row <= 0x4000_0000,
    ensures
        is_movement_vector(
            WorldPos {
                x: (center_x(t) - pos.x) as i64,
                y: (center_y(t) - pos.y) as i64,
            },
            facing_toward(a, t),
            TILE_WIDTH_FP as int,
        ),
{
    let s = surrounding_cells_spec(a);
    let i = choose|i: int| 0 <= i < s.len() && s[i] == t;
    if i == 0 {
    } else if i == 1 {
    } else if i == 2 {
    } else {
        assert(t == s[3]);
    }
}

/// The wolf's movement state. `Bite` is the mob-only attack sub-state,
/// held until the external animation-complete signal arrives.
#[derive(Clone, Copy, PartialEq, Eq, Structural, Debug)]
pub enum WolfMovementState {
    Idle,
    StartMoving,
    Moving,
    Bite,
}

/// Which animation the wolf's sprite should play.
#[derive(Clone, Copy, PartialEq, Eq, Structural, Debug)]
pub enum WolfAnimationState {
    Idle,
    Walking,
    Bite,
}

/// The wolf's pending one-shot reservation request; resets to `Inactive`
/// as soon as it is consumed.
#[derive(Clone, Copy, PartialEq, Eq, Structural, Debug)]
pub enum WolfReservationState {
    Inactive,
    ReserveLocation,
    ReserveDestination,
}

/// The wolf's verified core. The engine node owns the transform, sprite
/// and proximity sensor; it passes the position, the target's cell and
/// the search results in each tick.
#[derive(Clone, Copy, PartialEq, Eq, Structural, Debug)]
pub struct Wolf {
    /// This actor's identity in the reservation ledger.
    pub id: u64,
    /// Movement speed, in sub-units per second along the y axis.
    pub speed: u32,
    /// Remaining health, in whole points.
    pub health: i32,
    pub character: MovingCharacter,
    /// Remaining pathfinding delay, in microseconds.
    pub input_delay: i64,
    pub movement_state: WolfMovementState,
    pub animation_state: WolfAnimationState,
    pub reservation_state: WolfReservationState,
}

/// The wolf's state is internally consistent (the same shape of invariant
/// the player carries).
pub open spec fn wolf_wf(w: Wolf) -> bool {
    &&& -(DELTA_LIMIT as int) <= w.input_delay <= MOVE_DELAY_US
    &&& (w.character.destination matches Some(d) ==> pos_in_range(d)
        && -PLAY_LIMIT - TILE_WIDTH_FP <= d.x <= PLAY_LIMIT + TILE_WIDTH_FP
        && -PLAY_LIMIT - TILE_WIDTH_FP <= d.y <= PLAY_LIMIT + TILE_WIDTH_FP)
    &&& (w.movement_state is Moving ==> w.character.destination is Some)
    &&& w.speed <= SPEED_LIMIT
}

/// Effect of the pursuit decision on an idle wolf. Facing the target's
/// cell and biting when adjacent; toward a found next step, a facing
/// change and a movement commit are mutually exclusive in one tick, so
/// the wolf first turns and only commits once it already faces the step.
pub open spec fn pathfinding_spec(
    w: Wolf,
    pos: WorldPos,
    target: Option<GridCell>,
    paths: Seq<Seq<GridCell>>,
) -> Wolf {
    if !(w.movement_state is Idle) {
        w
    } else {
        match find_path_spec(pos_cell(pos), target, paths, w.character.nav_ready) {
            PathfindingResult::NoPath => w,
            PathfindingResult::ReachedTarget(t) => Wolf {
                character: MovingCharacter {
                    facing: facing_toward(pos_cell(pos), t),
                    ..w.character
                },
                movement_state: WolfMovementState::Bite,
                animation_state: WolfAnimationState::Bite,
                ..w
            },
            PathfindingResult::FoundPath(next) => {
                let f2 = facing_toward(pos_cell(pos), next);
                if f2 == w.character.facing {
                    Wolf {
                        movement_state: WolfMovementState::StartMoving,
                        animation_state: WolfAnimationState::Walking,
                        input_delay: MOVE_DELAY_US,
                        ..w
                    }
                } else {
                    Wolf { character: MovingCharacter { facing: f2, ..w.character }, ..w }
                }
            },
        }
    }
}

/// Effect of one logical-update tick: without navigation data nothing
/// happens; otherwise the pathfinding delay counts down and, once lapsed,
/// the pursuit decision runs.
pub open spec fn wolf_process_spec(
    w: Wolf,
    delta_us: u32,
    pos: WorldPos,
    target: Option<GridCell>,
    paths: Seq<Seq<GridCell>>,
) -> Wolf {
    if !w.character.nav_ready {
        w
    } else if w.input_delay > 0 {
        Wolf { input_delay: (w.input_delay - delta_us) as i64, ..w }
    } else {
        pathfinding_spec(w, pos, target, paths)
    }
}

/// Effect of the movement phase of one physics tick. The bite sub-state
/// holds until the external animation-complete signal; it then lands its
/// hit only if the target still stands on the faced cell (no phantom
/// hits on a target that fled), and returns to idle either way.
pub open spec fn wolf_movement_logic_spec(
    w: Wolf,
    pos: WorldPos,
    delta_us: u32,
    m: ReservationModel,
    bite_done: bool,
    target_cell: Option<GridCell>,
) -> (Wolf, WorldPos, bool) {
    match w.movement_state {
        WolfMovementState::Idle => {
            if w.input_delay <= 0 {
                (Wolf { animation_state: WolfAnimationState::Idle, ..w }, pos, false)
            } else {
                (w, pos, false)
            }
        },
        WolfMovementState::StartMoving => {
            if w.character.nav_ready && !m.blocked.contains(step_cell(w.character.facing, pos)) {
                (Wolf {
                    character: MovingCharacter {
                        destination: Some(step_target(w.character.facing, pos)),
                        ..w.character
                    },
                    movement_state: WolfMovementState::Moving,
                    animation_state: WolfAnimationState::Walking,
                    reservation_state: WolfReservationState::ReserveDestination,
                    ..w
                }, pos, false)
            } else {
                (Wolf { movement_state: WolfMovementState::Idle, ..w }, pos, false)
            }
        },
        WolfMovementState::Moving => {
            match w.character.destination {
                Option::Some(d) => {
                    let r = advance_spec(pos, d, w.character.facing, step_len(w.speed, delta_us));
                    let w1 = Wolf {
                        character: MovingCharacter { destination: r.1, ..w.character },
                        ..w
                    };
                    if r.1 is None {
                        (Wolf { movement_state: WolfMovementState::Idle, ..w1 }, r.0, false)
                    } else {
                        (w1, r.0, false)
                    }
                },
                Option::None => (w, pos, false),
            }
        },
        WolfMovementState::Bite => {
            if !bite_done {
                (w, pos, false)
            } else {
                let hit = target_cell matches Some(tc)
                    && tc == step_cell(w.character.facing, pos);
                (Wolf { movement_state: WolfMovementState::Idle, ..w }, pos, hit)
            }
        },
    }
}

/// Effect of the reservation phase of one physics tick, exactly as for
/// the player.
pub open spec fn wolf_reservation_logic_spec(
    w: Wolf,
    pos: WorldPos,
    m: ReservationModel,
) -> (Wolf, ReservationModel) {
    match w.reservation_state {
        WolfReservationState::Inactive => (w, m),
        WolfReservationState::ReserveLocation => (
            Wolf { reservation_state: WolfReservationState::Inactive, ..w },
            spawn_reservation_spec(m, w.id, pos),
        ),
        WolfReservationState::ReserveDestination => (
            Wolf { reservation_state: WolfReservationState::Inactive, ..w },
            commit_reservation_spec(m, w.id, w.character.facing, pos),
        ),
    }
}

/// Effect of one full physics tick: without navigation data nothing
/// happens; otherwise the movement phase runs, then the reservation
/// phase at the updated position. The boolean reports a landed bite,
/// which the host applies to the target.
pub open spec fn wolf_physics_step_spec(
    w: Wolf,
    pos: WorldPos,
    delta_us: u32,
    m: ReservationModel,
    bite_done: bool,
    target_cell: Option<GridCell>,
) -> (Wolf, WorldPos, ReservationModel, bool) {
    if !w.character.nav_ready {
        (w, pos, m, false)
    } else {
        let moved = wolf_movement_logic_spec(w, pos, delta_us, m, bite_done, target_cell);
        let reserved = wolf_reservation_logic_spec(moved.0, moved.1, m);
        (reserved.0, moved.1, reserved.1, moved.2)
    }
}

/// The four grid-adjacent cells of `c`, in the grid's fixed enumeration
/// order.
pub fn get_surrounding_cells(c: GridCell) -> (r: Vec<GridCell>)
    requires
        -0x4000_0000 <= c.col <= 0x4000_0000,
        -0x4000_0000 <= c.row <= 0x4000_0000,
    ensures
        r@ == surrounding_cells_spec(c),
{
    let mut v: Vec<GridCell> = Vec::new();
    v.push(GridCell { col: c.col + 1, row: c.row });
    v.push(GridCell { col: c.col, row: c.row + 1 });
    v.push(GridCell { col: c.col - 1, row: c.row });
    v.push(GridCell { col: c.col, row: c.row - 1 });
    proof {
        assert(v@ =~= surrounding_cells_spec(c));
    }
    v
}

impl Wolf {
    /// A freshly spawned wolf: a touch faster than the player, facing
    /// south-west, stationary, no navigation data yet, and a pending
    /// request to reserve its spawn cell.
    pub fn new(id: u64) -> (w: Wolf)
        ensures
            wolf_wf(w),
            w.id == id,
            w.speed == 5632,
            w.health == 100,
            w.character.facing == IsometricFacing::SW,
            w.character.destination is None,
            !w.character.nav_ready,
            w.input_delay == 0,
            w.movement_state is Idle,
            w.animation_state is Idle,
            w.reservation_state is ReserveLocation,
    {
        Wolf {
            id,
            speed: 5632,
            health: 100,
            character: MovingCharacter::new(),
            input_delay: 0,
            movement_state: WolfMovementState::Idle,
            animation_state: WolfAnimationState::Idle,
            reservation_state: WolfReservationState::ReserveLocation,
        }
    }

    /// The pursuit policy on concrete inputs: the target's cell as the
    /// external proximity query reported it, and one search result per
    /// approach cell of the target, in enumeration order. The result is a
    /// function of these inputs alone — repeated invocation on equal
    /// inputs returns the same decision.
    #[verifier::loop_isolation(false)]
    pub fn find_path(
        &self,
        position: WorldPos,
        target: Option<GridCell>,
        paths: &Vec<Vec<GridCell>>,
    ) -> (r: PathfindingResult)
        requires
            pos_in_range(position),
        ensures
            r == find_path_spec(pos_cell(position), target, paths_view(paths@),
                self.character.nav_ready),
    {
        if !self.character.has_nav() {
            return PathfindingResult::NoPath;
        }
        let t = match target {
            Option::Some(t) => t,
            Option::None => {
                return PathfindingResult::NoPath;
            },
        };
        let origin = crate::grid::global_to_grid(position);
        proof {
            assert(origin == pos_cell(position));
        }
        // Check whether the target already stands next to us.
        let wolf_neighbours = get_surrounding_cells(origin);
        let mut i: usize = 0;
        while i < wolf_neighbours.len()
            invariant
                i <= wolf_neighbours@.len(),
                wolf_neighbours@ == surrounding_cells_spec(origin),
                forall|j: int| 0 <= j < i ==> wolf_neighbours@[j] != t,
            decreases wolf_neighbours@.len() - i,
        {
            if wolf_neighbours[i] == t {
                proof {
                    assert(wolf_neighbours@[i as int] == t);
                    assert(adjacent_to(origin, t));
                }
                return PathfindingResult::ReachedTarget(t);
            }
            i += 1;
        }
        proof {
            assert(!adjacent_to(origin, t));
        }
        // Try the searches toward the target's approach cells in order.
        let ghost full = paths_view(paths@);
        proof {
            assert(full.skip(0) =~= full);
        }
        let mut k: usize = 0;
        while k < paths.len()
            invariant
                k <= paths@.len(),
                full == paths_view(paths@),
                first_usable(full) == first_usable(full.skip(k as int)),
            decreases paths@.len() - k,
        {
            let path = &paths[k];
            if path.len() >= 2 {
                let c = path[1];
                proof {
                    assert(full.skip(k as int)[0] == path@);
                    assert(first_usable(full.skip(k as int)) == Some(path@[1]));
                }
                return PathfindingResult::FoundPath(c);
            }
            proof {
                assert(full.skip(k as int)[0] == path@);
                assert(full.skip(k as int).drop_first() =~= full.skip(k as int + 1));
            }
            k += 1;
        }
        proof {
            assert(full.skip(paths@.len() as int).len() == 0);
        }
        PathfindingResult::NoPath
    }

    /// Runs the pursuit decision on an idle wolf: face the reached target
    /// and bite, or turn toward (and, once already facing, commit to) the
    /// next step of the first usable path.
    ///
    /// An idle wolf rests exactly on its cell's anchor, and a usable
    /// search result begins at the wolf's own cell, so its second cell is
    /// grid-adjacent — a step toward a non-adjacent cell would be a fatal
    /// misuse of the facing model.
    pub fn handle_pathfinding(
        &mut self,
        position: WorldPos,
        target: Option<GridCell>,
        paths: &Vec<Vec<GridCell>>,
    )
        requires
            wolf_wf(*old(self)),
            pos_in_play(position),
            old(self).movement_state is Idle ==> on_anchor(position),
            old(self).movement_state is Idle ==> (
                first_usable(paths_view(paths@)) matches Some(c)
                    ==> adjacent_to(pos_cell(position), c)),
        ensures
            wolf_wf(*final(self)),
            *final(self) == pathfinding_spec(*old(self), position, target, paths_view(paths@)),
    {
        match self.movement_state {
            WolfMovementState::Idle => {
                match self.find_path(position, target, paths) {
                    PathfindingResult::NoPath => {},
                    PathfindingResult::ReachedTarget(target_tile) => {
                        self.face_toward(position, target_tile);
                        self.movement_state = WolfMovementState::Bite;
                        self.animation_state = WolfAnimationState::Bite;
                    },
                    PathfindingResult::FoundPath(next_tile) => {
                        let old_facing = self.character.facing;
                        self.face_toward(position, next_tile);
                        // A turn and a commit are mutually exclusive in
                        // one tick: only an unchanged facing commits.
                        if self.character.facing == old_facing {
                            self.movement_state = WolfMovementState::StartMoving;
                            self.animation_state = WolfAnimationState::Walking;
                            self.input_delay = MOVE_DELAY_US;
                        }
                    },
                }
            },
            _ => {},
        }
    }

    /// Turns toward the adjacent cell `tile`, which must be one movement
    /// step from `position`.
    fn face_toward(&mut self, position: WorldPos, tile: GridCell)
        requires
            pos_in_range(position),
            on_anchor(position),
            adjacent_to(pos_cell(position), tile),
            -0x1F_0000 <= pos_cell(position).col <= 0x1F_0000,
            -0x1F_0000 <= pos_cell(position).row <= 0x1F_0000,
        ensures
            *final(self) == (Wolf {
                character: MovingCharacter {
                    facing: facing_toward(pos_cell(position), tile),
                    ..old(self).character
                },
                ..*old(self)
            }),
    {
        proof {
            let a = pos_cell(position);
            lemma_neighbor_vector(a, tile, position);
            let s = surrounding_cells_spec(a);
            let i = choose|i: int| 0 <= i < s.len() && s[i] == tile;
            if i == 0 {
            } else if i == 1 {
            } else if i == 2 {
            } else {
                assert(tile == s[3]);
            }
            assert(crate::grid::cell_in_range(tile));
        }
        self.character.face_tile(position, tile);
        proof {
            let vec = WorldPos {
                x: (center_x(tile) - position.x) as i64,
                y: (center_y(tile) - position.y) as i64,
            };
            lemma_facing_exactness(vec, TILE_WIDTH_FP as int);
        }
    }

    /// One logical-update tick: counts the pathfinding delay down and,
    /// once lapsed, runs the pursuit decision.
    pub fn process(
        &mut self,
        position: WorldPos,
        delta_us: u32,
        target: Option<GridCell>,
        paths: &Vec<Vec<GridCell>>,
    )
        requires
            wolf_wf(*old(self)),
            delta_us <= DELTA_LIMIT,
            pos_in_play(position),
            old(self).movement_state is Idle ==> on_anchor(position),
            old(self).movement_state is Idle ==> (
                first_usable(paths_view(paths@)) matches Some(c)
                    ==> adjacent_to(pos_cell(position), c)),
        ensures
            wolf_wf(*final(self)),
            *final(self) == wolf_process_spec(*old(self), delta_us, position, target,
                paths_view(paths@)),
    {
        if !self.character.has_nav() {
            // Without navigation data the wolf stays inert; the host
            // re-requests the data and tries again next tick.
            return;
        }
        if self.input_delay > 0 {
            self.input_delay = self.input_delay - (delta_us as i64);
        } else {
            self.handle_pathfinding(position, target, paths);
        }
    }

    /// One physics tick: the movement phase (idle rest, commit attempt,
    /// one tick of movement, or bite resolution), then the pending
    /// reservation request. Returns the wolf's new position and whether a
    /// bite landed this tick; the host applies both.
    pub fn physics_process(
        &mut self,
        position: WorldPos,
        delta_us: u32,
        board: &mut TileMapManager,
        bite_done: bool,
        target_cell: Option<GridCell>,
    ) -> (r: (WorldPos, bool))
        requires
            wolf_wf(*old(self)),
            old(board).wf(),
            pos_in_play(position),
            delta_us <= DELTA_LIMIT,
        ensures
            wolf_wf(*final(self)),
            final(board).wf(),
            ({
                let s = wolf_physics_step_spec(*old(self), position, delta_us,
                    old(board).model(), bite_done, target_cell);
                &&& *final(self) == s.0
                &&& r.0 == s.1
                &&& final(board).model() == s.2
                &&& r.1 == s.3
            }),
            -COORD_LIMIT <= r.0.x <= COORD_LIMIT,
            -COORD_LIMIT <= r.0.y <= COORD_LIMIT,
    {
        if !self.character.has_nav() {
            return (position, false);
        }
        let ghost m0 = board.model();
        let mut pos_now: WorldPos = position;
        let mut bite_hit: bool = false;
        match self.movement_state {
            WolfMovementState::Idle => {
                if self.input_delay <= 0 {
                    self.animation_state = WolfAnimationState::Idle;
                }
            },
            WolfMovementState::StartMoving => {
                if self.character.try_moving(position, board) {
                    self.movement_state = WolfMovementState::Moving;
                    self.animation_state = WolfAnimationState::Walking;
                    self.reservation_state = WolfReservationState::ReserveDestination;
                } else {
                    self.movement_state = WolfMovementState::Idle;
                }
            },
            WolfMovementState::Moving => {
                proof {
                    let sp = self.speed;
                    assert((sp * delta_us) / 1_000_000 <= 0xA0_0000) by (nonlinear_arith)
                        requires
                            sp <= 0x10_0000,
                            delta_us <= 10_000_000,
                    ;
                }
                let new_position = self.character.keep_moving(position, self.speed, delta_us);
                pos_now = new_position;
                if self.character.destination.is_none() {
                    self.movement_state = WolfMovementState::Idle;
                }
            },
            WolfMovementState::Bite => {
                if bite_done {
                    // The strike window closed: the hit lands only if the
                    // target still stands on the faced cell.
                    let facing_pos = self.character.calculate_movement_grid(position);
                    match target_cell {
                        Option::Some(tc) => {
                            if tc == facing_pos {
                                bite_hit = true;
                            }
                        },
                        Option::None => {},
                    }
                    self.movement_state = WolfMovementState::Idle;
                }
            },
        }
        proof {
            let r1 = wolf_movement_logic_spec(*old(self), position, delta_us, m0, bite_done,
                target_cell);
            assert(*self == r1.0 && pos_now == r1.1 && bite_hit == r1.2);
        }
        match self.reservation_state {
            WolfReservationState::Inactive => {},
            WolfReservationState::ReserveLocation => {
                let gridpos = crate::grid::global_to_grid(pos_now);
                let _ = board.request_reserve(self.id, gridpos);
                self.reservation_state = WolfReservationState::Inactive;
            },
            WolfReservationState::ReserveDestination => {
                let gridpos = self.character.calculate_movement_grid(pos_now);
                let _ = board.request_reserve(self.id, gridpos);
                let origin = crate::grid::global_to_grid(pos_now);
                board.release(self.id, origin);
                self.reservation_state = WolfReservationState::Inactive;
            },
        }
        (pos_now, bite_hit)
    }
}

} // verus!
