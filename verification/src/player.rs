//! The player's per-tick state machine: idle, commit-to-move, or
//! continue-moving, with the turn-before-you-walk input policy and the
//! two-phase reserve/release bookkeeping that keeps the shared occupancy
//! map consistent with the player's movement.

use vstd::prelude::*;
use crate::grid::{GridCell, WorldPos, col_of, row_of, pos_in_range, COORD_LIMIT, TILE_WIDTH_FP};
use crate::util::IsometricFacing;
use crate::character::{MovingCharacter, advance_spec, step_cell, step_len, step_target_x,
    step_target_y, DELTA_LIMIT, SPEED_LIMIT};
use crate::tilemap_manager::{ReservationModel, TileMapManager, release_step, reserve_allowed,
    reserve_step};

verus! {

/// Largest position magnitude the per-tick state machines are specified
/// for: comfortably inside the grid mapping's range, with room for one
/// tick of movement.
pub const PLAY_LIMIT: i64 = 0x1_0000_0000;

/// Input delay after a facing change, in microseconds: prevents an
/// accidental movement commit right after a turn.
pub const TURN_DELAY_US: i64 = 50_000;

/// Input delay after a movement commit, in microseconds.
pub const MOVE_DELAY_US: i64 = 200_000;

/// The position lies inside the region the state machines are specified for.
pub open spec fn pos_in_play(p: WorldPos) -> bool {
    &&& -PLAY_LIMIT <= p.x <= PLAY_LIMIT
    &&& -PLAY_LIMIT <= p.y <= PLAY_LIMIT
}

/// The grid cell containing a world position.
pub open spec fn pos_cell(pos: WorldPos) -> GridCell {
    GridCell {
        col: col_of(pos.x as int, pos.y as int) as i32,
        row: row_of(pos.x as int, pos.y as int) as i32,
    }
}

/// The world position one full tile ahead of `pos` in direction `f`.
pub open spec fn step_target(f: IsometricFacing, pos: WorldPos) -> WorldPos {
    WorldPos { x: step_target_x(f, pos) as i64, y: step_target_y(f, pos) as i64 }
}

/// Movement attributes of the player.
#[derive(Clone, Copy, PartialEq, Eq, Structural, Debug)]
pub struct PlayerData {
    /// Movement speed, in sub-units per second along the y axis.
    pub speed: u32,
    /// Remaining health, in whole points.
    pub health: i32,
}

impl Default for PlayerData {
    /// The stock player: two and a half tiles-per-second walking pace,
    /// full health.
    fn default() -> (r: Self)
        ensures
            r.speed == 5120,
            r.health == 100,
    {
        PlayerData { speed: 5120, health: 100 }
    }
}

/// The player's movement state.
#[derive(Clone, Copy, PartialEq, Eq, Structural, Debug)]
pub enum PlayerMovementState {
    Idle,
    StartMoving,
    Moving,
}

/// Which animation the player's sprite should play.
#[derive(Clone, Copy, PartialEq, Eq, Structural, Debug)]
pub enum PlayerAnimationState {
    Idle,
    Walking,
}

/// The one-shot reservation request pending for the player: reserve the
/// spawn cell once at spawn, or run the reserve-destination/release-origin
/// pair once per movement commit. Not a steady state — it resets to
/// `Inactive` as soon as the request is consumed.
#[derive(Clone, Copy, PartialEq, Eq, Structural, Debug)]
pub enum PlayerReservationState {
    Inactive,
    ReserveLocation,
    ReserveDestination,
}

/// The player's verified core: movement record, health and speed, input
/// delay and the three state enumerations. The engine node owns the
/// transform and sprite; it passes the position in each tick and applies
/// the returned one.
#[derive(Clone, Copy, PartialEq, Eq, Structural, Debug)]
pub struct Player {
    /// This actor's identity in the reservation ledger.
    pub id: u64,
    pub data: PlayerData,
    pub character: MovingCharacter,
    /// Remaining input delay, in microseconds.
    pub input_delay: i64,
    pub movement_state: PlayerMovementState,
    pub animation_state: PlayerAnimationState,
    pub reservation_state: PlayerReservationState,
}

/// The player's state is internally consistent: the input delay is inside
/// its counting range, a committed destination is in play, moving implies
/// a destination is held, and the attributes are within the engine's
/// limits.
pub open spec fn player_wf(p: Player) -> bool {
    &&& -(DELTA_LIMIT as int) <= p.input_delay <= MOVE_DELAY_US
    &&& (p.character.destination matches Some(d) ==> pos_in_range(d)
        && -PLAY_LIMIT - TILE_WIDTH_FP <= d.x <= PLAY_LIMIT + TILE_WIDTH_FP
        && -PLAY_LIMIT - TILE_WIDTH_FP <= d.y <= PLAY_LIMIT + TILE_WIDTH_FP)
    &&& (p.movement_state is Moving ==> p.character.destination is Some)
    &&& p.data.speed <= SPEED_LIMIT
}

/// Effect of one logical-update tick on the player: count the input delay
/// down, or, when it has lapsed, apply the input policy.
pub open spec fn process_spec(p: Player, delta_us: u32, input: Option<IsometricFacing>) -> Player {
    if p.input_delay > 0 {
        Player { input_delay: (p.input_delay - delta_us) as i64, ..p }
    } else {
        handle_input_spec(p, input)
    }
}

/// The input policy: an intent only matters while idle. A facing change
/// and a movement commit are mutually exclusive in one tick — if the
/// requested direction differs from the current facing, only the facing
/// turns (with a short delay); only when it already matches does the
/// player commit to start moving.
pub open spec fn handle_input_spec(p: Player, input: Option<IsometricFacing>) -> Player {
    match input {
        Option::None => p,
        Option::Some(facing) => {
            if !(p.movement_state is Idle) {
                p
            } else if p.character.facing != facing {
                Player {
                    character: MovingCharacter { facing, ..p.character },
                    input_delay: TURN_DELAY_US,
                    ..p
                }
            } else {
                Player {
                    movement_state: PlayerMovementState::StartMoving,
                    animation_state: PlayerAnimationState::Walking,
                    input_delay: MOVE_DELAY_US,
                    ..p
                }
            }
        },
    }
}

/// Effect of the movement phase of one physics tick: idle rest, a
/// commit attempt against the occupancy map, or one tick of movement.
/// Returns the player and its (possibly moved) position.
pub open spec fn movement_logic_spec(
    p: Player,
    pos: WorldPos,
    delta_us: u32,
    m: ReservationModel,
) -> (Player, WorldPos) {
    match p.movement_state {
        PlayerMovementState::Idle => {
            if p.input_delay <= 0 {
                (Player { animation_state: PlayerAnimationState::Idle, ..p }, pos)
            } else {
                (p, pos)
            }
        },
        PlayerMovementState::StartMoving => {
            if p.character.nav_ready && !m.blocked.contains(step_cell(p.character.facing, pos)) {
                (Player {
                    character: MovingCharacter {
                        destination: Some(step_target(p.character.facing, pos)),
                        ..p.character
                    },
                    movement_state: PlayerMovementState::Moving,
                    animation_state: PlayerAnimationState::Walking,
                    reservation_state: PlayerReservationState::ReserveDestination,
                    ..p
                }, pos)
            } else {
                (Player { movement_state: PlayerMovementState::Idle, ..p }, pos)
            }
        },
        PlayerMovementState::Moving => {
            match p.character.destination {
                Option::Some(d) => {
                    let r = advance_spec(pos, d, p.character.facing,
                        step_len(p.data.speed, delta_us));
                    let p1 = Player {
                        character: MovingCharacter { destination: r.1, ..p.character },
                        ..p
                    };
                    if r.1 is None {
                        (Player { movement_state: PlayerMovementState::Idle, ..p1 }, r.0)
                    } else {
                        (p1, r.0)
                    }
                },
                Option::None => (p, pos),
            }
        },
    }
}

/// Effect of a spawn reservation: the actor claims the cell it stands on,
/// if that cell is free.
pub open spec fn spawn_reservation_spec(m: ReservationModel, id: u64, pos: WorldPos)
    -> ReservationModel {
    if reserve_allowed(m, pos_cell(pos)) {
        reserve_step(m, id, pos_cell(pos))
    } else {
        m
    }
}

/// Effect of a movement-commit reservation: the actor claims the cell one
/// step ahead in direction `f`, then releases the cell it stands on — in
/// that order, never reversed, so that no third actor can claim the origin
/// while the mover still stands on it.
pub open spec fn commit_reservation_spec(
    m: ReservationModel,
    id: u64,
    f: IsometricFacing,
    pos: WorldPos,
) -> ReservationModel {
    let cdest = step_cell(f, pos);
    let m1 = if reserve_allowed(m, cdest) {
        reserve_step(m, id, cdest)
    } else {
        m
    };
    release_step(m1, id, pos_cell(pos))
}

/// The two-phase commit leaves the mover holding its destination: after
/// an admissible claim on the destination cell followed by the release of
/// the origin, the destination is blocked and held by the mover — so no
/// other actor can claim the cell it is moving into, however many ticks
/// the move takes — and the mover's own claim on its origin is gone.
pub proof fn lemma_commit_two_phase(
    m: ReservationModel,
    id: u64,
    f: IsometricFacing,
    pos: WorldPos,
)
    requires
        reserve_allowed(m, step_cell(f, pos)),
        step_cell(f, pos) != pos_cell(pos),
    ensures
        commit_reservation_spec(m, id, f, pos).blocked.contains(step_cell(f, pos)),
        commit_reservation_spec(m, id, f, pos).holder.contains_pair(step_cell(f, pos), id),
        !commit_reservation_spec(m, id, f, pos).holder.contains_pair(pos_cell(pos), id),
{
}

/// Effect of the reservation phase of one physics tick: the pending
/// one-shot request is consumed exactly once. A spawn reservation claims
/// the current cell; a movement commit claims the destination cell and
/// then releases the origin cell.
pub open spec fn reservation_logic_spec(
    p: Player,
    pos: WorldPos,
    m: ReservationModel,
) -> (Player, ReservationModel) {
    match p.reservation_state {
        PlayerReservationState::Inactive => (p, m),
        PlayerReservationState::ReserveLocation => (
            Player { reservation_state: PlayerReservationState::Inactive, ..p },
            spawn_reservation_spec(m, p.id, pos),
        ),
        PlayerReservationState::ReserveDestination => (
            Player { reservation_state: PlayerReservationState::Inactive, ..p },
            commit_reservation_spec(m, p.id, p.character.facing, pos),
        ),
    }
}

/// Effect of one full physics tick: without navigation data nothing
/// happens (the actor re-requests it and waits); otherwise the movement
/// phase runs, then the reservation phase at the updated position.
pub open spec fn physics_step_spec(
    p: Player,
    pos: WorldPos,
    delta_us: u32,
    m: ReservationModel,
) -> (Player, WorldPos, ReservationModel) {
    if !p.character.nav_ready {
        (p, pos, m)
    } else {
        let moved = movement_logic_spec(p, pos, delta_us, m);
        let reserved = reservation_logic_spec(moved.0, moved.1, m);
        (reserved.0, moved.1, reserved.1)
    }
}

impl Player {
    /// A freshly spawned player: stock attributes, facing south-west,
    /// stationary, no navigation data yet, and a pending request to
    /// reserve its spawn cell.
    pub fn new(id: u64) -> (p: Player)
        ensures
            player_wf(p),
            p.id == id,
            p.data.speed == 5120,
            p.data.health == 100,
            p.character.facing == IsometricFacing::SW,
            p.character.destination is None,
            !p.character.nav_ready,
            p.input_delay == 0,
            p.movement_state is Idle,
            p.animation_state is Idle,
            p.reservation_state is ReserveLocation,
    {
        Player {
            id,
            data: PlayerData::default(),
            character: MovingCharacter::new(),
            input_delay: 0,
            movement_state: PlayerMovementState::Idle,
            animation_state: PlayerAnimationState::Idle,
            reservation_state: PlayerReservationState::ReserveLocation,
        }
    }

    /// Whether the player has run out of health. The host reacts by
    /// removing the actor from play.
    pub fn is_dead(&self) -> (b: bool)
        ensures
            b == (self.data.health <= 0),
    {
        self.data.health <= 0
    }

    /// One logical-update tick: counts the input delay down and, once it
    /// has lapsed, applies the currently intended movement direction (if
    /// any) under the turn-before-you-walk policy.
    pub fn process(&mut self, delta_us: u32, input: Option<IsometricFacing>)
        requires
            player_wf(*old(self)),
            delta_us <= DELTA_LIMIT,
        ensures
            player_wf(*final(self)),
            *final(self) == process_spec(*old(self), delta_us, input),
    {
        if self.input_delay > 0 {
            self.input_delay = self.input_delay - (delta_us as i64);
        } else {
            self.handle_input(input);
        }
    }

    /// Applies an input intent under the policy of `handle_input_spec`.
    pub fn handle_input(&mut self, input: Option<IsometricFacing>)
        requires
            player_wf(*old(self)),
        ensures
            player_wf(*final(self)),
            *final(self) == handle_input_spec(*old(self), input),
    {
        match input {
            Option::None => {},
            Option::Some(facing) => {
                match self.movement_state {
                    PlayerMovementState::Idle => {
                        if self.character.facing != facing {
                            self.character.facing = facing;
                            self.input_delay = TURN_DELAY_US;
                        } else {
                            self.movement_state = PlayerMovementState::StartMoving;
                            self.animation_state = PlayerAnimationState::Walking;
                            self.input_delay = MOVE_DELAY_US;
                        }
                    },
                    _ => {},
                }
            },
        }
    }

    /// Applies damage to the player's health.
    pub fn damage(&mut self, amount: i32)
        requires
            player_wf(*old(self)),
            0 <= amount <= 0x1000_0000,
            -0x4000_0000 <= old(self).data.health <= 0x4000_0000,
        ensures
            player_wf(*final(self)),
            *final(self) == (Player {
                data: PlayerData {
                    health: (old(self).data.health - amount) as i32,
                    ..old(self).data
                },
                ..*old(self)
            }),
    {
        self.data.health = self.data.health - amount;
    }

    /// One physics tick: the movement phase (idle rest, commit attempt, or
    /// one tick of movement), then the pending reservation request, run
    /// exactly as `physics_step_spec` describes. Returns the player's new
    /// position, which the host applies to the engine transform.
    pub fn physics_process(
        &mut self,
        position: WorldPos,
        delta_us: u32,
        board: &mut TileMapManager,
    ) -> (p: WorldPos)
        requires
            player_wf(*old(self)),
            old(board).wf(),
            pos_in_play(position),
            delta_us <= DELTA_LIMIT,
        ensures
            player_wf(*final(self)),
            final(board).wf(),
            ({
                let r = physics_step_spec(*old(self), position, delta_us, old(board).model());
                &&& *final(self) == r.0
                &&& p == r.1
                &&& final(board).model() == r.2
            }),
            -COORD_LIMIT <= p.x <= COORD_LIMIT,
            -COORD_LIMIT <= p.y <= COORD_LIMIT,
    {
        if !self.character.has_nav() {
            // Without navigation data the actor stays inert; the host
            // re-requests the data and tries again next tick.
            return position;
        }
        let ghost m0 = board.model();
        let mut pos_now: WorldPos = position;
        match self.movement_state {
            PlayerMovementState::Idle => {
                if self.input_delay <= 0 {
                    self.animation_state = PlayerAnimationState::Idle;
                }
            },
            PlayerMovementState::StartMoving => {
                if self.character.try_moving(position, board) {
                    self.movement_state = PlayerMovementState::Moving;
                    self.animation_state = PlayerAnimationState::Walking;
                    self.reservation_state = PlayerReservationState::ReserveDestination;
                } else {
                    self.movement_state = PlayerMovementState::Idle;
                }
            },
            PlayerMovementState::Moving => {
                proof {
                    let sp = self.data.speed;
                    assert((sp * delta_us) / 1_000_000 <= 0xA0_0000) by (nonlinear_arith)
                        requires
                            sp <= 0x10_0000,
                            delta_us <= 10_000_000,
                    ;
                }
                let new_position = self.character.keep_moving(position, self.data.speed, delta_us);
                pos_now = new_position;
                if self.character.destination.is_none() {
                    self.movement_state = PlayerMovementState::Idle;
                }
            },
        }
        proof {
            let r1 = movement_logic_spec(*old(self), position, delta_us, m0);
            assert(*self == r1.0 && pos_now == r1.1);
        }
        match self.reservation_state {
            PlayerReservationState::Inactive => {},
            PlayerReservationState::ReserveLocation => {
                self.reserve_current_tile(pos_now, board);
                self.reservation_state = PlayerReservationState::Inactive;
            },
            PlayerReservationState::ReserveDestination => {
                self.reserve_facing_tile(pos_now, board);
                self.unreserve_current_tile(pos_now, board);
                self.reservation_state = PlayerReservationState::Inactive;
            },
        }
        pos_now
    }

    /// Claims the cell one step ahead in the current facing: the first
    /// half of the two-phase commit.
    fn reserve_facing_tile(&mut self, position: WorldPos, board: &mut TileMapManager)
        requires
            old(board).wf(),
            -COORD_LIMIT + TILE_WIDTH_FP <= position.x <= COORD_LIMIT - TILE_WIDTH_FP,
            -COORD_LIMIT + TILE_WIDTH_FP <= position.y <= COORD_LIMIT - TILE_WIDTH_FP,
        ensures
            final(board).wf(),
            *final(self) == *old(self),
            ({
                let c = step_cell(old(self).character.facing, position);
                final(board).model() == (if reserve_allowed(old(board).model(), c) {
                    reserve_step(old(board).model(), old(self).id, c)
                } else {
                    old(board).model()
                })
            }),
    {
        let gridpos = self.character.calculate_movement_grid(position);
        let _ = board.request_reserve(self.id, gridpos);
    }

    /// Claims the cell currently stood on: the spawn reservation.
    fn reserve_current_tile(&mut self, position: WorldPos, board: &mut TileMapManager)
        requires
            old(board).wf(),
            pos_in_range(position),
        ensures
            final(board).wf(),
            *final(self) == *old(self),
            ({
                let c = pos_cell(position);
                final(board).model() == (if reserve_allowed(old(board).model(), c) {
                    reserve_step(old(board).model(), old(self).id, c)
                } else {
                    old(board).model()
                })
            }),
    {
        let gridpos = crate::grid::global_to_grid(position);
        let _ = board.request_reserve(self.id, gridpos);
    }

    /// Releases the cell currently stood on: the second half of the
    /// two-phase commit, run only after the destination is claimed.
    fn unreserve_current_tile(&mut self, position: WorldPos, board: &mut TileMapManager)
        requires
            old(board).wf(),
            pos_in_range(position),
        ensures
            final(board).wf(),
            *final(self) == *old(self),
            final(board).model()
                == release_step(old(board).model(), old(self).id, pos_cell(position)),
    {
        let gridpos = crate::grid::global_to_grid(position);
        board.release(self.id, gridpos);
    }
}

} // verus!
