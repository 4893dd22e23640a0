use isogame::control::{health_color, HealthBar};
use isogame::grid::{GridCell, WorldPos};
use isogame::player::{Player, PlayerMovementState, PlayerReservationState};
use isogame::tilemap_manager::TileMapManager;
use isogame::util::IsometricFacing;
use isogame::wolf::{Wolf, WolfMovementState, BITE_DAMAGE};

const TICK_US: u32 = 16_667;

fn cell(col: i32, row: i32) -> GridCell {
    GridCell { col, row }
}

#[test]
fn turn_before_you_walk() {
    let mut p = Player::new(1);
    p.handle_input(Some(IsometricFacing::NW));
    assert_eq!(p.character.facing, IsometricFacing::NW);
    assert_eq!(p.movement_state, PlayerMovementState::Idle);

    // An intent in a new direction only turns the player for that tick:
    // no movement commit, no reservation attempted.
    p.input_delay = 0;
    p.handle_input(Some(IsometricFacing::SW));
    assert_eq!(p.character.facing, IsometricFacing::SW);
    assert_eq!(p.movement_state, PlayerMovementState::Idle);
    assert_eq!(p.reservation_state, PlayerReservationState::ReserveLocation);

    // The same intent on a later tick, with the facing already matching,
    // commits to movement.
    p.input_delay = 0;
    p.handle_input(Some(IsometricFacing::SW));
    assert_eq!(p.character.facing, IsometricFacing::SW);
    assert_eq!(p.movement_state, PlayerMovementState::StartMoving);
}

#[test]
fn input_delay_counts_down_before_input_is_read() {
    let mut p = Player::new(1);
    p.input_delay = 30_000;
    p.process(TICK_US, Some(IsometricFacing::NE));
    // The delay absorbed this tick; the intent was not applied.
    assert_eq!(p.input_delay, 30_000 - TICK_US as i64);
    assert_eq!(p.character.facing, IsometricFacing::SW);
    // The remaining delay absorbs one more tick.
    p.process(TICK_US, Some(IsometricFacing::NE));
    assert_eq!(p.character.facing, IsometricFacing::SW);
    // Now the delay has lapsed and the intent turns the player.
    p.process(TICK_US, Some(IsometricFacing::NE));
    assert_eq!(p.character.facing, IsometricFacing::NE);
}

#[test]
fn a_full_movement_cycle_keeps_the_ledger_consistent() {
    let mut board = TileMapManager::new();
    let mut p = Player::new(1);
    p.character.set_nav_ready();
    let origin = cell(0, 0);
    let target = cell(1, 0);
    let mut pos = WorldPos { x: 0, y: 0 };

    // The first physics tick consumes the spawn reservation.
    pos = p.physics_process(pos, TICK_US, &mut board);
    assert!(board.is_blocked(origin));

    // Commit to a move: the destination is claimed, the origin released.
    p.character.facing = IsometricFacing::SE;
    p.movement_state = PlayerMovementState::StartMoving;
    pos = p.physics_process(pos, TICK_US, &mut board);
    assert_eq!(p.movement_state, PlayerMovementState::Moving);
    assert!(board.is_blocked(target));
    assert!(!board.is_blocked(origin));

    // Movement ticks until the player snaps exactly onto the target cell.
    let mut ticks = 0;
    while p.movement_state == PlayerMovementState::Moving {
        pos = p.physics_process(pos, TICK_US, &mut board);
        ticks += 1;
        assert!(ticks < 100, "the player never arrived");
    }
    assert_eq!(pos, WorldPos { x: 4096, y: 2048 });
    assert_eq!(p.movement_state, PlayerMovementState::Idle);
    // The player still holds its destination cell and nothing else.
    assert!(board.is_blocked(target));
    assert!(!board.is_blocked(origin));
}

#[test]
fn contended_cell_goes_to_the_first_actor() {
    // Two actors on cells adjacent to the same free cell both try to
    // claim it in one tick, in scheduler order: the first succeeds, the
    // second is refused and falls back to idle.
    let mut board = TileMapManager::new();
    let contested = cell(1, 0);

    let mut a = Player::new(1);
    a.character.set_nav_ready();
    a.character.facing = IsometricFacing::SE; // (0,0) -> (1,0)
    a.reservation_state = PlayerReservationState::Inactive;
    let pos_a = WorldPos { x: 0, y: 0 };

    let mut b = Player::new(2);
    b.character.set_nav_ready();
    b.character.facing = IsometricFacing::NE; // (1,1) -> (1,0)
    b.reservation_state = PlayerReservationState::Inactive;
    let pos_b = WorldPos { x: 0, y: 4096 };

    a.movement_state = PlayerMovementState::StartMoving;
    b.movement_state = PlayerMovementState::StartMoving;

    a.physics_process(pos_a, TICK_US, &mut board);
    assert_eq!(a.movement_state, PlayerMovementState::Moving);
    assert!(board.is_blocked(contested));

    b.physics_process(pos_b, TICK_US, &mut board);
    assert_eq!(b.movement_state, PlayerMovementState::Idle);
    assert_eq!(b.character.destination, None);
    // The refused claim altered nothing: the cell stays held by the first.
    assert!(board.is_blocked(contested));
}

#[test]
fn bite_lands_only_on_a_target_that_stayed() {
    let mut board = TileMapManager::new();
    let mut w = Wolf::new(3);
    w.character.set_nav_ready();
    w.character.facing = IsometricFacing::SE;
    w.movement_state = WolfMovementState::Bite;
    w.reservation_state = isogame::wolf::WolfReservationState::Inactive;
    let pos = WorldPos { x: 0, y: 0 };

    // The strike window is still open: nothing happens yet.
    let (_, hit) = w.physics_process(pos, TICK_US, &mut board, false, Some(cell(1, 0)));
    assert!(!hit);
    assert_eq!(w.movement_state, WolfMovementState::Bite);

    // The window closes with the target still on the faced cell: a hit.
    let (_, hit) = w.physics_process(pos, TICK_US, &mut board, true, Some(cell(1, 0)));
    assert!(hit);
    assert_eq!(w.movement_state, WolfMovementState::Idle);
}

#[test]
fn bite_misses_a_target_that_fled() {
    let mut board = TileMapManager::new();
    let mut w = Wolf::new(3);
    w.character.set_nav_ready();
    w.character.facing = IsometricFacing::SE;
    w.movement_state = WolfMovementState::Bite;
    w.reservation_state = isogame::wolf::WolfReservationState::Inactive;
    let pos = WorldPos { x: 0, y: 0 };

    let (_, hit) = w.physics_process(pos, TICK_US, &mut board, true, Some(cell(2, 0)));
    assert!(!hit);
    assert_eq!(w.movement_state, WolfMovementState::Idle);

    // No target at all when the window closes: no phantom hit either.
    w.movement_state = WolfMovementState::Bite;
    let (_, hit) = w.physics_process(pos, TICK_US, &mut board, true, None);
    assert!(!hit);
}

#[test]
fn damage_reduces_health_until_death() {
    let mut p = Player::new(1);
    assert!(!p.is_dead());
    p.damage(BITE_DAMAGE);
    assert_eq!(p.data.health, 95);
    for _ in 0..19 {
        p.damage(BITE_DAMAGE);
    }
    assert_eq!(p.data.health, 0);
    assert!(p.is_dead());
}

#[test]
fn health_bar_visibility_window() {
    let mut h = HealthBar::new();
    h.update(40);
    assert_eq!(h.value, 40);
    assert_eq!(h.timer_us, 3_000_000);
    let hide = h.process(1_000_000);
    assert!(!hide);
    let hide = h.process(1_999_999);
    assert!(!hide);
    // The countdown saturates at zero and the bar hides.
    let hide = h.process(2_000_000);
    assert!(hide);
    assert_eq!(h.timer_us, 0);
}

#[test]
fn health_colors_by_thirds() {
    assert_eq!(health_color(0), (255, 0, 0));
    assert_eq!(health_color(32), (255, 0, 0));
    assert_eq!(health_color(33), (255, 255, 0));
    assert_eq!(health_color(65), (255, 255, 0));
    assert_eq!(health_color(66), (0, 255, 0));
    assert_eq!(health_color(100), (0, 255, 0));
}
