use isogame::character::MovingCharacter;
use isogame::grid::{GridCell, WorldPos};
use isogame::tilemap_manager::TileMapManager;
use isogame::util::IsometricFacing;

// Sixty ticks per second, in microseconds.
const TICK_US: u32 = 16_667;
// The player's walking pace, in sub-units per second along the y axis.
const SPEED: u32 = 5120;

#[test]
fn try_moving_needs_navigation_data() {
    let mut c = MovingCharacter::new();
    let board = TileMapManager::new();
    assert!(!c.try_moving(WorldPos { x: 0, y: 0 }, &board));
    assert_eq!(c.destination, None);
}

#[test]
fn try_moving_commits_one_tile_ahead() {
    let mut c = MovingCharacter::new();
    c.set_nav_ready();
    c.facing = IsometricFacing::SE;
    let board = TileMapManager::new();
    assert!(c.try_moving(WorldPos { x: 0, y: 0 }, &board));
    assert_eq!(c.destination, Some(WorldPos { x: 4096, y: 2048 }));
}

#[test]
fn try_moving_respects_occupancy() {
    let mut c = MovingCharacter::new();
    c.set_nav_ready();
    c.facing = IsometricFacing::SE;
    let mut board = TileMapManager::new();
    board.mark_static(GridCell { col: 1, row: 0 });
    assert!(!c.try_moving(WorldPos { x: 0, y: 0 }, &board));
    assert_eq!(c.destination, None);
}

#[test]
fn keep_moving_interpolates_before_the_snap_radius() {
    let mut c = MovingCharacter::new();
    c.facing = IsometricFacing::SE;
    c.destination = Some(WorldPos { x: 4096, y: 2048 });
    // One tick at walking pace covers 85 sub-units along y, 170 along x.
    let p = c.keep_moving(WorldPos { x: 0, y: 0 }, SPEED, TICK_US);
    assert_eq!(p, WorldPos { x: 170, y: 85 });
    assert_eq!(c.destination, Some(WorldPos { x: 4096, y: 2048 }));
}

#[test]
fn arrival_snaps_exactly_onto_the_destination() {
    let mut c = MovingCharacter::new();
    c.facing = IsometricFacing::SE;
    let dest = WorldPos { x: 4096, y: 2048 };
    c.destination = Some(dest);
    let mut pos = WorldPos { x: 0, y: 0 };
    let mut ticks = 0;
    while c.destination.is_some() {
        pos = c.keep_moving(pos, SPEED, TICK_US);
        ticks += 1;
        assert!(ticks < 100, "the character never arrived");
    }
    // Exactly the destination — not merely within a tolerance.
    assert_eq!(pos, dest);
    assert_eq!(c.destination, None);
    // The facing is untouched by movement.
    assert_eq!(c.facing, IsometricFacing::SE);
}

#[test]
fn arrival_snap_from_every_direction() {
    let cases = [
        (IsometricFacing::NW, WorldPos { x: -4096, y: -2048 }),
        (IsometricFacing::NE, WorldPos { x: 4096, y: -2048 }),
        (IsometricFacing::SW, WorldPos { x: -4096, y: 2048 }),
        (IsometricFacing::SE, WorldPos { x: 4096, y: 2048 }),
    ];
    for (facing, dest) in cases {
        let mut c = MovingCharacter::new();
        c.facing = facing;
        c.destination = Some(dest);
        let mut pos = WorldPos { x: 0, y: 0 };
        let mut ticks = 0;
        while c.destination.is_some() {
            pos = c.keep_moving(pos, SPEED, TICK_US);
            ticks += 1;
            assert!(ticks < 100, "the character never arrived");
        }
        assert_eq!(pos, dest);
    }
}

#[test]
fn arrival_snap_from_a_partway_origin() {
    // An origin already partway along the step, on the movement line.
    let mut c = MovingCharacter::new();
    c.facing = IsometricFacing::SE;
    let dest = WorldPos { x: 4096, y: 2048 };
    c.destination = Some(dest);
    let mut pos = WorldPos { x: 2000, y: 1000 };
    let mut ticks = 0;
    while c.destination.is_some() {
        pos = c.keep_moving(pos, SPEED, TICK_US);
        ticks += 1;
        assert!(ticks < 100, "the character never arrived");
    }
    assert_eq!(pos, dest);
}

#[test]
fn face_tile_turns_toward_each_neighbor() {
    let mut c = MovingCharacter::new();
    let pos = WorldPos { x: 0, y: 0 };
    c.face_tile(pos, GridCell { col: 1, row: 0 });
    assert_eq!(c.facing, IsometricFacing::SE);
    c.face_tile(pos, GridCell { col: -1, row: 0 });
    assert_eq!(c.facing, IsometricFacing::NW);
    c.face_tile(pos, GridCell { col: 0, row: 1 });
    assert_eq!(c.facing, IsometricFacing::SW);
    c.face_tile(pos, GridCell { col: 0, row: -1 });
    assert_eq!(c.facing, IsometricFacing::NE);
}

#[test]
fn gridpos_of_a_moving_character() {
    let c = MovingCharacter::new();
    assert_eq!(
        c.get_gridpos(WorldPos { x: 8192, y: 4096 }),
        GridCell { col: 2, row: 0 }
    );
    let d = c.calculate_movement(WorldPos { x: 8192, y: 4096 });
    // Facing south-west by default: half a tile left, a quarter down.
    assert_eq!(d, WorldPos { x: 4096, y: 6144 });
    assert_eq!(
        c.calculate_movement_grid(WorldPos { x: 8192, y: 4096 }),
        GridCell { col: 2, row: 1 }
    );
}
