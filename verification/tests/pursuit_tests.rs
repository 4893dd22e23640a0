use isogame::grid::{GridCell, WorldPos};
use isogame::util::{IsometricFacing, PathfindingResult};
use isogame::wolf::{get_surrounding_cells, Wolf, WolfAnimationState, WolfMovementState};

fn cell(col: i32, row: i32) -> GridCell {
    GridCell { col, row }
}

#[test]
fn surrounding_cells_come_in_fixed_order() {
    let n = get_surrounding_cells(cell(0, 0));
    assert_eq!(n, vec![cell(1, 0), cell(0, 1), cell(-1, 0), cell(0, -1)]);
}

#[test]
fn no_target_or_no_nav_means_no_path() {
    let mut w = Wolf::new(7);
    let pos = WorldPos { x: 0, y: 0 };
    let paths: Vec<Vec<GridCell>> = vec![vec![cell(0, 0), cell(1, 0)]];
    // Without navigation data the policy always reports no path.
    assert_eq!(w.find_path(pos, Some(cell(1, 0)), &paths), PathfindingResult::NoPath);
    w.character.set_nav_ready();
    assert_eq!(w.find_path(pos, None, &paths), PathfindingResult::NoPath);
}

#[test]
fn adjacent_target_is_reached_never_pursued() {
    let mut w = Wolf::new(7);
    w.character.set_nav_ready();
    let pos = WorldPos { x: 0, y: 0 };
    // Even with usable search results on offer, adjacency wins.
    let paths = vec![vec![cell(0, 0), cell(1, 0), cell(2, 0)]];
    for t in [cell(1, 0), cell(0, 1), cell(-1, 0), cell(0, -1)] {
        assert_eq!(
            w.find_path(pos, Some(t), &paths),
            PathfindingResult::ReachedTarget(t)
        );
    }
}

#[test]
fn pursuit_is_deterministic() {
    let mut w = Wolf::new(7);
    w.character.set_nav_ready();
    let pos = WorldPos { x: 0, y: 0 };
    let paths = vec![
        vec![cell(0, 0)],
        vec![cell(0, 0), cell(0, 1), cell(1, 1)],
    ];
    let first = w.find_path(pos, Some(cell(2, 2)), &paths);
    for _ in 0..10 {
        assert_eq!(w.find_path(pos, Some(cell(2, 2)), &paths), first);
    }
}

#[test]
fn first_usable_path_wins_in_enumeration_order() {
    let mut w = Wolf::new(7);
    w.character.set_nav_ready();
    let pos = WorldPos { x: 0, y: 0 };
    // The first search found nothing useful; the second decides.
    let paths = vec![
        vec![cell(0, 0)],
        vec![cell(0, 0), cell(0, 1), cell(1, 1), cell(2, 1)],
        vec![cell(0, 0), cell(1, 0)],
    ];
    assert_eq!(
        w.find_path(pos, Some(cell(2, 2)), &paths),
        PathfindingResult::FoundPath(cell(0, 1))
    );
    // No usable search at all: give up.
    let dead_ends: Vec<Vec<GridCell>> = vec![vec![], vec![cell(0, 0)], vec![], vec![]];
    assert_eq!(
        w.find_path(pos, Some(cell(2, 2)), &dead_ends),
        PathfindingResult::NoPath
    );
}

#[test]
fn pursuit_across_an_open_field() {
    // Tile width 32 world units, pursuer at grid (0,0), target at grid
    // (2,0), nothing blocked. The searches run toward the target's four
    // approach cells in enumeration order: (3,0), (2,1), (1,0), (2,-1).
    let mut w = Wolf::new(7);
    w.character.set_nav_ready();
    let pos = WorldPos { x: 0, y: 0 };
    let paths = vec![
        vec![cell(0, 0), cell(1, 0), cell(2, 0), cell(3, 0)],
        vec![cell(0, 0), cell(1, 0), cell(1, 1), cell(2, 1)],
        vec![cell(0, 0), cell(1, 0)],
        vec![cell(0, 0), cell(1, 0), cell(1, -1), cell(2, -1)],
    ];
    let r = w.find_path(pos, Some(cell(2, 0)), &paths);
    assert_eq!(r, PathfindingResult::FoundPath(cell(1, 0)));
    // The chosen step is adjacent to the pursuer's cell and lies on a
    // shortest path toward an approach cell of the target.
    let next = match r {
        PathfindingResult::FoundPath(c) => c,
        _ => unreachable!(),
    };
    assert!(get_surrounding_cells(cell(0, 0)).contains(&next));
}

#[test]
fn wolf_turns_before_it_walks() {
    let mut w = Wolf::new(7);
    w.character.set_nav_ready();
    let pos = WorldPos { x: 0, y: 0 };
    // A fresh wolf faces south-west; the path leads south-east.
    let paths = vec![vec![cell(0, 0), cell(1, 0), cell(1, 1), cell(2, 1)]];
    w.handle_pathfinding(pos, Some(cell(2, 2)), &paths);
    assert_eq!(w.character.facing, IsometricFacing::SE);
    assert_eq!(w.movement_state, WolfMovementState::Idle);
    // Facing already matches on the next decision: the wolf commits.
    w.handle_pathfinding(pos, Some(cell(2, 2)), &paths);
    assert_eq!(w.movement_state, WolfMovementState::StartMoving);
    assert_eq!(w.animation_state, WolfAnimationState::Walking);
}

#[test]
fn wolf_bites_an_adjacent_target() {
    let mut w = Wolf::new(7);
    w.character.set_nav_ready();
    let pos = WorldPos { x: 0, y: 0 };
    let paths: Vec<Vec<GridCell>> = Vec::new();
    w.handle_pathfinding(pos, Some(cell(0, 1)), &paths);
    assert_eq!(w.movement_state, WolfMovementState::Bite);
    assert_eq!(w.animation_state, WolfAnimationState::Bite);
    assert_eq!(w.character.facing, IsometricFacing::SW);
}
