use isogame::grid::GridCell;
use isogame::tilemap_manager::TileMapManager;

const C: GridCell = GridCell { col: 3, row: -2 };

#[test]
fn reserve_succeeds_on_free_cell() {
    let mut board = TileMapManager::new();
    assert!(!board.is_blocked(C));
    assert!(board.request_reserve(1, C));
    assert!(board.is_blocked(C));
}

#[test]
fn reservation_is_exclusive() {
    let mut board = TileMapManager::new();
    assert!(board.request_reserve(1, C));
    // A second claim on the same cell fails — for another actor and even
    // for the holder itself — and changes nothing.
    assert!(!board.request_reserve(2, C));
    assert!(!board.request_reserve(1, C));
    assert!(board.is_blocked(C));
    // Once the holder releases, the cell can be claimed again.
    board.release(1, C);
    assert!(!board.is_blocked(C));
    assert!(board.request_reserve(2, C));
}

#[test]
fn release_by_non_holder_is_a_no_op() {
    let mut board = TileMapManager::new();
    assert!(board.request_reserve(1, C));
    board.release(2, C);
    assert!(board.is_blocked(C));
}

#[test]
fn release_is_idempotent() {
    let mut board = TileMapManager::new();
    assert!(board.request_reserve(1, C));
    board.release(1, C);
    assert!(!board.is_blocked(C));
    // Releasing again, or releasing a cell never reserved, is harmless.
    board.release(1, C);
    assert!(!board.is_blocked(C));
    board.release(1, GridCell { col: 9, row: 9 });
    assert!(!board.is_blocked(GridCell { col: 9, row: 9 }));
}

#[test]
fn static_obstacles_block_and_stay() {
    let mut board = TileMapManager::new();
    board.mark_static(C);
    assert!(board.is_blocked(C));
    assert!(!board.request_reserve(1, C));
    // No actor holds a static obstacle, so a release cannot unblock it.
    board.release(1, C);
    assert!(board.is_blocked(C));
}

#[test]
fn update_pathfinding_marks_every_tile() {
    let mut board = TileMapManager::new();
    let tiles = vec![
        GridCell { col: 0, row: 0 },
        GridCell { col: 1, row: 0 },
        GridCell { col: 0, row: 0 }, // duplicates are harmless
        GridCell { col: -4, row: 7 },
    ];
    board.update_pathfinding(&tiles);
    assert!(board.is_blocked(GridCell { col: 0, row: 0 }));
    assert!(board.is_blocked(GridCell { col: 1, row: 0 }));
    assert!(board.is_blocked(GridCell { col: -4, row: 7 }));
    assert!(!board.is_blocked(GridCell { col: 2, row: 2 }));
}
