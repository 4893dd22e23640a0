use isogame::grid::{global_to_grid, grid_to_global, lock_to_grid, GridCell, WorldPos};

#[test]
fn cell_anchor_positions() {
    let origin = grid_to_global(GridCell { col: 0, row: 0 });
    assert_eq!(origin, WorldPos { x: 0, y: 0 });

    // One column over: half a tile right, a quarter tile down.
    let se = grid_to_global(GridCell { col: 1, row: 0 });
    assert_eq!(se, WorldPos { x: 4096, y: 2048 });

    // One row over: half a tile left, a quarter tile down.
    let sw = grid_to_global(GridCell { col: 0, row: 1 });
    assert_eq!(sw, WorldPos { x: -4096, y: 2048 });

    let far = grid_to_global(GridCell { col: 2, row: 0 });
    assert_eq!(far, WorldPos { x: 8192, y: 4096 });

    let negative = grid_to_global(GridCell { col: -3, row: 2 });
    assert_eq!(negative, WorldPos { x: -5 * 4096, y: -2048 });
}

#[test]
fn round_trip_on_anchors() {
    let cells = [
        GridCell { col: 0, row: 0 },
        GridCell { col: 1, row: 0 },
        GridCell { col: 0, row: 1 },
        GridCell { col: -1, row: -1 },
        GridCell { col: 7, row: -3 },
        GridCell { col: -250, row: 1000 },
        GridCell { col: 2_000_000, row: -2_000_000 },
    ];
    for c in cells {
        let p = grid_to_global(c);
        assert_eq!(global_to_grid(p), c);
    }
}

#[test]
fn quantizes_to_nearest_anchor() {
    // Points near the origin anchor stay in its cell.
    assert_eq!(global_to_grid(WorldPos { x: 100, y: 50 }), GridCell { col: 0, row: 0 });
    assert_eq!(global_to_grid(WorldPos { x: -100, y: -50 }), GridCell { col: 0, row: 0 });

    // Just inside the diamond edge along x.
    assert_eq!(global_to_grid(WorldPos { x: 4095, y: 0 }), GridCell { col: 0, row: 0 });

    // Past the diamond edge the neighboring cells begin.
    assert_eq!(global_to_grid(WorldPos { x: 4097, y: 0 }), GridCell { col: 1, row: -1 });

    // Halfway toward the south-east neighbor's anchor, past the edge.
    assert_eq!(global_to_grid(WorldPos { x: 3000, y: 1500 }), GridCell { col: 1, row: 0 });
}

#[test]
fn lock_to_grid_snaps_to_anchor() {
    assert_eq!(lock_to_grid(WorldPos { x: 100, y: 50 }), WorldPos { x: 0, y: 0 });
    assert_eq!(lock_to_grid(WorldPos { x: -5000, y: 1000 }), WorldPos { x: -4096, y: 2048 });
    // An anchor locks onto itself.
    assert_eq!(lock_to_grid(WorldPos { x: 8192, y: 4096 }), WorldPos { x: 8192, y: 4096 });
}
