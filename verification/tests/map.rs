//! Tests of the level grid and the collider synthesizer.

use dungeon_rogue::map::CellKind;
use dungeon_rogue::map::CellPos;
use dungeon_rogue::map::LevelEvent;
use dungeon_rogue::map::LevelGrid;
use dungeon_rogue::map::MapError;
use dungeon_rogue::map::MergedCollider;
use dungeon_rogue::map::cell_kind_of_int;
use dungeon_rogue::map::ladder_cells;
use dungeon_rogue::map::pause_physics_during_map_load;
use dungeon_rogue::map::synthesize_colliders;

fn grid_from(width: usize, height: usize, solid: &[(usize, usize)]) -> LevelGrid {
    let mut g = LevelGrid::new(width, height, 16);
    for &(x, y) in solid {
        g.set_cell(x, y, CellKind::Solid);
    }
    g
}

/// A single row with a three-cell run and one empty cell merges into
/// exactly one collider spanning the run.
#[test]
fn one_row_one_collider() {
    let g = grid_from(4, 1, &[(0, 0), (1, 0), (2, 0)]);
    let out = synthesize_colliders(&g, 7);
    assert_eq!(out.len(), 1);
    let r = out[0];
    assert_eq!((r.left, r.right, r.top, r.bottom), (0, 2, 0, 0));
    assert_eq!(r.level_id, 7);
}

/// Two stacked rows with identical runs merge into one collider
/// spanning both rows, not two.
#[test]
fn stacked_rows_merge() {
    let g = grid_from(3, 2, &[(0, 0), (1, 0), (0, 1), (1, 1)]);
    let out = synthesize_colliders(&g, 1);
    assert_eq!(out.len(), 1);
    let r = out[0];
    assert_eq!((r.left, r.right, r.bottom, r.top), (0, 1, 0, 1));
}

/// Runs of different horizontal extent do not merge vertically.
#[test]
fn partial_overlap_stays_separate() {
    // Row 0 holds [0,2], row 1 holds [0,1]: different extents.
    let g = grid_from(4, 2, &[(0, 0), (1, 0), (2, 0), (0, 1), (1, 1)]);
    let out = synthesize_colliders(&g, 1);
    assert_eq!(out.len(), 2);
    // Every solid cell is covered exactly once.
    assert_covers_exactly(&out, &g);
}

fn covers(r: &MergedCollider, x: usize, y: usize) -> bool {
    r.left <= x && x <= r.right && r.bottom <= y && y <= r.top
}

fn assert_covers_exactly(out: &[MergedCollider], g: &LevelGrid) {
    for y in 0..g.height {
        for x in 0..g.width {
            let n = out.iter().filter(|r| covers(r, x, y)).count();
            if g.is_solid(x, y) {
                assert_eq!(n, 1, "cell ({x}, {y}) should be covered exactly once");
            } else {
                assert_eq!(n, 0, "cell ({x}, {y}) should not be covered");
            }
        }
    }
}

/// Coverage and disjointness on an irregular grid.
#[test]
fn irregular_grid_covered_exactly() {
    let g = grid_from(
        6,
        4,
        &[
            (0, 0),
            (1, 0),
            (2, 0),
            (4, 0),
            (0, 1),
            (1, 1),
            (2, 1),
            (4, 1),
            (5, 1),
            (2, 2),
            (3, 2),
            (0, 3),
            (2, 3),
            (3, 3),
        ],
    );
    let out = synthesize_colliders(&g, 1);
    assert_covers_exactly(&out, &g);
}

/// Running the synthesizer twice on an unchanged grid yields an
/// identical list, value for value and in the same order.
#[test]
fn synthesis_is_deterministic() {
    let g = grid_from(5, 3, &[(0, 0), (1, 0), (3, 0), (0, 1), (1, 1), (3, 1), (3, 2)]);
    let first = synthesize_colliders(&g, 9);
    let second = synthesize_colliders(&g, 9);
    assert_eq!(first, second);
}

/// An empty grid produces no colliders.
#[test]
fn empty_grid_no_colliders() {
    let g = LevelGrid::new(8, 8, 16);
    let out = synthesize_colliders(&g, 1);
    assert!(out.is_empty());
}

/// A run touching the right edge of the grid is still closed.
#[test]
fn run_touching_right_edge() {
    let g = grid_from(3, 1, &[(1, 0), (2, 0)]);
    let out = synthesize_colliders(&g, 1);
    assert_eq!(out.len(), 1);
    assert_eq!((out[0].left, out[0].right), (1, 2));
}

/// Ladder cells are listed one by one, in row-major order, and never
/// merged into colliders.
#[test]
fn ladders_are_per_cell() {
    let mut g = LevelGrid::new(3, 2, 16);
    g.set_cell(2, 0, CellKind::Ladder);
    g.set_cell(0, 1, CellKind::Ladder);
    g.set_cell(1, 0, CellKind::Solid);
    let ladders = ladder_cells(&g);
    assert_eq!(ladders, vec![CellPos { x: 2, y: 0 }, CellPos { x: 0, y: 1 }]);
    let out = synthesize_colliders(&g, 1);
    assert_eq!(out.len(), 1);
    assert_eq!((out[0].left, out[0].right), (1, 1));
}

/// A level without rows is rejected as a missing layer, ragged rows as
/// malformed; a well-formed level is accepted.
#[test]
fn from_rows_validates() {
    assert_eq!(
        LevelGrid::from_rows(Vec::new(), 16).unwrap_err(),
        MapError::MissingLayer
    );
    let ragged = vec![vec![CellKind::Empty, CellKind::Empty], vec![CellKind::Empty]];
    assert_eq!(LevelGrid::from_rows(ragged, 16).unwrap_err(), MapError::RaggedRows);
    let ok = vec![vec![CellKind::Empty, CellKind::Solid], vec![CellKind::Ladder, CellKind::Empty]];
    let g = LevelGrid::from_rows(ok, 16).unwrap();
    assert_eq!((g.width, g.height), (2, 2));
}

/// Grid-unit colliders translate to world units by the cell size.
#[test]
fn world_translation_scales_by_cell_size() {
    let r = MergedCollider { left: 1, right: 2, bottom: 0, top: 1, level_id: 1 };
    let w = r.to_world(16);
    assert_eq!((w.left, w.right, w.bottom, w.top), (16, 48, 0, 32));
}

/// Integer grid values map to cell kinds; an unknown value is a named
/// error.
#[test]
fn int_grid_values_map_to_kinds() {
    assert_eq!(cell_kind_of_int(1).unwrap(), CellKind::Solid);
    assert_eq!(cell_kind_of_int(2).unwrap(), CellKind::Ladder);
    assert_eq!(cell_kind_of_int(3).unwrap(), CellKind::Solid);
    assert_eq!(cell_kind_of_int(0).unwrap_err(), MapError::UnknownValue);
    assert_eq!(cell_kind_of_int(4).unwrap_err(), MapError::UnknownValue);
}

/// Physics pauses while a level spawns and resumes once it stands; the
/// last spawn or transform notification of a tick decides.
#[test]
fn physics_pauses_during_map_load() {
    assert_eq!(
        pause_physics_during_map_load(&vec![LevelEvent::SpawnTriggered]),
        Some(false)
    );
    assert_eq!(
        pause_physics_during_map_load(&vec![LevelEvent::SpawnTriggered, LevelEvent::Transformed]),
        Some(true)
    );
    assert_eq!(
        pause_physics_during_map_load(&vec![LevelEvent::Transformed, LevelEvent::SpawnTriggered]),
        Some(false)
    );
    assert_eq!(
        pause_physics_during_map_load(&vec![LevelEvent::Transformed, LevelEvent::Other]),
        Some(true)
    );
    assert_eq!(pause_physics_during_map_load(&vec![LevelEvent::Other]), None);
    assert_eq!(pause_physics_during_map_load(&Vec::new()), None);
}
