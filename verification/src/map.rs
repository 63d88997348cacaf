//! The level grid and the collider synthesizer.
//!
//! A level is an immutable grid of cells, each solid, ladder or empty.
//! The synthesizer turns the solid cells into a list of merged
//! rectangular colliders: maximal horizontal runs (plates) per row,
//! stacked into rectangles wherever vertically adjacent rows hold runs
//! with exactly the same horizontal extent.  The union of the rectangles
//! covers exactly the solid cells, no two rectangles overlap, and the
//! output is a function of the grid alone, in row-major order.

use vstd::prelude::*;

verus! {

/// The classification of one grid cell.
#[derive(Debug, Clone, Copy, Eq, PartialEq, Structural)]
pub enum CellKind {
    /// A solid wall cell; becomes part of a merged collider.
    Solid,
    /// A ladder cell; becomes a per-cell sensor, never merged.
    Ladder,
    /// Nothing.
    Empty,
}

/// Marks a wall tile.
#[derive(Debug, Clone, Copy, Eq, PartialEq, Structural, Default)]
pub struct Wall;

/// Marks a merged wall collider handed to the physics engine.
#[derive(Debug, Clone, Copy)]
pub struct WallCollision;

/// A malformed level description, rejected at load time.
#[derive(Debug, Clone, Copy, Eq, PartialEq, Structural)]
pub enum MapError {
    /// The level holds no rows at all: the required layer is missing.
    MissingLayer,
    /// The rows do not all have the same width.
    RaggedRows,
    /// An integer grid value no cell kind is known for.
    UnknownValue,
}

/// An immutable level description: dimensions, cell size, and one
/// classification per cell, in row-major order.
#[derive(Debug, Clone)]
pub struct LevelGrid {
    /// Number of columns.
    pub width: usize,
    /// Number of rows.
    pub height: usize,
    /// World units per cell edge.
    pub cell_size: usize,
    /// The cells; `rows[y][x]` is the cell in column `x` of row `y`.
    pub rows: Vec<Vec<CellKind>>,
}

impl LevelGrid {
    /// The stored rows match the stated dimensions.
    pub open spec fn wf(self) -> bool {
        &&& self.rows@.len() == self.height
        &&& forall|y: int| 0 <= y < self.rows@.len() ==> (#[trigger] self.rows@[y])@.len()
            == self.width
    }

    /// The classification of the cell at `(x, y)`.
    pub open spec fn kind_at(self, x: int, y: int) -> CellKind
        recommends
            0 <= x < self.width,
            0 <= y < self.height,
    {
        self.rows@[y]@[x]
    }

    /// Whether the cell at `(x, y)` is inside the grid and solid.
    pub open spec fn solid_at(self, x: int, y: int) -> bool {
        &&& 0 <= x < self.width
        &&& 0 <= y < self.height
        &&& self.kind_at(x, y) == CellKind::Solid
    }

    /// A grid of the given dimensions with every cell empty.
    pub fn new(width: usize, height: usize, cell_size: usize) -> (r: LevelGrid)
        ensures
            r.wf(),
            r.width == width,
            r.height == height,
            r.cell_size == cell_size,
            forall|x: int, y: int| !r.solid_at(x, y),
    {
        let mut rows: Vec<Vec<CellKind>> = Vec::new();
        let mut y: usize = 0;
        while y < height
            invariant
                y <= height,
                rows@.len() == y,
                forall|yy: int| 0 <= yy < y ==> (#[trigger] rows@[yy])@.len() == width,
                forall|yy: int, x: int|
                    0 <= yy < y && 0 <= x < width ==> #[trigger] rows@[yy]@[x] == CellKind::Empty,
            decreases height - y,
        {
            let mut row: Vec<CellKind> = Vec::new();
            let mut x: usize = 0;
            while x < width
                invariant
                    x <= width,
                    row@.len() == x,
                    forall|k: int| 0 <= k < x ==> row@[k] == CellKind::Empty,
                decreases width - x,
            {
                row.push(CellKind::Empty);
                x += 1;
            }
            rows.push(row);
            y += 1;
        }
        LevelGrid { width, height, cell_size, rows }
    }

    /// Writes the classification of one cell.
    pub fn set_cell(&mut self, x: usize, y: usize, kind: CellKind)
        requires
            old(self).wf(),
            x < old(self).width,
            y < old(self).height,
        ensures
            final(self).wf(),
            final(self).width == old(self).width,
            final(self).height == old(self).height,
            final(self).cell_size == old(self).cell_size,
            final(self).kind_at(x as int, y as int) == kind,
            forall|xx: int, yy: int|
                0 <= xx < old(self).width && 0 <= yy < old(self).height && !(xx == x && yy == y)
                    ==> final(self).kind_at(xx, yy) == old(self).kind_at(xx, yy),
    {
        self.rows[y][x] = kind;
        proof {
            assert(self.wf());
            assert forall|xx: int, yy: int|
                0 <= xx < old(self).width && 0 <= yy < old(self).height && !(xx == x && yy == y)
                    implies self.kind_at(xx, yy) == old(self).kind_at(xx, yy) by {
                if yy == y as int {
                    assert(self.rows@[yy]@ == old(self).rows@[yy]@.update(x as int, kind));
                }
            }
        }
    }

    /// Builds a grid from explicit rows.  An empty list of rows is a
    /// missing layer; rows of unequal widths are ragged.  Succeeds if and
    /// only if there is at least one row and all rows have one width.
    pub fn from_rows(rows: Vec<Vec<CellKind>>, cell_size: usize) -> (r: Result<LevelGrid, MapError>)
        ensures
            rows@.len() == 0 ==> r == Err::<LevelGrid, MapError>(MapError::MissingLayer),
            rows@.len() > 0 && (exists|y: int|
                0 <= y < rows@.len() && (#[trigger] rows@[y])@.len() != rows@[0]@.len()) ==> r
                == Err::<LevelGrid, MapError>(MapError::RaggedRows),
            rows@.len() > 0 && (forall|y: int|
                0 <= y < rows@.len() ==> (#[trigger] rows@[y])@.len() == rows@[0]@.len()) ==> (
            r matches Ok(g) && g.wf() && g.width == rows@[0]@.len() && g.height == rows@.len()
                && g.cell_size == cell_size && g.rows == rows),
    {
        if rows.len() == 0 {
            return Err(MapError::MissingLayer);
        }
        let width = rows[0].len();
        let mut y: usize = 1;
        while y < rows.len()
            invariant
                1 <= y <= rows@.len(),
                width == rows@[0]@.len(),
                forall|k: int| 0 <= k < y ==> (#[trigger] rows@[k])@.len() == width,
            decreases rows@.len() - y,
        {
            if rows[y].len() != width {
                return Err(MapError::RaggedRows);
            }
            y += 1;
        }
        let height = rows.len();
        Ok(LevelGrid { width, height, cell_size, rows })
    }

    /// Reads one cell's classification.
    pub fn cell_kind(&self, x: usize, y: usize) -> (r: CellKind)
        requires
            self.wf(),
            x < self.width,
            y < self.height,
        ensures
            r == self.kind_at(x as int, y as int),
    {
        self.rows[y][x]
    }

    /// Whether the cell at `(x, y)` is inside the grid and solid.
    pub fn is_solid(&self, x: usize, y: usize) -> (r: bool)
        requires
            self.wf(),
        ensures
            r == self.solid_at(x as int, y as int),
    {
        if x < self.width && y < self.height {
            match self.rows[y][x] {
                CellKind::Solid => true,
                _ => false,
            }
        } else {
            false
        }
    }
}

/// A maximal horizontal run of solid cells within one row.
#[derive(Debug, Clone, Copy, Eq, PartialEq, Structural)]
pub struct Plate {
    /// Leftmost column of the run.
    pub left: usize,
    /// Rightmost column of the run (inclusive).
    pub right: usize,
}

/// `p` is a maximal solid run of row `y`: every cell of `[left, right]`
/// is solid and the cells on either side are not.
pub open spec fn plate_valid(g: LevelGrid, p: Plate, y: int) -> bool {
    &&& p.left <= p.right < g.width
    &&& forall|x: int| p.left <= x <= p.right ==> g.solid_at(x, y)
    &&& !g.solid_at(p.left - 1, y)
    &&& !g.solid_at(p.right + 1, y)
}

/// Two maximal runs of one row that overlap are the same run.
pub proof fn lemma_plate_unique(g: LevelGrid, p1: Plate, p2: Plate, y: int)
    requires
        plate_valid(g, p1, y),
        plate_valid(g, p2, y),
        p1.left <= p2.right,
        p2.left <= p1.right,
    ensures
        p1 == p2,
{
    if p1.left < p2.left {
        assert(g.solid_at(p2.left - 1, y));
        assert(false);
    }
    if p2.left < p1.left {
        assert(g.solid_at(p1.left - 1, y));
        assert(false);
    }
    if p1.right < p2.right {
        assert(g.solid_at(p1.right + 1, y));
        assert(false);
    }
    if p2.right < p1.right {
        assert(g.solid_at(p2.right + 1, y));
        assert(false);
    }
}

/// The plates of row `y` from column `x` on, given the start of the
/// currently open run, if one is open.  Column `width` acts as one empty
/// sentinel cell, so a run touching the right edge is closed.
pub open spec fn scan_plates(g: LevelGrid, y: int, x: int, open_run: Option<usize>) -> Seq<Plate>
    decreases g.width + 1 - x,
{
    if x > g.width {
        Seq::empty()
    } else {
        let solid = g.solid_at(x, y);
        match open_run {
            Some(s) => if !solid {
                seq![Plate { left: s, right: (x - 1) as usize }] + scan_plates(g, y, x + 1, None)
            } else {
                scan_plates(g, y, x + 1, open_run)
            },
            None => if solid {
                scan_plates(g, y, x + 1, Some(x as usize))
            } else {
                scan_plates(g, y, x + 1, None)
            },
        }
    }
}

/// The plates of row `y`, left to right.
pub open spec fn row_plates_spec(g: LevelGrid, y: int) -> Seq<Plate> {
    scan_plates(g, y, 0, None)
}

/// Scans one row and returns its maximal solid runs, left to right.
pub fn row_plates(g: &LevelGrid, y: usize) -> (r: Vec<Plate>)
    requires
        g.wf(),
        g.width < usize::MAX,
        y < g.height,
    ensures
        r@ == row_plates_spec(*g, y as int),
        forall|i: int| 0 <= i < r@.len() ==> plate_valid(*g, #[trigger] r@[i], y as int),
        forall|i: int, j: int| 0 <= i < j < r@.len() ==> r@[i].right < r@[j].left,
        forall|x: int|
            (*g).solid_at(x, y as int) ==> exists|i: int|
                0 <= i < r@.len() && (#[trigger] r@[i]).left <= x <= r@[i].right,
        forall|p: Plate| plate_valid(*g, p, y as int) ==> r@.contains(p),
{
    let ghost yy = y as int;
    let mut plates: Vec<Plate> = Vec::new();
    let mut open_run: Option<usize> = None;
    let mut x: usize = 0;
    while x <= g.width
        invariant
            g.wf(),
            g.width < usize::MAX,
            y < g.height,
            yy == y as int,
            x <= g.width + 1,
            row_plates_spec(*g, yy) == plates@ + scan_plates(*g, yy, x as int, open_run),
            forall|i: int| 0 <= i < plates@.len() ==> plate_valid(*g, #[trigger] plates@[i], yy),
            forall|i: int, j: int| 0 <= i < j < plates@.len() ==> plates@[i].right < plates@[j].left,
            open_run matches Some(s) ==> (s < x && (forall|x2: int|
                s <= x2 < x ==> (*g).solid_at(x2, yy)) && !(*g).solid_at(s - 1, yy) && (forall|i: int|
                0 <= i < plates@.len() ==> (#[trigger] plates@[i]).right < s)),
            open_run is None ==> !(*g).solid_at(x - 1, yy),
            open_run is None ==> forall|i: int|
                0 <= i < plates@.len() ==> (#[trigger] plates@[i]).right < x,
            forall|x2: int|
                0 <= x2 < x && (*g).solid_at(x2, yy) ==> ((exists|i: int|
                    0 <= i < plates@.len() && (#[trigger] plates@[i]).left <= x2
                        <= plates@[i].right) || (open_run matches Some(s) && s <= x2)),
        decreases g.width + 1 - x,
    {
        let solid = g.is_solid(x, y);
        match open_run {
            Some(s) => {
                if !solid {
                    let p = Plate { left: s, right: x - 1 };
                    let ghost plates0 = plates@;
                    proof {
                        assert(plate_valid(*g, p, yy));
                        assert(scan_plates(*g, yy, x as int, open_run) == seq![p] + scan_plates(
                            *g,
                            yy,
                            x as int + 1,
                            None,
                        ));
                        assert(plates0 + scan_plates(*g, yy, x as int, open_run) == (plates0.push(
                            p,
                        )) + scan_plates(*g, yy, x as int + 1, None)) by {
                            assert(plates0 + (seq![p] + scan_plates(*g, yy, x as int + 1, None))
                                =~= (plates0.push(p)) + scan_plates(*g, yy, x as int + 1, None));
                        }
                    }
                    plates.push(p);
                    open_run = None;
                    proof {
                        assert forall|x2: int|
                            0 <= x2 < x as int + 1 && (*g).solid_at(x2, yy) implies (exists|i: int|
                            0 <= i < plates@.len() && (#[trigger] plates@[i]).left <= x2
                                <= plates@[i].right) by {
                            if s as int <= x2 {
                                assert(x2 < x as int);
                                let w = plates@.len() - 1;
                                assert(plates@[w] == p);
                                assert(plates@[w].left <= x2 <= plates@[w].right);
                            } else {
                                let i = choose|i: int|
                                    0 <= i < plates0.len() && (#[trigger] plates0[i]).left <= x2
                                        <= plates0[i].right;
                                assert(plates@[i].left <= x2 <= plates@[i].right);
                            }
                        }
                    }
                }
            },
            None => {
                if solid {
                    open_run = Some(x);
                }
            },
        }
        x += 1;
    }
    proof {
        if open_run is Some {
            let s = open_run->0;
            assert((*g).solid_at(g.width as int, yy));
            assert(false);
        }
        assert(scan_plates(*g, yy, x as int, open_run) =~= Seq::<Plate>::empty());
        assert(plates@ + Seq::<Plate>::empty() =~= plates@);
        assert forall|p: Plate| plate_valid(*g, p, yy) implies plates@.contains(p) by {
            assert((*g).solid_at(p.left as int, yy));
            let i = choose|i: int|
                0 <= i < plates@.len() && (#[trigger] plates@[i]).left <= p.left as int
                    <= plates@[i].right;
            lemma_plate_unique(*g, p, plates@[i], yy);
            assert(plates@[i] == p);
        }
    }
    plates
}

/// A rectangle of solid cells, in grid units: one or more vertically
/// stacked rows that all hold the same maximal run `[left, right]`.
#[derive(Debug, Clone, Copy, Eq, PartialEq, Structural)]
pub struct MergedCollider {
    /// Leftmost column covered (inclusive).
    pub left: usize,
    /// Rightmost column covered (inclusive).
    pub right: usize,
    /// Lowest row covered (inclusive).
    pub bottom: usize,
    /// Highest row covered (inclusive).
    pub top: usize,
    /// The level this collider belongs to.
    pub level_id: u64,
}

/// The horizontal run of a merged collider.
pub open spec fn plate_of(r: MergedCollider) -> Plate {
    Plate { left: r.left, right: r.right }
}

/// Whether the collider covers the cell at `(x, y)`.
pub open spec fn rect_covers(r: MergedCollider, x: int, y: int) -> bool {
    r.left <= x <= r.right && r.bottom <= y <= r.top
}

/// Whether some collider of the list covers the cell at `(x, y)`.
pub open spec fn covered(rs: Seq<MergedCollider>, x: int, y: int) -> bool {
    exists|i: int| 0 <= i < rs.len() && rect_covers(#[trigger] rs[i], x, y)
}

/// The two colliders cover no cell in common.
pub open spec fn rects_disjoint(a: MergedCollider, b: MergedCollider) -> bool {
    a.right < b.left || b.right < a.left || a.top < b.bottom || b.top < a.bottom
}

/// No two colliders of the list cover a cell in common.
pub open spec fn pairwise_disjoint(rs: Seq<MergedCollider>) -> bool {
    forall|i: int, j: int| 0 <= i < j < rs.len() ==> rects_disjoint(#[trigger] rs[i], #[trigger] rs[j])
}

/// No collider of `a` covers a cell in common with one of `b`.
pub open spec fn cross_disjoint(a: Seq<MergedCollider>, b: Seq<MergedCollider>) -> bool {
    forall|i: int, j: int|
        0 <= i < a.len() && 0 <= j < b.len() ==> rects_disjoint(#[trigger] a[i], #[trigger] b[j])
}

/// Every row the collider spans holds its run as a maximal run.
pub open spec fn rect_rows_valid(g: LevelGrid, r: MergedCollider) -> bool {
    &&& r.bottom <= r.top < g.height
    &&& forall|yy: int| r.bottom <= yy <= r.top ==> plate_valid(g, plate_of(r), yy)
}

/// The row above the collider does not hold its run: it could not have
/// grown further up.
pub open spec fn rect_closed_above(g: LevelGrid, r: MergedCollider) -> bool {
    !plate_valid(g, plate_of(r), r.top + 1)
}

/// The row below the collider does not hold its run: it could not have
/// started lower.
pub open spec fn rect_closed_below(g: LevelGrid, r: MergedCollider) -> bool {
    r.bottom == 0 || !plate_valid(g, plate_of(r), r.bottom - 1)
}

/// Distinct maximal runs of one row are horizontally disjoint.
pub proof fn lemma_distinct_plates_disjoint(g: LevelGrid, p1: Plate, p2: Plate, y: int)
    requires
        plate_valid(g, p1, y),
        plate_valid(g, p2, y),
        p1 != p2,
    ensures
        p1.right < p2.left || p2.right < p1.left,
{
    if p1.left <= p2.right && p2.left <= p1.right {
        lemma_plate_unique(g, p1, p2, y);
    }
}

/// The collider extended upward to row `y`.
pub open spec fn extend_rect(r: MergedCollider, y: usize) -> MergedCollider {
    MergedCollider { left: r.left, right: r.right, bottom: r.bottom, top: y, level_id: r.level_id }
}

/// A fresh one-row collider for the run `p` in row `y`.
pub open spec fn new_rect(p: Plate, y: usize, level_id: u64) -> MergedCollider {
    MergedCollider { left: p.left, right: p.right, bottom: y, top: y, level_id }
}

/// Whether some collider of the list carries the run `p`.
pub open spec fn has_plate(active: Seq<MergedCollider>, p: Plate) -> bool {
    exists|i: int| 0 <= i < active.len() && plate_of(#[trigger] active[i]) == p
}

/// The in-progress colliders after row `y`: one per plate of the row, in
/// row order; a plate that an in-progress collider already carries
/// extends that collider upward, any other plate starts a fresh one.
pub open spec fn match_plates(
    active: Seq<MergedCollider>,
    plates: Seq<Plate>,
    y: usize,
    level_id: u64,
) -> Seq<MergedCollider>
    decreases plates.len(),
{
    if plates.len() == 0 {
        Seq::empty()
    } else {
        let p = plates[0];
        let head = if has_plate(active, p) {
            extend_rect(
                active[choose|i: int| 0 <= i < active.len() && plate_of(#[trigger] active[i]) == p],
                y,
            )
        } else {
            new_rect(p, y, level_id)
        };
        seq![head] + match_plates(active, plates.skip(1), y, level_id)
    }
}

/// The in-progress colliders whose run no plate of the current row
/// carries on: they are finished and emitted, in their stored order.
pub open spec fn unmatched(active: Seq<MergedCollider>, plates: Seq<Plate>) -> Seq<MergedCollider>
    decreases active.len(),
{
    if active.len() == 0 {
        Seq::empty()
    } else if plates.contains(plate_of(active[0])) {
        unmatched(active.skip(1), plates)
    } else {
        seq![active[0]] + unmatched(active.skip(1), plates)
    }
}

/// Everything the synthesizer emits from row `y` on, given the colliders
/// still in progress; after the last row, the survivors are emitted as
/// they stand.
pub open spec fn merge_rows(
    g: LevelGrid,
    y: int,
    active: Seq<MergedCollider>,
    level_id: u64,
) -> Seq<MergedCollider>
    decreases g.height - y,
{
    if y >= g.height {
        active
    } else {
        let plates = row_plates_spec(g, y);
        unmatched(active, plates) + merge_rows(
            g,
            y + 1,
            match_plates(active, plates, y as usize, level_id),
            level_id,
        )
    }
}

/// The full output of the synthesizer on a grid.
pub open spec fn synthesize_spec(g: LevelGrid, level_id: u64) -> Seq<MergedCollider> {
    merge_rows(g, 0, Seq::empty(), level_id)
}

/// The synthesizer is a function of the grid alone: two runs on an
/// unchanged grid return the same collider list, value for value and in
/// the same order.
pub proof fn lemma_synthesis_deterministic(
    g: LevelGrid,
    level_id: u64,
    r1: Seq<MergedCollider>,
    r2: Seq<MergedCollider>,
)
    requires
        r1 == synthesize_spec(g, level_id),
        r2 == synthesize_spec(g, level_id),
    ensures
        r1 == r2,
{
}

/// Finds the in-progress collider carrying the run `p`, if any.
fn find_rect(active: &Vec<MergedCollider>, p: Plate) -> (r: Option<usize>)
    ensures
        r matches Some(i) ==> i < active@.len() && plate_of(active@[i as int]) == p,
        r is None ==> !has_plate(active@, p),
{
    let mut i: usize = 0;
    while i < active.len()
        invariant
            i <= active@.len(),
            forall|t: int| 0 <= t < i ==> plate_of(#[trigger] active@[t]) != p,
        decreases active@.len() - i,
    {
        if active[i].left == p.left && active[i].right == p.right {
            return Some(i);
        }
        i += 1;
    }
    None
}

/// Whether the row's plate list holds the run `p`.
fn plates_contain(plates: &Vec<Plate>, p: Plate) -> (r: bool)
    ensures
        r == plates@.contains(p),
{
    let mut i: usize = 0;
    while i < plates.len()
        invariant
            i <= plates@.len(),
            forall|t: int| 0 <= t < i ==> plates@[t] != p,
        decreases plates@.len() - i,
    {
        if plates[i].left == p.left && plates[i].right == p.right {
            assert(plates@[i as int] == p);
            return true;
        }
        i += 1;
    }
    false
}

/// Turns a level grid into merged wall colliders.
///
/// The output is exactly the algorithm's emission order: per row, the
/// finished rectangles in the order their runs stood, then, after the
/// last row, the surviving rectangles.  The contract states the three
/// properties the rest of the game relies on: every solid cell is
/// covered, only solid cells are covered, and no two colliders overlap.
#[verifier::loop_isolation(false)]
#[verifier::rlimit(60)]
pub fn synthesize_colliders(g: &LevelGrid, level_id: u64) -> (out: Vec<MergedCollider>)
    requires
        g.wf(),
        g.width < usize::MAX,
    ensures
        out@ == synthesize_spec(*g, level_id),
        forall|x2: int, y2: int| (*g).solid_at(x2, y2) ==> covered(out@, x2, y2),
        forall|i: int, x2: int, y2: int|
            0 <= i < out@.len() && #[trigger] rect_covers(out@[i], x2, y2) ==> (*g).solid_at(
                x2,
                y2,
            ),
        pairwise_disjoint(out@),
        forall|i: int| 0 <= i < out@.len() ==> (#[trigger] out@[i]).level_id == level_id,
{
    let mut out: Vec<MergedCollider> = Vec::new();
    let mut active: Vec<MergedCollider> = Vec::new();
    let mut y: usize = 0;
    proof {
        assert(Seq::<MergedCollider>::empty() + merge_rows(*g, 0, Seq::empty(), level_id)
            =~= synthesize_spec(*g, level_id));
        assert forall|p: Plate| plate_valid(*g, p, -1) implies has_plate(active@, p) by {
            assert((*g).solid_at(p.left as int, -1));
        }
    }
    while y < g.height
        invariant
            y <= g.height,
            synthesize_spec(*g, level_id) == out@ + merge_rows(*g, y as int, active@, level_id),
            forall|i: int| 0 <= i < active@.len() ==> (#[trigger] active@[i]).top + 1 == y as int,
            forall|i: int| 0 <= i < active@.len() ==> rect_rows_valid(*g, #[trigger] active@[i]),
            forall|i: int| 0 <= i < active@.len() ==> rect_closed_below(*g, #[trigger] active@[i]),
            forall|i: int|
                0 <= i < active@.len() ==> (#[trigger] active@[i]).level_id == level_id,
            forall|i: int, j: int|
                0 <= i < j < active@.len() ==> plate_of(#[trigger] active@[i]) != plate_of(
                    #[trigger] active@[j],
                ),
            forall|p: Plate| plate_valid(*g, p, y as int - 1) ==> has_plate(active@, p),
            forall|i: int| 0 <= i < out@.len() ==> rect_rows_valid(*g, #[trigger] out@[i]),
            forall|i: int| 0 <= i < out@.len() ==> rect_closed_below(*g, #[trigger] out@[i]),
            forall|i: int| 0 <= i < out@.len() ==> rect_closed_above(*g, #[trigger] out@[i]),
            forall|i: int| 0 <= i < out@.len() ==> (#[trigger] out@[i]).level_id == level_id,
            forall|i: int| 0 <= i < out@.len() ==> (#[trigger] out@[i]).top + 2 <= y as int,
            pairwise_disjoint(out@),
            pairwise_disjoint(active@),
            cross_disjoint(out@, active@),
            forall|x2: int, y2: int|
                0 <= y2 < y as int && #[trigger] (*g).solid_at(x2, y2) ==> covered(out@, x2, y2)
                    || covered(active@, x2, y2),
        decreases g.height - y,
    {
        let ghost outY = out@;
        let ghost activeY = active@;
        let plates = row_plates(g, y);

        // Build the next in-progress list: one rectangle per plate of
        // this row, extending a carried rectangle where the run matches.
        let mut new_active: Vec<MergedCollider> = Vec::new();
        proof {
            assert(plates@.skip(0) =~= plates@);
        }
        let mut k: usize = 0;
        while k < plates.len()
            invariant
                k <= plates@.len(),
                new_active@.len() == k as int,
                match_plates(active@, plates@, y, level_id) == new_active@ + match_plates(
                    active@,
                    plates@.skip(k as int),
                    y,
                    level_id,
                ),
                forall|t: int|
                    0 <= t < k ==> plate_of(#[trigger] new_active@[t]) == plates@[t],
                forall|t: int| 0 <= t < k ==> (#[trigger] new_active@[t]).top == y as int,
                forall|t: int|
                    0 <= t < k ==> (#[trigger] new_active@[t]).level_id == level_id,
                forall|t: int| 0 <= t < k ==> rect_rows_valid(*g, #[trigger] new_active@[t]),
                forall|t: int| 0 <= t < k ==> rect_closed_below(*g, #[trigger] new_active@[t]),
                forall|t: int|
                    0 <= t < k ==> ((exists|i: int|
                        0 <= i < active@.len() && plate_of(#[trigger] active@[i]) == plates@[t]
                            && #[trigger] new_active@[t] == extend_rect(active@[i], y)) || (
                    new_active@[t].bottom == y as int && !has_plate(active@, plates@[t]))),
            decreases plates@.len() - k,
        {
            let p = plates[k];
            proof {
                assert(plates@.skip(k as int)[0] == p);
                assert(plates@.skip(k as int).skip(1) =~= plates@.skip(k as int + 1));
                assert(plate_valid(*g, plates@[k as int], y as int));
            }
            match find_rect(&active, p) {
                Some(i) => {
                    let a = active[i];
                    let nr = MergedCollider {
                        left: a.left,
                        right: a.right,
                        bottom: a.bottom,
                        top: y,
                        level_id: a.level_id,
                    };
                    proof {
                        assert(plate_of(a) == p);
                        assert(nr == extend_rect(active@[i as int], y));
                        assert(plate_of(nr) == p);
                        assert(rect_rows_valid(*g, nr)) by {
                            assert forall|yy2: int| nr.bottom <= yy2 <= nr.top implies plate_valid(
                                *g,
                                plate_of(nr),
                                yy2,
                            ) by {
                                if yy2 < y as int {
                                    assert(rect_rows_valid(*g, active@[i as int]));
                                    assert(plate_valid(*g, plate_of(active@[i as int]), yy2));
                                }
                            }
                        }
                        assert(rect_closed_below(*g, nr));
                        assert(has_plate(active@, p));
                        let ci = choose|ci: int|
                            0 <= ci < active@.len() && plate_of(#[trigger] active@[ci]) == p;
                        assert(plate_of(active@[ci]) == plate_of(active@[i as int]));
                        assert(ci == i as int);
                        assert(match_plates(active@, plates@.skip(k as int), y, level_id)
                            == seq![nr] + match_plates(
                            active@,
                            plates@.skip(k as int + 1),
                            y,
                            level_id,
                        ));
                        assert(new_active@ + match_plates(active@, plates@.skip(k as int), y, level_id)
                            =~= new_active@.push(nr) + match_plates(
                            active@,
                            plates@.skip(k as int + 1),
                            y,
                            level_id,
                        ));
                    }
                    new_active.push(nr);
                },
                None => {
                    let nr = MergedCollider {
                        left: p.left,
                        right: p.right,
                        bottom: y,
                        top: y,
                        level_id,
                    };
                    proof {
                        assert(nr == new_rect(p, y, level_id));
                        assert(plate_of(nr) == p);
                        assert(!has_plate(active@, p));
                        assert(rect_rows_valid(*g, nr));
                        assert(rect_closed_below(*g, nr)) by {
                            if y > 0 && plate_valid(*g, plate_of(nr), y as int - 1) {
                                assert(has_plate(active@, p));
                            }
                        }
                        assert(match_plates(active@, plates@.skip(k as int), y, level_id)
                            == seq![nr] + match_plates(
                            active@,
                            plates@.skip(k as int + 1),
                            y,
                            level_id,
                        ));
                        assert(new_active@ + match_plates(active@, plates@.skip(k as int), y, level_id)
                            =~= new_active@.push(nr) + match_plates(
                            active@,
                            plates@.skip(k as int + 1),
                            y,
                            level_id,
                        ));
                    }
                    new_active.push(nr);
                },
            }
            k += 1;
        }
        proof {
            assert(plates@.skip(plates@.len() as int).len() == 0);
            assert(new_active@ + Seq::<MergedCollider>::empty() =~= new_active@);
            assert(new_active@ == match_plates(active@, plates@, y, level_id));
        }

        // Emit every carried rectangle whose run no plate of this row
        // matches: it is finished.
        proof {
            assert(active@.skip(0) =~= active@);
        }
        let mut m: usize = 0;
        while m < active.len()
            invariant
                m <= active@.len(),
                outY + unmatched(active@, plates@) == out@ + unmatched(
                    active@.skip(m as int),
                    plates@,
                ),
                forall|j: int|
                    0 <= j < m ==> plates@.contains(plate_of(#[trigger] active@[j]))
                        || out@.contains(active@[j]),
                out@.len() >= outY.len(),
                forall|i: int| 0 <= i < outY.len() ==> out@[i] == outY[i],
                forall|i: int| 0 <= i < out@.len() ==> rect_rows_valid(*g, #[trigger] out@[i]),
                forall|i: int| 0 <= i < out@.len() ==> rect_closed_below(*g, #[trigger] out@[i]),
                forall|i: int| 0 <= i < out@.len() ==> rect_closed_above(*g, #[trigger] out@[i]),
                forall|i: int|
                    0 <= i < out@.len() ==> (#[trigger] out@[i]).level_id == level_id,
                forall|i: int| 0 <= i < out@.len() ==> (#[trigger] out@[i]).top + 1 <= y as int,
                pairwise_disjoint(out@),
                cross_disjoint(out@, new_active@),
                cross_disjoint(out@, active@.skip(m as int)),
            decreases active@.len() - m,
        {
            let r = active[m];
            proof {
                assert(active@.skip(m as int)[0] == r);
                assert(active@.skip(m as int).skip(1) =~= active@.skip(m as int + 1));
            }
            if !plates_contain(&plates, Plate { left: r.left, right: r.right }) {
                proof {
                    assert(!plates@.contains(plate_of(r)));
                    assert(rect_rows_valid(*g, r));
                    assert(r.top + 1 == y as int);
                    assert(rect_closed_above(*g, r)) by {
                        if plate_valid(*g, plate_of(r), r.top + 1) {
                            assert(plates@.contains(plate_of(r)));
                        }
                    }
                    assert forall|t: int| 0 <= t < new_active@.len() implies rects_disjoint(
                        r,
                        new_active@[t],
                    ) by {
                        let nt = new_active@[t];
                        if exists|i: int|
                            0 <= i < active@.len() && plate_of(#[trigger] active@[i]) == plates@[t]
                                && nt == extend_rect(active@[i], y) {
                            let i = choose|i: int|
                                0 <= i < active@.len() && plate_of(#[trigger] active@[i])
                                    == plates@[t] && nt == extend_rect(active@[i], y);
                            assert(plates@.contains(plates@[t]));
                            assert(plate_of(active@[i]) != plate_of(r));
                            assert(i != m as int);
                            let a = active@[i];
                            if i < m as int {
                                assert(rects_disjoint(a, r));
                            } else {
                                assert(rects_disjoint(r, a));
                            }
                            assert(a.top == r.top);
                            assert(a.right < r.left || r.right < a.left);
                            assert(nt.left == a.left && nt.right == a.right);
                            assert(rects_disjoint(r, nt));
                        } else {
                            assert(nt.bottom == y as int);
                            assert(r.top < nt.bottom);
                        }
                    }
                    assert forall|i: int| 0 <= i < out@.len() implies rects_disjoint(
                        out@[i],
                        r,
                    ) by {
                        assert(rects_disjoint(out@[i], active@.skip(m as int)[0]));
                    }
                    assert(unmatched(active@.skip(m as int), plates@) == seq![r] + unmatched(
                        active@.skip(m as int + 1),
                        plates@,
                    ));
                    assert(out@ + unmatched(active@.skip(m as int), plates@) =~= out@.push(r)
                        + unmatched(active@.skip(m as int + 1), plates@));
                }
                let ghost outB = out@;
                out.push(r);
                proof {
                    assert(out@[out@.len() - 1] == active@[m as int]);
                    assert(out@.contains(active@[m as int]));
                    assert forall|j: int|
                        0 <= j < m as int && !plates@.contains(plate_of(#[trigger] active@[j]))
                            implies out@.contains(active@[j]) by {
                        let w = choose|w: int| 0 <= w < outB.len() && outB[w] == active@[j];
                        assert(out@[w] == active@[j]);
                    }
                    assert forall|i: int, j: int|
                        0 <= i < out@.len() && 0 <= j < active@.skip(m as int + 1).len()
                            implies rects_disjoint(
                        #[trigger] out@[i],
                        #[trigger] active@.skip(m as int + 1)[j],
                    ) by {
                        let b = active@[m as int + 1 + j];
                        assert(active@.skip(m as int + 1)[j] == b);
                        if i < out@.len() - 1 {
                            assert(active@.skip(m as int)[1 + j] == b);
                            assert(rects_disjoint(out@[i], b));
                        } else {
                            assert(rects_disjoint(active@[m as int], b));
                            assert(rects_disjoint(b, active@[m as int]) == rects_disjoint(
                                active@[m as int],
                                b,
                            ));
                        }
                    }
                }
            } else {
                proof {
                    assert(plates@.contains(plate_of(r)));
                    assert(unmatched(active@.skip(m as int), plates@) == unmatched(
                        active@.skip(m as int + 1),
                        plates@,
                    ));
                }
            }
            m += 1;
        }
        proof {
            assert(unmatched(active@.skip(active@.len() as int), plates@).len() == 0);
            assert(out@ + unmatched(active@.skip(active@.len() as int), plates@) =~= out@);
            assert(out@ == outY + unmatched(active@, plates@));

            // The specification takes the same step.
            assert(merge_rows(*g, y as int, active@, level_id) == unmatched(active@, plates@)
                + merge_rows(*g, y as int + 1, new_active@, level_id)) by {
                assert(row_plates_spec(*g, y as int) == plates@);
                assert((y as int) as usize == y);
            }
            assert(synthesize_spec(*g, level_id) == out@ + merge_rows(
                *g,
                y as int + 1,
                new_active@,
                level_id,
            )) by {
                assert(outY + (unmatched(active@, plates@) + merge_rows(
                    *g,
                    y as int + 1,
                    new_active@,
                    level_id,
                )) =~= (outY + unmatched(active@, plates@)) + merge_rows(
                    *g,
                    y as int + 1,
                    new_active@,
                    level_id,
                ));
            }

            // The next in-progress list is disjoint, one rectangle per
            // distinct run of this row.
            assert(pairwise_disjoint(new_active@)) by {
                assert forall|t: int, u: int|
                    0 <= t < u < new_active@.len() implies rects_disjoint(
                    #[trigger] new_active@[t],
                    #[trigger] new_active@[u],
                ) by {
                    assert(plates@[t].right < plates@[u].left);
                    assert(plate_of(new_active@[t]) == plates@[t]);
                    assert(plate_of(new_active@[u]) == plates@[u]);
                }
            }
            assert forall|p: Plate| plate_valid(*g, p, y as int) implies has_plate(
                new_active@,
                p,
            ) by {
                assert(plates@.contains(p));
                let t = choose|t: int| 0 <= t < plates@.len() && plates@[t] == p;
                assert(plate_of(new_active@[t]) == p);
            }
            assert forall|t: int, u: int|
                0 <= t < u < new_active@.len() implies plate_of(#[trigger] new_active@[t])
                != plate_of(#[trigger] new_active@[u]) by {
                assert(plates@[t].right < plates@[u].left);
            }

            // Every solid cell up to and including this row stays
            // covered by the emitted and in-progress rectangles.
            assert forall|x2: int, y2: int|
                0 <= y2 < y as int + 1 && #[trigger] (*g).solid_at(x2, y2) implies covered(
                out@,
                x2,
                y2,
            ) || covered(new_active@, x2, y2) by {
                if y2 == y as int {
                    let kk = choose|i: int|
                        0 <= i < plates@.len() && (#[trigger] plates@[i]).left <= x2
                            <= plates@[i].right;
                    assert(plate_of(new_active@[kk]) == plates@[kk]);
                    assert(rect_covers(new_active@[kk], x2, y2));
                    assert(covered(new_active@, x2, y2));
                } else {
                    assert(covered(outY, x2, y2) || covered(activeY, x2, y2));
                    if covered(outY, x2, y2) {
                        let i = choose|i: int|
                            0 <= i < outY.len() && rect_covers(#[trigger] outY[i], x2, y2);
                        assert(rect_covers(out@[i], x2, y2));
                        assert(covered(out@, x2, y2));
                    } else {
                        let j = choose|j: int|
                            0 <= j < activeY.len() && rect_covers(#[trigger] activeY[j], x2, y2);
                        if plates@.contains(plate_of(activeY[j])) {
                            let kk = choose|t: int|
                                0 <= t < plates@.len() && plates@[t] == plate_of(activeY[j]);
                            assert(has_plate(activeY, plates@[kk]));
                            assert(exists|i: int|
                                0 <= i < activeY.len() && plate_of(#[trigger] activeY[i])
                                    == plates@[kk] && new_active@[kk] == extend_rect(
                                    activeY[i],
                                    y,
                                ));
                            let ii = choose|i: int|
                                0 <= i < activeY.len() && plate_of(#[trigger] activeY[i])
                                    == plates@[kk] && new_active@[kk] == extend_rect(
                                    activeY[i],
                                    y,
                                );
                            assert(ii == j);
                            assert(rect_covers(new_active@[kk], x2, y2));
                            assert(covered(new_active@, x2, y2));
                        } else {
                            assert(out@.contains(activeY[j]));
                            let i = choose|i: int| 0 <= i < out@.len() && out@[i] == activeY[j];
                            assert(rect_covers(out@[i], x2, y2));
                            assert(covered(out@, x2, y2));
                        }
                    }
                }
            }
        }
        active = new_active;
        y += 1;
    }

    // Past the last row, every surviving rectangle is finished.
    proof {
        assert(merge_rows(*g, y as int, active@, level_id) == active@);
        assert(active@.skip(0) =~= active@);
    }
    let ghost outF = out@;
    let ghost activeF = active@;
    let mut m: usize = 0;
    while m < active.len()
        invariant
            m <= active@.len(),
            synthesize_spec(*g, level_id) == out@ + active@.skip(m as int),
            out@.len() == outF.len() + m,
            forall|i: int| 0 <= i < outF.len() ==> out@[i] == outF[i],
            forall|j: int| 0 <= j < m ==> out@[outF.len() + j] == active@[j],
        decreases active@.len() - m,
    {
        let r = active[m];
        proof {
            assert(active@.skip(m as int)[0] == r);
            assert(active@.skip(m as int).skip(1) =~= active@.skip(m as int + 1));
            assert(active@.skip(m as int) =~= seq![r] + active@.skip(m as int + 1));
            assert(out@ + active@.skip(m as int) =~= out@.push(r) + active@.skip(m as int + 1));
        }
        out.push(r);
        m += 1;
    }
    proof {
        assert(active@.skip(active@.len() as int).len() == 0);
        assert(out@ + active@.skip(active@.len() as int) =~= out@);

        // Transfer the per-rectangle facts across the concatenation.
        assert forall|i: int| 0 <= i < out@.len() implies rect_rows_valid(*g, #[trigger] out@[i])
            && (#[trigger] out@[i]).level_id == level_id by {
            if i < outF.len() {
                assert(out@[i] == outF[i]);
            } else {
                assert(out@[i] == activeF[i - outF.len()]);
            }
        }
        assert forall|i: int, x2: int, y2: int|
            0 <= i < out@.len() && #[trigger] rect_covers(out@[i], x2, y2) implies (*g).solid_at(
            x2,
            y2,
        ) by {
            assert(rect_rows_valid(*g, out@[i]));
            assert(plate_valid(*g, plate_of(out@[i]), y2));
            assert((*g).solid_at(x2, y2));
        }
        assert(pairwise_disjoint(out@)) by {
            assert forall|i: int, j: int| 0 <= i < j < out@.len() implies rects_disjoint(
                #[trigger] out@[i],
                #[trigger] out@[j],
            ) by {
                if j < outF.len() {
                    assert(out@[i] == outF[i] && out@[j] == outF[j]);
                    assert(rects_disjoint(outF[i], outF[j]));
                } else if i < outF.len() {
                    assert(out@[i] == outF[i] && out@[j] == activeF[j - outF.len()]);
                    assert(rects_disjoint(outF[i], activeF[j - outF.len()]));
                } else {
                    assert(out@[i] == activeF[i - outF.len()] && out@[j] == activeF[j
                        - outF.len()]);
                    assert(rects_disjoint(activeF[i - outF.len()], activeF[j - outF.len()]));
                }
            }
        }
        assert forall|x2: int, y2: int| #[trigger] (*g).solid_at(x2, y2) implies covered(
            out@,
            x2,
            y2,
        ) by {
            assert(0 <= y2 < g.height);
            if covered(outF, x2, y2) {
                let i = choose|i: int| 0 <= i < outF.len() && rect_covers(#[trigger] outF[i], x2, y2);
                assert(rect_covers(out@[i], x2, y2));
            } else {
                assert(covered(activeF, x2, y2));
                let j = choose|j: int|
                    0 <= j < activeF.len() && rect_covers(#[trigger] activeF[j], x2, y2);
                assert(rect_covers(out@[outF.len() + j], x2, y2));
            }
        }
    }
    out
}

/// A cell position in the grid.
#[derive(Debug, Clone, Copy, Eq, PartialEq, Structural)]
pub struct CellPos {
    pub x: usize,
    pub y: usize,
}

/// A collider's bounds in world units.
#[derive(Debug, Clone, Copy, Eq, PartialEq, Structural)]
pub struct WorldRect {
    pub left: usize,
    pub right: usize,
    pub bottom: usize,
    pub top: usize,
}

impl MergedCollider {
    /// Translates the collider to world units: each grid coordinate is
    /// scaled by the cell size, the upper bounds exclusively.
    pub fn to_world(&self, cell_size: usize) -> (w: WorldRect)
        requires
            self.left <= self.right < usize::MAX,
            self.bottom <= self.top < usize::MAX,
            (self.right + 1) * cell_size <= usize::MAX,
            (self.top + 1) * cell_size <= usize::MAX,
        ensures
            w.left == self.left * cell_size,
            w.right == (self.right + 1) * cell_size,
            w.bottom == self.bottom * cell_size,
            w.top == (self.top + 1) * cell_size,
    {
        proof {
            assert(self.left * cell_size <= (self.right + 1) * cell_size && self.bottom * cell_size
                <= (self.top + 1) * cell_size) by (nonlinear_arith)
                requires
                    self.left <= self.right + 1,
                    self.bottom <= self.top + 1,
                    cell_size >= 0,
            ;
        }
        WorldRect {
            left: self.left * cell_size,
            right: (self.right + 1) * cell_size,
            bottom: self.bottom * cell_size,
            top: (self.top + 1) * cell_size,
        }
    }
}

/// The ladder cells of a grid, in row-major order.  Ladders are sparse,
/// so each becomes its own per-cell sensor and none are merged.
#[verifier::loop_isolation(false)]
pub fn ladder_cells(g: &LevelGrid) -> (r: Vec<CellPos>)
    requires
        g.wf(),
    ensures
        forall|i: int|
            0 <= i < r@.len() ==> ((#[trigger] r@[i]).x < g.width && r@[i].y < g.height
                && (*g).kind_at(r@[i].x as int, r@[i].y as int) == CellKind::Ladder),
        forall|x2: int, y2: int|
            0 <= x2 < g.width && 0 <= y2 < g.height && #[trigger] (*g).kind_at(x2, y2)
                == CellKind::Ladder ==> exists|i: int|
                0 <= i < r@.len() && (#[trigger] r@[i]).x == x2 && r@[i].y == y2,
        forall|i: int, j: int|
            0 <= i < j < r@.len() ==> ((#[trigger] r@[i]).y < (#[trigger] r@[j]).y || (r@[i].y
                == r@[j].y && r@[i].x < r@[j].x)),
{
    let mut cells: Vec<CellPos> = Vec::new();
    let mut y: usize = 0;
    while y < g.height
        invariant
            y <= g.height,
            forall|i: int|
                0 <= i < cells@.len() ==> ((#[trigger] cells@[i]).x < g.width && cells@[i].y < y
                    && (*g).kind_at(cells@[i].x as int, cells@[i].y as int) == CellKind::Ladder),
            forall|x2: int, y2: int|
                0 <= x2 < g.width && 0 <= y2 < y && #[trigger] (*g).kind_at(x2, y2)
                    == CellKind::Ladder ==> exists|i: int|
                    0 <= i < cells@.len() && (#[trigger] cells@[i]).x == x2 && cells@[i].y == y2,
            forall|i: int, j: int|
                0 <= i < j < cells@.len() ==> ((#[trigger] cells@[i]).y < (#[trigger] cells@[j]).y
                    || (cells@[i].y == cells@[j].y && cells@[i].x < cells@[j].x)),
        decreases g.height - y,
    {
        let mut x: usize = 0;
        while x < g.width
            invariant
                x <= g.width,
                forall|i: int|
                    0 <= i < cells@.len() ==> ((#[trigger] cells@[i]).x < g.width && (cells@[i].y
                        < y || (cells@[i].y == y && cells@[i].x < x)) && (*g).kind_at(
                        cells@[i].x as int,
                        cells@[i].y as int,
                    ) == CellKind::Ladder),
                forall|x2: int, y2: int|
                    0 <= x2 < g.width && 0 <= y2 <= y && (y2 < y || x2 < x) && #[trigger] (*g).kind_at(
                        x2,
                        y2,
                    ) == CellKind::Ladder ==> exists|i: int|
                        0 <= i < cells@.len() && (#[trigger] cells@[i]).x == x2 && cells@[i].y
                            == y2,
                forall|i: int, j: int|
                    0 <= i < j < cells@.len() ==> ((#[trigger] cells@[i]).y
                        < (#[trigger] cells@[j]).y || (cells@[i].y == cells@[j].y && cells@[i].x
                        < cells@[j].x)),
            decreases g.width - x,
        {
            let kind = g.cell_kind(x, y);
            if kind == CellKind::Ladder {
                let ghost before = cells@;
                cells.push(CellPos { x, y });
                proof {
                    assert forall|x2: int, y2: int|
                        0 <= x2 < g.width && 0 <= y2 <= y as int && (y2 < y as int || x2 < x as int
                            + 1) && #[trigger] (*g).kind_at(x2, y2) == CellKind::Ladder
                            implies exists|i: int|
                            0 <= i < cells@.len() && (#[trigger] cells@[i]).x == x2 && cells@[i].y
                                == y2 by {
                        if y2 == y as int && x2 == x as int {
                            assert(cells@[cells@.len() - 1].x == x2 && cells@[cells@.len() - 1].y
                                == y2);
                        } else {
                            let i = choose|i: int|
                                0 <= i < before.len() && (#[trigger] before[i]).x == x2
                                    && before[i].y == y2;
                            assert(cells@[i].x == x2 && cells@[i].y == y2);
                        }
                    }
                }
            }
            x += 1;
        }
        y += 1;
    }
    cells
}

/// Maps an integer grid value of the level asset to a cell kind: dirt
/// and stone tiles are solid, the ladder value is a ladder, and any
/// other value is rejected with a named error rather than crashing
/// later.
pub fn cell_kind_of_int(value: i32) -> (r: Result<CellKind, MapError>)
    ensures
        value == 1 || value == 3 ==> r == Ok::<CellKind, MapError>(CellKind::Solid),
        value == 2 ==> r == Ok::<CellKind, MapError>(CellKind::Ladder),
        !(1 <= value <= 3) ==> r == Err::<CellKind, MapError>(MapError::UnknownValue),
{
    if value == 1 || value == 3 {
        Ok(CellKind::Solid)
    } else if value == 2 {
        Ok(CellKind::Ladder)
    } else {
        Err(MapError::UnknownValue)
    }
}

/// A notification about a level's loading progress.
#[derive(Debug, Clone, Copy, Eq, PartialEq, Structural)]
pub enum LevelEvent {
    /// The level started spawning: its ground is not there yet.
    SpawnTriggered,
    /// The level finished transforming: its ground stands.
    Transformed,
    /// Any other notification about the level.
    Other,
}

/// Whether the physics pipeline should run after a tick's level events:
/// the last spawn or transform notification decides, and a tick without
/// either leaves the pipeline alone.
pub open spec fn level_events_outcome(evs: Seq<LevelEvent>) -> Option<bool>
    decreases evs.len(),
{
    if evs.len() == 0 {
        None
    } else if evs.last() == LevelEvent::Transformed {
        Some(true)
    } else if evs.last() == LevelEvent::SpawnTriggered {
        Some(false)
    } else {
        level_events_outcome(evs.drop_last())
    }
}

/// Folds one tick's level events in emission order: while a level
/// spawns, the physics pipeline pauses so nothing falls through ground
/// that is not there yet; once the level is transformed it resumes.  The
/// last spawn or transform notification of the tick wins; any other
/// event leaves the pipeline alone.
pub fn pause_physics_during_map_load(events: &Vec<LevelEvent>) -> (r: Option<bool>)
    ensures
        r == level_events_outcome(events@),
{
    let mut outcome: Option<bool> = None;
    let mut i: usize = 0;
    proof {
        assert(events@.take(0).len() == 0);
    }
    while i < events.len()
        invariant
            i <= events@.len(),
            outcome == level_events_outcome(events@.take(i as int)),
        decreases events@.len() - i,
    {
        proof {
            assert(events@.take(i as int + 1).drop_last() =~= events@.take(i as int));
            assert(events@.take(i as int + 1).last() == events@[i as int]);
        }
        match events[i] {
            LevelEvent::SpawnTriggered => {
                outcome = Some(false);
            },
            LevelEvent::Transformed => {
                outcome = Some(true);
            },
            LevelEvent::Other => {},
        }
        i += 1;
    }
    proof {
        assert(events@.take(events@.len() as int) =~= events@);
    }
    outcome
}

} // verus!
