use vstd::prelude::*;
use vstd::set_lib::lemma_len_subset;
use vstd::arithmetic::div_mod::lemma_fundamental_div_mod;
use crate::direction::SnakeDirection;

verus! {

/// Columns of the playing field.
pub const GRID_WIDTH: usize = 21;

/// Rows of the playing field.
pub const GRID_HEIGHT: usize = 21;

/// The largest number of columns or rows a grid may have.
pub const MAX_GRID_SIDE: usize = 1001;

/// A tile of the grid, counted from the centre tile (0, 0); `y` grows upwards.
#[derive(Clone, Copy, Debug, PartialEq, Eq, Structural)]
pub struct GridPos {
    pub x: i64,
    pub y: i64,
}

impl GridPos {
    /// The tile one move away in heading `d`.
    pub open spec fn stepped(self, d: SnakeDirection) -> GridPos {
        GridPos { x: (self.x + d.dx()) as i64, y: (self.y + d.dy()) as i64 }
    }

    /// Whether the tile is near enough to the centre that a move cannot overflow.
    pub open spec fn is_near(self) -> bool {
        -(MAX_GRID_SIDE as int) <= self.x <= MAX_GRID_SIDE as int
            && -(MAX_GRID_SIDE as int) <= self.y <= MAX_GRID_SIDE as int
    }

    pub fn step(&self, d: SnakeDirection) -> (r: GridPos)
        requires
            self.is_near(),
        ensures
            r == self.stepped(d),
    {
        let (dx, dy) = d.unit();
        GridPos { x: self.x + dx, y: self.y + dy }
    }
}

/// A rectangle of `width` by `height` tiles centred on the tile (0, 0).
#[derive(Clone, Copy, Debug, PartialEq, Eq, Structural)]
pub struct Grid {
    pub width: usize,
    pub height: usize,
}

impl Grid {
    /// A grid centred on a tile has an odd number of columns and of rows.
    pub open spec fn wf(self) -> bool {
        self.width % 2 == 1 && self.height % 2 == 1 && self.width <= MAX_GRID_SIDE
            && self.height <= MAX_GRID_SIDE
    }

    /// The largest column index; columns run from its negation to it.
    pub open spec fn half_width(self) -> int {
        (self.width as int - 1) / 2
    }

    /// The largest row index; rows run from its negation to it.
    pub open spec fn half_height(self) -> int {
        (self.height as int - 1) / 2
    }

    /// Whether the tile lies inside the walls.
    pub open spec fn contains(self, p: GridPos) -> bool {
        -self.half_width() <= p.x <= self.half_width() && -self.half_height() <= p.y
            <= self.half_height()
    }

    /// The number of tiles.
    pub open spec fn cell_count(self) -> int {
        self.width * self.height
    }

    pub fn new(width: usize, height: usize) -> (g: Grid)
        requires
            width % 2 == 1,
            height % 2 == 1,
            width <= MAX_GRID_SIDE,
            height <= MAX_GRID_SIDE,
        ensures
            g.wf(),
            g.width == width,
            g.height == height,
    {
        Grid { width, height }
    }

    /// The tile the snake's head starts on.
    pub fn center(&self) -> (p: GridPos)
        ensures
            p == (GridPos { x: 0, y: 0 }),
            self.wf() ==> self.contains(p),
    {
        GridPos { x: 0, y: 0 }
    }

    pub fn in_bounds(&self, p: GridPos) -> (r: bool)
        requires
            self.wf(),
        ensures
            r == self.contains(p),
    {
        let hw = ((self.width - 1) / 2) as i64;
        let hh = ((self.height - 1) / 2) as i64;
        -hw <= p.x && p.x <= hw && -hh <= p.y && p.y <= hh
    }
}

/// Lemma: a tile inside a grid is near the centre.
pub proof fn lemma_contained_is_near(g: Grid, p: GridPos)
    requires
        g.wf(),
        g.contains(p),
    ensures
        p.is_near(),
{
}

/// Whether `cells` holds the tile `p`.
pub fn occupies(cells: &Vec<GridPos>, p: GridPos) -> (r: bool)
    ensures
        r == cells@.contains(p),
{
    let mut i: usize = 0;
    while i < cells.len()
        invariant
            i <= cells.len(),
            forall|j: int| 0 <= j < i ==> cells@[j] != p,
        decreases cells.len() - i,
    {
        if cells[i] == p {
            return true;
        }
        i += 1;
    }
    false
}

/// Whether `p` is a tile of `grid` that no tile of `occupied` covers.
pub open spec fn is_free(grid: Grid, occupied: Seq<GridPos>, p: GridPos) -> bool {
    grid.contains(p) && !occupied.contains(p)
}

/// Every free tile of the grid, once each, listed row by row from the bottom.
pub fn free_cells(grid: &Grid, occupied: &Vec<GridPos>) -> (r: Vec<GridPos>)
    requires
        grid.wf(),
    ensures
        forall|p: GridPos| #[trigger] r@.contains(p) <==> is_free(*grid, occupied@, p),
        r@.no_duplicates(),
{
    let hw = ((grid.width - 1) / 2) as i64;
    let hh = ((grid.height - 1) / 2) as i64;
    let mut r: Vec<GridPos> = Vec::new();
    let mut y: i64 = -hh;
    while y <= hh
        invariant
            grid.wf(),
            hw == grid.half_width(),
            hh == grid.half_height(),
            -hh <= y <= hh + 1,
            forall|p: GridPos| #[trigger]
                r@.contains(p) <==> (is_free(*grid, occupied@, p) && p.y < y),
            r@.no_duplicates(),
        decreases hh + 1 - y,
    {
        let mut x: i64 = -hw;
        while x <= hw
            invariant
                grid.wf(),
                hw == grid.half_width(),
                hh == grid.half_height(),
                -hh <= y <= hh,
                -hw <= x <= hw + 1,
                forall|p: GridPos| #[trigger]
                    r@.contains(p) <==> (is_free(*grid, occupied@, p) && (p.y < y || (p.y == y
                        && p.x < x))),
                r@.no_duplicates(),
            decreases hw + 1 - x,
        {
            let p = GridPos { x, y };
            if !occupies(occupied, p) {
                let ghost prev = r@;
                assert(!prev.contains(p));
                r.push(p);
                proof {
                    assert forall|i: int, j: int|
                        0 <= i < r@.len() && 0 <= j < r@.len() && i != j implies r@[i] != r@[j] by {
                        if i == prev.len() {
                            assert(r@[j] == prev[j]);
                        } else if j == prev.len() {
                            assert(r@[i] == prev[i]);
                        } else {
                            assert(r@[i] == prev[i] && r@[j] == prev[j]);
                        }
                    }
                    assert forall|q: GridPos| #[trigger]
                        r@.contains(q) <==> (is_free(*grid, occupied@, q) && (q.y < y || (q.y
                            == y && q.x < x + 1))) by {
                        if r@.contains(q) && q != p {
                            let k = r@.index_of(q);
                            assert(prev.contains(q)) by {
                                assert(prev[k] == q);
                            }
                        }
                        if q != p && (q.y < y || (q.y == y && q.x < x)) && is_free(
                            *grid,
                            occupied@,
                            q,
                        ) {
                            assert(prev.contains(q));
                            assert(r@[prev.index_of(q)] == q);
                        }
                        if q == p {
                            assert(r@[r@.len() - 1] == q);
                        }
                    }
                }
            }
            x += 1;
        }
        y += 1;
    }
    r
}

/// Every tile of the grid once, row by row from the bottom.
pub open spec fn all_cells(g: Grid) -> Seq<GridPos> {
    Seq::new(
        g.cell_count() as nat,
        |k: int|
            GridPos {
                x: (k % (g.width as int) - g.half_width()) as i64,
                y: (k / (g.width as int) - g.half_height()) as i64,
            },
    )
}

proof fn lemma_cell_index(g: Grid, k: int)
    requires
        g.wf(),
        0 <= k < g.cell_count(),
    ensures
        0 <= k % (g.width as int) < g.width,
        0 <= k / (g.width as int) < g.height,
        k == g.width * (k / (g.width as int)) + k % (g.width as int),
        g.contains(all_cells(g)[k]),
        all_cells(g)[k].x == k % (g.width as int) - g.half_width(),
        all_cells(g)[k].y == k / (g.width as int) - g.half_height(),
{
    let w = g.width as int;
    let h = g.height as int;
    lemma_fundamental_div_mod(k, w);
    let q = k / w;
    let r = k % w;
    assert(0 <= q < h) by (nonlinear_arith)
        requires
            k == w * q + r,
            0 <= r < w,
            0 <= k < w * h,
            w > 0,
    ;
}

/// Lemma: `all_cells` lists tiles of the grid, none twice.
pub proof fn lemma_all_cells(g: Grid)
    requires
        g.wf(),
    ensures
        all_cells(g).len() == g.cell_count(),
        all_cells(g).no_duplicates(),
        forall|k: int| 0 <= k < g.cell_count() ==> g.contains(#[trigger] all_cells(g)[k]),
{
    assert(g.width * g.height >= 0) by (nonlinear_arith)
        requires
            g.width >= 0,
            g.height >= 0,
    ;
    assert forall|k: int| 0 <= k < g.cell_count() implies g.contains(#[trigger] all_cells(g)[k]) by {
        lemma_cell_index(g, k);
    }
    assert forall|i: int, j: int|
        0 <= i < g.cell_count() && 0 <= j < g.cell_count() && i != j implies all_cells(g)[i]
        != all_cells(g)[j] by {
        lemma_cell_index(g, i);
        lemma_cell_index(g, j);
    }
}

/// Lemma: a grid holds a free tile whenever fewer tiles are occupied than the
/// grid has.
pub proof fn lemma_free_tile_exists(g: Grid, occupied: Seq<GridPos>)
    requires
        g.wf(),
        occupied.len() < g.cell_count(),
    ensures
        exists|p: GridPos| is_free(g, occupied, p),
{
    let a = all_cells(g);
    lemma_all_cells(g);
    if forall|p: GridPos| !is_free(g, occupied, p) {
        assert(a.to_set().subset_of(occupied.to_set())) by {
            assert forall|p: GridPos| a.to_set().contains(p) implies occupied.to_set().contains(p) by {
                let k = a.index_of(p);
                assert(g.contains(a[k]));
                assert(!is_free(g, occupied, p));
            }
        }
        a.unique_seq_to_set();
        occupied.lemma_cardinality_of_set();
        lemma_len_subset(a.to_set(), occupied.to_set());
        assert(false);
    }
}

} // verus!
