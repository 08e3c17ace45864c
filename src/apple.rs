use vstd::prelude::*;
use rand::Rng;
use crate::grid::{free_cells, is_free, lemma_free_tile_exists, Grid, GridPos};

verus! {

/// Relies on rand's `thread_rng` and `Rng::gen_range`: a value of the
/// half-open range `0..n`, which must not be empty (else it panics).
#[verifier::external_body]
fn random_index(n: usize) -> (r: usize)
    requires
        n > 0,
    ensures
        r < n,
{
    rand::thread_rng().gen_range(0..n)
}

/// The tile of `free` that `pick` chooses, counting round.
pub fn choose_cell(free: &Vec<GridPos>, pick: usize) -> (r: Option<GridPos>)
    ensures
        free@.len() == 0 ==> r.is_none(),
        free@.len() > 0 ==> r == Some(free@[pick as int % free@.len() as int]),
{
    if free.len() == 0 {
        None
    } else {
        Some(free[pick % free.len()])
    }
}

/// A tile of `grid` that no tile of `occupied` covers, each such tile
/// equally likely; `None` exactly when the grid has no free tile, which
/// cannot be while fewer tiles are occupied than the grid has.
pub fn gen_apple_location(grid: &Grid, occupied: &Vec<GridPos>) -> (r: Option<GridPos>)
    requires
        grid.wf(),
    ensures
        match r {
            Some(p) => is_free(*grid, occupied@, p),
            None => forall|p: GridPos| !is_free(*grid, occupied@, p),
        },
        occupied@.len() < grid.cell_count() ==> r.is_some(),
{
    let free = free_cells(grid, occupied);
    if free.len() == 0 {
        proof {
            if occupied@.len() < grid.cell_count() {
                lemma_free_tile_exists(*grid, occupied@);
            }
            assert forall|p: GridPos| !is_free(*grid, occupied@, p) by {
                if is_free(*grid, occupied@, p) {
                    assert(free@.contains(p));
                }
            }
        }
        None
    } else {
        let pick = random_index(free.len());
        let r = choose_cell(&free, pick);
        proof {
            let k = pick as int % free@.len() as int;
            assert(free@.contains(free@[k]));
        }
        r
    }
}

} // verus!
