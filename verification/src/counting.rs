//! How many distinct cells a board can hold.

use crate::geometry::Point;
use vstd::prelude::*;
use vstd::set_lib::{lemma_int_range, lemma_len_subset, set_int_range};

verus! {

/// Position of a cell when the board's rows are laid end to end.
pub open spec fn cell_index(p: Point, width: nat) -> int {
    p.y * width + p.x
}

/// On a board of the given size every cell has an index below the board's
/// area, and two cells with one index are one cell.
pub proof fn lemma_cell_index(p: Point, q: Point, width: nat, height: nat)
    requires
        p.within(width, height),
        q.within(width, height),
    ensures
        0 <= cell_index(p, width) < width * height,
        cell_index(p, width) == cell_index(q, width) ==> p == q,
{
    assert(0 <= p.y * width && p.y * width + width <= width * height) by (nonlinear_arith)
        requires
            0 <= p.y < height,
    ;
    if p.y < q.y {
        assert(p.y * width + width <= q.y * width) by (nonlinear_arith)
            requires
                p.y < q.y,
        ;
    }
    if q.y < p.y {
        assert(q.y * width + width <= p.y * width) by (nonlinear_arith)
            requires
                q.y < p.y,
        ;
    }
}

/// Cells that are pairwise distinct and all on the board are no more than the
/// board's area.
pub proof fn lemma_distinct_cells_fit(cells: Seq<Point>, width: nat, height: nat)
    requires
        cells.no_duplicates(),
        forall|i: int| 0 <= i < cells.len() ==> (#[trigger] cells[i]).within(width, height),
    ensures
        cells.len() <= width * height,
{
    let indices = Seq::new(cells.len(), |i: int| cell_index(cells[i], width));
    assert forall|i: int, j: int|
        0 <= i < indices.len() && 0 <= j < indices.len() && i != j implies indices[i]
        != indices[j] by {
        lemma_cell_index(cells[i], cells[j], width, height);
    }
    indices.unique_seq_to_set();
    let area = set_int_range(0, (width * height) as int);
    assert forall|a: int| indices.to_set().contains(a) implies area.contains(a) by {
        let i = choose|i: int| 0 <= i < indices.len() && indices[i] == a;
        lemma_cell_index(cells[i], cells[i], width, height);
    }
    lemma_int_range(0, (width * height) as int);
    lemma_len_subset(indices.to_set(), area);
}

} // verus!
