//! Properties of a row of cells, such as the body of a snake, and the
//! functions that decide them.

use crate::geometry::Point;
use vstd::prelude::*;

verus! {

/// Every cell lies on a board of the given size.
pub open spec fn all_within(cells: Seq<Point>, width: nat, height: nat) -> bool {
    forall|i: int| 0 <= i < cells.len() ==> (#[trigger] cells[i]).within(width, height)
}

/// Each cell shares an edge with the one after it.
pub open spec fn linked(cells: Seq<Point>) -> bool {
    forall|i: int| 0 <= i < cells.len() - 1 ==> (#[trigger] cells[i]).adjacent(cells[i + 1])
}

/// Whether the given cell is among the cells.
pub fn covers(cells: &Vec<Point>, cell: Point) -> (found: bool)
    ensures
        found == cells@.contains(cell),
{
    let mut i: usize = 0;
    while i < cells.len()
        invariant
            i <= cells.len(),
            forall|j: int| 0 <= j < i ==> cells@[j] != cell,
        decreases cells.len() - i,
    {
        if cells[i] == cell {
            return true;
        }
        i += 1;
    }
    false
}

/// Whether every cell lies on a board of the given size.
pub fn is_within(cells: &Vec<Point>, width: u16, height: u16) -> (ok: bool)
    ensures
        ok == all_within(cells@, width as nat, height as nat),
{
    let mut i: usize = 0;
    while i < cells.len()
        invariant
            i <= cells.len(),
            forall|j: int| 0 <= j < i ==> (#[trigger] cells@[j]).within(width as nat, height as nat),
        decreases cells.len() - i,
    {
        let here = cells[i];
        if here.x >= width || here.y >= height {
            return false;
        }
        i += 1;
    }
    true
}

/// Whether no cell occurs twice.
pub fn is_distinct(cells: &Vec<Point>) -> (ok: bool)
    ensures
        ok == cells@.no_duplicates(),
{
    let mut i: usize = 0;
    while i < cells.len()
        invariant
            i <= cells.len(),
            forall|a: int, b: int| 0 <= a < i && a < b < cells.len() ==> cells@[a] != cells@[b],
        decreases cells.len() - i,
    {
        let here = cells[i];
        let mut j: usize = i + 1;
        while j < cells.len()
            invariant
                i < j <= cells.len(),
                here == cells@[i as int],
                forall|b: int| i < b < j ==> cells@[i as int] != cells@[b],
            decreases cells.len() - j,
        {
            if here == cells[j] {
                return false;
            }
            j += 1;
        }
        i += 1;
    }
    assert forall|a: int, b: int| 0 <= a < cells.len() && 0 <= b < cells.len() && a != b implies cells@[a]
        != cells@[b] by {
        if a < b {
        } else {
            assert(cells@[b] != cells@[a]);
        }
    }
    true
}

/// Whether each cell shares an edge with the one after it.
pub fn is_linked(cells: &Vec<Point>) -> (ok: bool)
    ensures
        ok == linked(cells@),
{
    let mut i: usize = 1;
    while i < cells.len()
        invariant
            1 <= i,
            forall|j: int| 0 <= j < i - 1 && j < cells.len() - 1 ==> (#[trigger] cells@[j]).adjacent(
                cells@[j + 1],
            ),
        decreases cells.len() - i,
    {
        if !cells[i - 1].is_adjacent(cells[i]) {
            return false;
        }
        i += 1;
    }
    true
}

} // verus!
