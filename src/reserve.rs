//! The energy reserve seen as a sequence of charge flags: the index-order scans
//! for the first cell in a given state, the count of charged cells, and the
//! executable scans over a planet state that compute them.
use vstd::prelude::*;
use common_game::components::planet::PlanetState;

use crate::game::cells_of;

verus! {

/// The lowest index whose flag is `v`, or the length when there is none.
pub open spec fn first_with(cells: Seq<bool>, v: bool) -> int
    decreases cells.len(),
{
    if cells.len() == 0 {
        0
    } else if cells[0] == v {
        0
    } else {
        1 + first_with(cells.subrange(1, cells.len() as int), v)
    }
}

/// The number of charged cells.
pub open spec fn count_charged(cells: Seq<bool>) -> nat
    decreases cells.len(),
{
    if cells.len() == 0 {
        0
    } else {
        count_charged(cells.drop_last()) + if cells.last() {
            1nat
        } else {
            0nat
        }
    }
}

/// `first_with` is the lowest index holding `v`, and the length when no index does.
pub proof fn lemma_first_with(cells: Seq<bool>, v: bool)
    ensures
        0 <= first_with(cells, v) <= cells.len(),
        forall|j: int| 0 <= j < first_with(cells, v) ==> cells[j] != v,
        first_with(cells, v) < cells.len() ==> cells[first_with(cells, v)] == v,
    decreases cells.len(),
{
    if cells.len() > 0 && cells[0] != v {
        let rest = cells.subrange(1, cells.len() as int);
        lemma_first_with(rest, v);
        assert forall|j: int| 0 <= j < first_with(cells, v) implies cells[j] != v by {
            if j > 0 {
                assert(cells[j] == rest[j - 1]);
            }
        }
    }
}

/// An index before which no flag is `v`, and which holds `v` or is the length, is
/// `first_with`.
pub proof fn lemma_first_with_at(cells: Seq<bool>, v: bool, i: int)
    requires
        0 <= i <= cells.len(),
        forall|j: int| 0 <= j < i ==> cells[j] != v,
        i < cells.len() ==> cells[i] == v,
    ensures
        first_with(cells, v) == i,
{
    lemma_first_with(cells, v);
}

/// Setting one uncharged flag raises the count by one.
pub proof fn lemma_count_charge(cells: Seq<bool>, i: int)
    requires
        0 <= i < cells.len(),
        !cells[i],
    ensures
        count_charged(cells.update(i, true)) == count_charged(cells) + 1,
    decreases cells.len(),
{
    let up = cells.update(i, true);
    if i == cells.len() - 1 {
        assert(up.drop_last() =~= cells.drop_last());
    } else {
        lemma_count_charge(cells.drop_last(), i);
        assert(up.drop_last() =~= cells.drop_last().update(i, true));
    }
}

/// Clearing one charged flag lowers the count by one.
pub proof fn lemma_count_discharge(cells: Seq<bool>, i: int)
    requires
        0 <= i < cells.len(),
        cells[i],
    ensures
        count_charged(cells.update(i, false)) + 1 == count_charged(cells),
{
    let down = cells.update(i, false);
    lemma_count_charge(down, i);
    assert(down.update(i, true) =~= cells);
}

/// The count never exceeds the number of cells.
pub proof fn lemma_count_bound(cells: Seq<bool>)
    ensures
        count_charged(cells) <= cells.len(),
    decreases cells.len(),
{
    if cells.len() > 0 {
        lemma_count_bound(cells.drop_last());
    }
}

/// The index of the first cell whose charge is `v`, scanning in index order.
pub fn first_cell_with(state: &PlanetState, v: bool) -> (r: Option<usize>)
    ensures
        match r {
            Some(i) => i == first_with(cells_of(*state), v) && i < cells_of(*state).len(),
            None => first_with(cells_of(*state), v) == cells_of(*state).len(),
        },
{
    let n = state.cells_count();
    let mut i: usize = 0;
    while i < n
        invariant
            n == cells_of(*state).len(),
            i <= n,
            forall|j: int| 0 <= j < i ==> cells_of(*state)[j] != v,
        decreases n - i,
    {
        if state.cell(i).is_charged() == v {
            proof {
                lemma_first_with_at(cells_of(*state), v, i as int);
            }
            return Some(i);
        }
        i = i + 1;
    }
    proof {
        lemma_first_with_at(cells_of(*state), v, i as int);
    }
    None
}

/// The number of charged cells.
pub fn charged_count(state: &PlanetState) -> (r: usize)
    ensures
        r == count_charged(cells_of(*state)),
{
    let n = state.cells_count();
    let ghost cells = cells_of(*state);
    let mut i: usize = 0;
    let mut count: usize = 0;
    while i < n
        invariant
            n == cells.len(),
            cells == cells_of(*state),
            i <= n,
            count == count_charged(cells.subrange(0, i as int)),
        decreases n - i,
    {
        proof {
            assert(cells.subrange(0, i + 1).drop_last() =~= cells.subrange(0, i as int));
            lemma_count_bound(cells.subrange(0, i as int));
        }
        if state.cell(i).is_charged() {
            count = count + 1;
        }
        i = i + 1;
    }
    assert(cells.subrange(0, n as int) =~= cells);
    count
}

} // verus!
