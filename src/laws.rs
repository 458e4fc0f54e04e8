//! Properties of the engine that span more than one clause or more than one call,
//! proved over the spec functions that the handlers' contracts use.
use vstd::prelude::*;

use crate::ai::{asteroid_answered, asteroid_cells, sunray_cells, sunray_rocket};
use crate::reserve::{
    count_charged, first_with, lemma_count_charge, lemma_count_discharge, lemma_first_with,
};

verus! {

/// A sunray goes to the lowest-index empty cell: every cell before it is charged,
/// no other cell changes, and that cell stays charged unless it was spent at once
/// on a rocket, in which case a rocket is now stored.
pub proof fn lemma_sunray_takes_first_empty(cells: Seq<bool>, rocket: bool, allowed: bool)
    requires
        first_with(cells, false) < cells.len(),
    ensures
        ({
            let i = first_with(cells, false);
            let after = sunray_cells(cells, rocket, allowed);
            &&& !cells[i]
            &&& forall|j: int| 0 <= j < i ==> cells[j]
            &&& after.len() == cells.len()
            &&& forall|j: int| 0 <= j < cells.len() && j != i ==> after[j] == cells[j]
            &&& after[i] || sunray_rocket(cells, rocket, allowed)
            &&& (rocket || !allowed) ==> after[i]
        }),
{
    lemma_first_with(cells, false);
}

/// When every cell is charged, a sunray changes neither the cells nor the rocket slot.
pub proof fn lemma_sunray_on_full_reserve(cells: Seq<bool>, rocket: bool, allowed: bool)
    requires
        forall|j: int| 0 <= j < cells.len() ==> cells[j],
    ensures
        sunray_cells(cells, rocket, allowed) == cells,
        sunray_rocket(cells, rocket, allowed) == rocket,
{
    lemma_first_with(cells, false);
}

/// A stored rocket is launched against an asteroid without touching any cell, even
/// when charged cells are there.
pub proof fn lemma_stored_rocket_first(cells: Seq<bool>, allowed: bool)
    ensures
        asteroid_answered(cells, true, allowed),
        asteroid_cells(cells, true, allowed) == cells,
{
}

/// On a planet that may store a rocket and has none, a sunray into an empty cell
/// followed by an asteroid launches a rocket, and leaves one charged cell fewer than
/// there were once the sunray had charged its cell.
pub proof fn lemma_sunray_then_asteroid(cells: Seq<bool>)
    requires
        first_with(cells, false) < cells.len(),
    ensures
        ({
            let charged = cells.update(first_with(cells, false), true);
            let mid = sunray_cells(cells, false, true);
            let stored = sunray_rocket(cells, false, true);
            &&& stored
            &&& asteroid_answered(mid, stored, true)
            &&& count_charged(asteroid_cells(mid, stored, true)) + 1 == count_charged(charged)
        }),
{
    lemma_first_with(cells, false);
    lemma_count_charge(cells, first_with(cells, false));
}

/// A sunray adds one charge to the reserve exactly when it finds an empty cell and
/// no rocket is built from it; otherwise the number of charged cells stays.
pub proof fn lemma_sunray_count(cells: Seq<bool>, rocket: bool, allowed: bool)
    ensures
        count_charged(sunray_cells(cells, rocket, allowed)) == count_charged(cells) + if first_with(
            cells,
            false,
        ) < cells.len() && (rocket || !allowed) {
            1nat
        } else {
            0nat
        },
{
    lemma_first_with(cells, false);
    if first_with(cells, false) < cells.len() {
        lemma_count_charge(cells, first_with(cells, false));
    }
}

/// An asteroid spends one charged cell exactly when no rocket is stored, the planet
/// may store one, and a charged cell is there; otherwise no cell changes.
pub proof fn lemma_asteroid_count(cells: Seq<bool>, rocket: bool, allowed: bool)
    ensures
        count_charged(asteroid_cells(cells, rocket, allowed)) + if !rocket && allowed
            && first_with(cells, true) < cells.len() {
            1nat
        } else {
            0nat
        } == count_charged(cells),
{
    lemma_first_with(cells, true);
    if first_with(cells, true) < cells.len() {
        lemma_count_discharge(cells, first_with(cells, true));
    }
}

} // verus!
