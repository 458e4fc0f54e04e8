//! The planet's engine: a start/stop gate in front of three handlers, one for
//! sunrays, one for asteroids and one for explorers' queries.
//!
//! What each handler does to the planet state is stated over the model of
//! `crate::game` by the spec functions of this module.
use vstd::prelude::*;
use common_game::components::planet::PlanetState;
use common_game::components::resource::{Combinator, Generator};
use common_game::components::rocket::Rocket;
use common_game::components::sunray::Sunray;

use crate::game::{
    basic_recipes_of, cells_of, complex_recipes_of, id_of, oxygen_recipe_of, request_operands,
    request_recipe, resource_kind, rocket_of, rockets_allowed_of, same_rocket_and_id,
};
use crate::kinds::Basic;
use crate::protocol::{Ack, Query, Reply};
use crate::reserve::{charged_count, count_charged, first_cell_with, first_with, lemma_first_with};

verus! {

/// The reason given for every refused combination.
pub open spec fn rejection_reason() -> Seq<char> {
    "this planet does not combine resources"@
}

/// The cells after a sunray: the first empty cell is charged, and then spent on a
/// rocket when the planet may store one and has none yet.
pub open spec fn sunray_cells(cells: Seq<bool>, rocket: bool, allowed: bool) -> Seq<bool> {
    let i = first_with(cells, false);
    if i < cells.len() && (rocket || !allowed) {
        cells.update(i, true)
    } else {
        cells
    }
}

/// Whether a rocket is stored after a sunray.
pub open spec fn sunray_rocket(cells: Seq<bool>, rocket: bool, allowed: bool) -> bool {
    rocket || (allowed && first_with(cells, false) < cells.len())
}

/// The cells after an asteroid: a stored rocket is launched as it is; without one,
/// the first charged cell is spent on a new rocket when the planet may store one.
pub open spec fn asteroid_cells(cells: Seq<bool>, rocket: bool, allowed: bool) -> Seq<bool> {
    let i = first_with(cells, true);
    if !rocket && allowed && i < cells.len() {
        cells.update(i, false)
    } else {
        cells
    }
}

/// Whether a rocket is launched against an asteroid.
pub open spec fn asteroid_answered(cells: Seq<bool>, rocket: bool, allowed: bool) -> bool {
    rocket || (allowed && first_with(cells, true) < cells.len())
}

/// The cells after an oxygen request: the first charged cell is spent when the
/// generator holds the oxygen recipe.
pub open spec fn oxygen_cells(cells: Seq<bool>, recipe: bool) -> Seq<bool> {
    let i = first_with(cells, true);
    if recipe && i < cells.len() {
        cells.update(i, false)
    } else {
        cells
    }
}

/// Whether an oxygen request is answered.
pub open spec fn oxygen_made(cells: Seq<bool>, recipe: bool) -> bool {
    recipe && first_with(cells, true) < cells.len()
}

/// A count of cells as the reply field holds it: saturated at `u32::MAX`.
pub open spec fn clamp_u32(n: nat) -> u32 {
    if n > u32::MAX {
        u32::MAX
    } else {
        n as u32
    }
}

/// `post` is what a sunray makes of `pre` on a running planet.
pub open spec fn after_sunray(pre: PlanetState, post: PlanetState) -> bool {
    &&& cells_of(post) == sunray_cells(cells_of(pre), rocket_of(pre), rockets_allowed_of(pre))
    &&& rocket_of(post) == sunray_rocket(cells_of(pre), rocket_of(pre), rockets_allowed_of(pre))
    &&& rockets_allowed_of(post) == rockets_allowed_of(pre)
    &&& id_of(post) == id_of(pre)
}

/// `post` is what an asteroid makes of `pre` on a running planet.
pub open spec fn after_asteroid(pre: PlanetState, post: PlanetState) -> bool {
    &&& cells_of(post) == asteroid_cells(cells_of(pre), rocket_of(pre), rockets_allowed_of(pre))
    &&& !rocket_of(post)
    &&& rockets_allowed_of(post) == rockets_allowed_of(pre)
    &&& id_of(post) == id_of(pre)
}

/// The reply that a running planet owes to a query that leaves the state alone.
pub open spec fn plain_reply(
    q: Query,
    state: PlanetState,
    generator: Generator,
    comb: Combinator,
    r: Option<Reply>,
) -> bool {
    match q {
        Query::SupportedResources => r matches Some(Reply::SupportedResources(set)) && set@
            == basic_recipes_of(generator),
        Query::SupportedCombinations => r matches Some(Reply::SupportedCombinations(set)) && set@
            == complex_recipes_of(comb),
        Query::Combine(req) => r matches Some(Reply::Rejected(why, a, b)) && why@
            == rejection_reason() && (resource_kind(a), resource_kind(b))
            == request_recipe(req).operands(),
        Query::AvailableCells => r matches Some(Reply::AvailableCells(n)) && n == clamp_u32(
            count_charged(cells_of(state)),
        ),
        Query::Generate(kind) => kind != Basic::Oxygen && r is None,
    }
}

/// The engine of one planet. It starts stopped; while stopped it answers nothing
/// and leaves the planet state alone.
pub struct AI {
    pub is_stopped: bool,
}

/// Spends the `i`-th cell on a rocket, if the planet state allows it; tells whether a
/// rocket was built.
fn build_rocket_at(state: &mut PlanetState, i: usize) -> (built: bool)
    requires
        i < cells_of(*old(state)).len(),
    ensures
        built == (rockets_allowed_of(*old(state)) && !rocket_of(*old(state)) && cells_of(
            *old(state),
        )[i as int]),
        built ==> cells_of(*final(state)) == cells_of(*old(state)).update(i as int, false),
        built ==> rocket_of(*final(state)),
        !built ==> cells_of(*final(state)) == cells_of(*old(state)),
        !built ==> rocket_of(*final(state)) == rocket_of(*old(state)),
        rockets_allowed_of(*final(state)) == rockets_allowed_of(*old(state)),
        id_of(*final(state)) == id_of(*old(state)),
{
    match state.build_rocket(i) {
        Ok(()) => true,
        Err(_) => false,
    }
}

impl AI {
    /// A stopped engine.
    pub fn new() -> (ai: AI)
        ensures
            ai.is_stopped,
    {
        AI { is_stopped: true }
    }

    /// Starts the engine; starting a running engine changes nothing.
    pub fn start(&mut self, _state: &PlanetState)
        ensures
            !final(self).is_stopped,
    {
        self.is_stopped = false;
    }

    /// Stops the engine; stopping a stopped engine changes nothing.
    pub fn stop(&mut self, _state: &PlanetState)
        ensures
            final(self).is_stopped,
    {
        self.is_stopped = true;
    }

    /// Whether the engine is running.
    pub fn is_active(&self) -> (r: bool)
        ensures
            r == !self.is_stopped,
    {
        !self.is_stopped
    }

    /// Takes a sunray: charges the first empty cell, if any, and tries to build a
    /// rocket from it. A running engine always acknowledges with the planet id.
    pub fn handle_sunray(&mut self, state: &mut PlanetState, sunray: Sunray) -> (r: Option<Ack>)
        ensures
            *final(self) == *old(self),
            old(self).is_stopped ==> r is None && *final(state) == *old(state),
            !old(self).is_stopped ==> r == Some(Ack { planet_id: id_of(*old(state)) }),
            !old(self).is_stopped ==> after_sunray(*old(state), *final(state)),
    {
        if self.is_stopped {
            return None;
        }
        let ghost cells = cells_of(*state);
        proof {
            lemma_first_with(cells, false);
        }
        match first_cell_with(state, false) {
            Some(i) => {
                state.cell_mut(i).charge(sunray);
                let built = build_rocket_at(state, i);
                proof {
                    if built {
                        assert(cells.update(i as int, true).update(i as int, false) =~= cells);
                    }
                }
            },
            None => {},
        }
        Some(Ack { planet_id: state.id() })
    }

    /// Meets an asteroid: launches the stored rocket, or else builds one from the
    /// first charged cell and launches it; `None` when neither is possible.
    pub fn handle_asteroid(
        &mut self,
        state: &mut PlanetState,
        _generator: &Generator,
        _comb: &Combinator,
    ) -> (r: Option<Rocket>)
        ensures
            *final(self) == *old(self),
            old(self).is_stopped ==> r is None && *final(state) == *old(state),
            !old(self).is_stopped ==> r is Some == asteroid_answered(
                cells_of(*old(state)),
                rocket_of(*old(state)),
                rockets_allowed_of(*old(state)),
            ),
            !old(self).is_stopped ==> after_asteroid(*old(state), *final(state)),
    {
        if self.is_stopped {
            return None;
        }
        if state.has_rocket() {
            return state.take_rocket();
        }
        proof {
            lemma_first_with(cells_of(*state), true);
        }
        match first_cell_with(state, true) {
            Some(i) => {
                if build_rocket_at(state, i) {
                    state.take_rocket()
                } else {
                    None
                }
            },
            None => None,
        }
    }

    /// Answers an explorer's query. Oxygen is generated from the first charged cell;
    /// other basic resources are not generated, and combinations are refused with
    /// the two resources handed back.
    pub fn handle_explorer_msg(
        &mut self,
        state: &mut PlanetState,
        generator: &Generator,
        comb: &Combinator,
        msg: Query,
    ) -> (r: Option<Reply>)
        ensures
            *final(self) == *old(self),
            old(self).is_stopped ==> r is None && *final(state) == *old(state),
            !old(self).is_stopped && msg == Query::Generate(Basic::Oxygen) ==> {
                &&& r is Some == oxygen_made(cells_of(*old(state)), oxygen_recipe_of(*generator))
                &&& r matches Some(reply) ==> reply is Generated
                &&& cells_of(*final(state)) == oxygen_cells(
                    cells_of(*old(state)),
                    oxygen_recipe_of(*generator),
                )
                &&& same_rocket_and_id(*final(state), *old(state))
            },
            !old(self).is_stopped && msg != Query::Generate(Basic::Oxygen) ==> {
                &&& plain_reply(msg, *old(state), *generator, *comb, r)
                &&& *final(state) == *old(state)
            },
    {
        if self.is_stopped {
            return None;
        }
        match msg {
            Query::SupportedResources => Some(
                Reply::SupportedResources(generator.all_available_recipes()),
            ),
            Query::SupportedCombinations => Some(
                Reply::SupportedCombinations(comb.all_available_recipes()),
            ),
            Query::Generate(Basic::Oxygen) => {
                let ghost cells = cells_of(*state);
                proof {
                    lemma_first_with(cells, true);
                }
                match first_cell_with(state, true) {
                    Some(i) => match generator.make_oxygen(state.cell_mut(i)) {
                        Ok(oxygen) => Some(Reply::Generated(oxygen)),
                        Err(_) => {
                            assert(cells.update(i as int, cells[i as int]) =~= cells);
                            None
                        },
                    },
                    None => None,
                }
            },
            Query::Generate(_) => None,
            Query::Combine(req) => {
                let (a, b) = request_operands(req);
                Some(Reply::Rejected("this planet does not combine resources".to_owned(), a, b))
            },
            Query::AvailableCells => {
                let n = charged_count(state);
                let count: u32 = if n > u32::MAX as usize {
                    u32::MAX
                } else {
                    n as u32
                };
                Some(Reply::AvailableCells(count))
            },
        }
    }
}

} // verus!
