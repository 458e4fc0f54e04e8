//! What this library relies on from `common_game`: its types, the names that
//! stand for what its values hold, and the contracts of the calls made on them.
//!
//! A `PlanetState` is modelled by four names: the charge of each energy cell in
//! index order (`cells_of`), whether a rocket is stored (`rocket_of`), whether
//! the planet type may store one at all (`rockets_allowed_of`) and the planet id
//! (`id_of`). Each contract below is read off the crate's own source.
use vstd::prelude::*;
use common_game::components::energy_cell::EnergyCell;
use common_game::components::planet::PlanetState;
use common_game::components::resource::{
    BasicResourceType, Combinator, ComplexResourceRequest, ComplexResourceType, GenericResource,
    Generator, Oxygen,
};
use common_game::components::rocket::Rocket;
use common_game::components::sunray::Sunray;
use std::collections::HashSet;

use crate::kinds::{Kind, Recipe};

verus! {

#[verifier::external_type_specification]
#[verifier::external_body]
pub struct ExPlanetState(PlanetState);

#[verifier::external_type_specification]
#[verifier::external_body]
pub struct ExEnergyCell(EnergyCell);

#[verifier::external_type_specification]
#[verifier::external_body]
pub struct ExSunray(Sunray);

#[verifier::external_type_specification]
#[verifier::external_body]
pub struct ExRocket(Rocket);

#[verifier::external_type_specification]
#[verifier::external_body]
pub struct ExGenerator(Generator);

#[verifier::external_type_specification]
#[verifier::external_body]
pub struct ExCombinator(Combinator);

#[verifier::external_type_specification]
#[verifier::external_body]
pub struct ExOxygen(Oxygen);

#[verifier::external_type_specification]
#[verifier::external_body]
pub struct ExBasicResourceType(BasicResourceType);

#[verifier::external_type_specification]
#[verifier::external_body]
pub struct ExComplexResourceType(ComplexResourceType);

#[verifier::external_type_specification]
#[verifier::external_body]
pub struct ExGenericResource(GenericResource);

#[verifier::external_type_specification]
#[verifier::external_body]
pub struct ExComplexResourceRequest(ComplexResourceRequest);

/// The charge of each energy cell of a planet, in index order.
pub uninterp spec fn cells_of(s: PlanetState) -> Seq<bool>;

/// Whether a rocket is stored in the planet state.
pub uninterp spec fn rocket_of(s: PlanetState) -> bool;

/// Whether the planet type allows a rocket to be stored.
pub uninterp spec fn rockets_allowed_of(s: PlanetState) -> bool;

/// The planet id.
pub uninterp spec fn id_of(s: PlanetState) -> u32;

/// Whether an energy cell holds a charge.
pub uninterp spec fn charged_of(c: EnergyCell) -> bool;

/// The basic resource recipes that a generator holds.
pub uninterp spec fn basic_recipes_of(g: Generator) -> Set<BasicResourceType>;

/// Whether a generator holds the oxygen recipe.
pub uninterp spec fn oxygen_recipe_of(g: Generator) -> bool;

/// The complex resource recipes that a combinator holds.
pub uninterp spec fn complex_recipes_of(c: Combinator) -> Set<ComplexResourceType>;

/// Which complex resource a combination request asks for.
pub uninterp spec fn request_recipe(r: ComplexResourceRequest) -> Recipe;

/// Which resource a generic resource holds.
pub uninterp spec fn resource_kind(g: GenericResource) -> Kind;

/// The parts of a planet state that a call on its cells leaves alone.
pub open spec fn same_rocket_and_id(a: PlanetState, b: PlanetState) -> bool {
    &&& rocket_of(a) == rocket_of(b)
    &&& rockets_allowed_of(a) == rockets_allowed_of(b)
    &&& id_of(a) == id_of(b)
}

/// Relies on `PlanetState::id`: returns the stored id.
pub assume_specification[ PlanetState::id ](s: &PlanetState) -> (r: u32)
    ensures
        r == id_of(*s),
;

/// Relies on `PlanetState::cells_count`: the length of the cell vector.
pub assume_specification[ PlanetState::cells_count ](s: &PlanetState) -> (r: usize)
    ensures
        r == cells_of(*s).len(),
;

/// Relies on `PlanetState::cell`: a borrow of the `i`-th cell (it panics out of bounds).
pub assume_specification[ PlanetState::cell ](s: &PlanetState, i: usize) -> (r: &EnergyCell)
    requires
        i < cells_of(*s).len(),
    ensures
        charged_of(*r) == cells_of(*s)[i as int],
;

/// Relies on `PlanetState::cell_mut`: a mutable borrow of the `i`-th cell (it panics out
/// of bounds); what is written through it becomes the `i`-th cell.
pub assume_specification[ PlanetState::cell_mut ](s: &mut PlanetState, i: usize) -> (r:
    &mut EnergyCell)
    requires
        i < cells_of(*old(s)).len(),
    ensures
        charged_of(*r) == cells_of(*old(s))[i as int],
        cells_of(*final(s)) == cells_of(*old(s)).update(i as int, charged_of(*final(r))),
        same_rocket_and_id(*final(s), *old(s)),
;

/// Relies on `EnergyCell::is_charged`: returns the charge flag.
pub assume_specification[ EnergyCell::is_charged ](c: &EnergyCell) -> (r: bool)
    ensures
        r == charged_of(*c),
;

/// Relies on `EnergyCell::charge`: the cell is charged afterwards, whatever it held.
pub assume_specification[ EnergyCell::charge ](c: &mut EnergyCell, sunray: Sunray)
    ensures
        charged_of(*final(c)),
;

/// Relies on `PlanetState::has_rocket`: whether the rocket slot holds one.
pub assume_specification[ PlanetState::has_rocket ](s: &PlanetState) -> (r: bool)
    ensures
        r == rocket_of(*s),
;

/// Relies on `PlanetState::take_rocket`: `Option::take` on the rocket slot.
pub assume_specification[ PlanetState::take_rocket ](s: &mut PlanetState) -> (r: Option<Rocket>)
    ensures
        r is Some == rocket_of(*old(s)),
        !rocket_of(*final(s)),
        cells_of(*final(s)) == cells_of(*old(s)),
        rockets_allowed_of(*final(s)) == rockets_allowed_of(*old(s)),
        id_of(*final(s)) == id_of(*old(s)),
;

/// Relies on `PlanetState::build_rocket`: it fails, changing nothing, when the planet
/// type forbids rockets, when one is stored already, or when the `i`-th cell is not
/// charged; otherwise it discharges that cell and stores a rocket. It indexes the
/// cells, so `i` must be in bounds.
pub assume_specification[ PlanetState::build_rocket ](s: &mut PlanetState, i: usize) -> (r:
    Result<(), String>)
    requires
        i < cells_of(*old(s)).len(),
    ensures
        r is Ok == (rockets_allowed_of(*old(s)) && !rocket_of(*old(s)) && cells_of(
            *old(s),
        )[i as int]),
        r is Ok ==> cells_of(*final(s)) == cells_of(*old(s)).update(i as int, false),
        r is Ok ==> rocket_of(*final(s)),
        r is Err ==> cells_of(*final(s)) == cells_of(*old(s)),
        r is Err ==> rocket_of(*final(s)) == rocket_of(*old(s)),
        rockets_allowed_of(*final(s)) == rockets_allowed_of(*old(s)),
        id_of(*final(s)) == id_of(*old(s)),
;

/// Relies on `Generator::all_available_recipes`: a copy of the recipe set.
pub assume_specification[ Generator::all_available_recipes ](g: &Generator) -> (r: HashSet<
    BasicResourceType,
>)
    ensures
        r@ == basic_recipes_of(*g),
;

/// Relies on `Combinator::all_available_recipes`: a copy of the recipe set.
pub assume_specification[ Combinator::all_available_recipes ](c: &Combinator) -> (r: HashSet<
    ComplexResourceType,
>)
    ensures
        r@ == complex_recipes_of(*c),
;

/// Relies on `Generator::make_oxygen`: it succeeds when the generator holds the oxygen
/// recipe and the cell is charged, and then discharges the cell; a failure leaves the
/// cell as it was.
pub assume_specification[ Generator::make_oxygen ](g: &Generator, c: &mut EnergyCell) -> (r:
    Result<Oxygen, String>)
    ensures
        r is Ok == (oxygen_recipe_of(*g) && charged_of(*old(c))),
        r is Ok ==> !charged_of(*final(c)),
        r is Err ==> charged_of(*final(c)) == charged_of(*old(c)),
;

/// Relies on the variants of `ComplexResourceRequest` and on the `to_generic`
/// conversion of each resource: the two resources that a request carries, moved out
/// in the order of its variant.
#[verifier::external_body]
pub(crate) fn request_operands(req: ComplexResourceRequest) -> (r: (
    GenericResource,
    GenericResource,
))
    ensures
        (resource_kind(r.0), resource_kind(r.1)) == request_recipe(req).operands(),
{
    match req {
        ComplexResourceRequest::Water(a, b) => (a.to_generic(), b.to_generic()),
        ComplexResourceRequest::Diamond(a, b) => (a.to_generic(), b.to_generic()),
        ComplexResourceRequest::Life(a, b) => (a.to_generic(), b.to_generic()),
        ComplexResourceRequest::Robot(a, b) => (a.to_generic(), b.to_generic()),
        ComplexResourceRequest::Dolphin(a, b) => (a.to_generic(), b.to_generic()),
        ComplexResourceRequest::AIPartner(a, b) => (a.to_generic(), b.to_generic()),
    }
}

} // verus!
