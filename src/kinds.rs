//! Plain descriptions of the resources of the game: which basic resource a
//! generation request names, and which inputs each combination recipe takes.
use vstd::prelude::*;

verus! {

/// A basic resource, made from one charged energy cell.
#[derive(Debug, Clone, Copy, PartialEq, Eq, Structural)]
pub enum Basic {
    Oxygen,
    Hydrogen,
    Carbon,
    Silicon,
}

/// A complex resource, made by combining two other resources.
#[derive(Debug, Clone, Copy, PartialEq, Eq, Structural)]
pub enum Recipe {
    Water,
    Diamond,
    Life,
    Robot,
    Dolphin,
    AIPartner,
}

/// Any resource, basic or complex.
#[derive(Debug, Clone, Copy, PartialEq, Eq, Structural)]
pub enum Kind {
    Basic(Basic),
    Complex(Recipe),
}

impl Recipe {
    /// The two inputs of the recipe, in the order in which a request carries them.
    pub open spec fn operands(self) -> (Kind, Kind) {
        match self {
            Recipe::Water => (Kind::Basic(Basic::Hydrogen), Kind::Basic(Basic::Oxygen)),
            Recipe::Diamond => (Kind::Basic(Basic::Carbon), Kind::Basic(Basic::Carbon)),
            Recipe::Life => (Kind::Complex(Recipe::Water), Kind::Basic(Basic::Carbon)),
            Recipe::Robot => (Kind::Basic(Basic::Silicon), Kind::Complex(Recipe::Life)),
            Recipe::Dolphin => (Kind::Complex(Recipe::Water), Kind::Complex(Recipe::Life)),
            Recipe::AIPartner => (Kind::Complex(Recipe::Robot), Kind::Complex(Recipe::Diamond)),
        }
    }
}

} // verus!
