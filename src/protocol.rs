//! What the engine is asked and what it answers: an explorer's query, the reply
//! to it, and the acknowledgement of a sunray.
use vstd::prelude::*;
use common_game::components::resource::{
    BasicResourceType, ComplexResourceRequest, ComplexResourceType, GenericResource, Oxygen,
};
use std::collections::HashSet;

use crate::kinds::Basic;

verus! {

/// A request from an explorer visiting the planet.
#[derive(Debug)]
pub enum Query {
    /// Which basic resources the planet can generate.
    SupportedResources,
    /// Which complex resources the planet can combine.
    SupportedCombinations,
    /// Generate one unit of a basic resource.
    Generate(Basic),
    /// Combine the two resources that the request carries.
    Combine(ComplexResourceRequest),
    /// How many energy cells are charged.
    AvailableCells,
}

/// The answer to a query.
#[derive(Debug)]
pub enum Reply {
    /// The generation recipes of the planet.
    SupportedResources(HashSet<BasicResourceType>),
    /// The combination recipes of the planet.
    SupportedCombinations(HashSet<ComplexResourceType>),
    /// The oxygen that was generated.
    Generated(Oxygen),
    /// A refused combination: the reason, and the two resources handed back.
    Rejected(String, GenericResource, GenericResource),
    /// The number of charged energy cells.
    AvailableCells(u32),
}

/// The acknowledgement of a sunray, carrying the id of the planet that took it.
#[derive(Debug, Clone, Copy, PartialEq, Eq, Structural)]
pub struct Ack {
    pub planet_id: u32,
}

} // verus!
