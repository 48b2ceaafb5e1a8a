//! Town population lists in their plain shape.

use vstd::prelude::*;

verus! {

use crate::api::model::area;

/// A population count.
#[derive(Debug, Clone, Copy, PartialEq, Eq, Structural, PartialOrd, Ord)]
pub struct Population(pub u32);

/// A resident's name.
#[derive(Debug)]
pub struct Name(pub String);

/// Strength of a trend, as the provider renders it.
#[derive(Debug)]
pub struct TrendStatusString(pub String);

/// Strength of a trend as a number, minus five to plus five.
#[derive(Debug, Clone, Copy, PartialEq, Eq, Structural, PartialOrd, Ord)]
pub struct TrendStatus(pub i8);

/// Comment of a trend.
#[derive(Debug)]
pub struct TrendMessage(pub String);

/// One resident kind and its population.
#[derive(Debug)]
pub struct Person {
    /// Population.
    pub unit: Population,
    /// Resident's name.
    pub name: Name,
}

/// One fashion trend.
#[derive(Debug)]
pub struct Trend {
    /// Town id.
    pub area_id: area::Id,
    /// Mood of the trend.
    pub is_positive: bool,
    /// Strength, rendered as arrows.
    pub status: TrendStatusString,
    /// Comment.
    pub message: TrendMessage,
}

/// The population of one town.
///
/// The provider keys the resident list by its position rendered as text
/// (`"1"`, `"2"`, ...); here each resident carries that position as a number.
#[derive(Debug)]
pub struct PeopleOfTown {
    /// Town id.
    pub area_id: area::Id,
    /// Population of the whole town.
    pub unit: Population,
    /// Population per resident kind, keyed by list position.
    pub persons: Vec<(u32, Person)>,
    /// Fashion trends; the provider sends null for none.
    pub trend: Option<Vec<Trend>>,
}

/// The population lists of every town.
#[derive(Debug)]
pub struct PeopleResponse(Vec<PeopleOfTown>);

impl PeopleResponse {
    /// Wraps the town lists as a response.
    pub fn new(value: Vec<PeopleOfTown>) -> (r: PeopleResponse)
        ensures
            r.spec_items() == value@,
    {
        PeopleResponse(value)
    }

    /// The town lists as the provider sent them.
    pub closed spec fn spec_items(&self) -> Seq<PeopleOfTown> {
        self.0@
    }

    /// The town lists, borrowed in their given order.
    pub fn values(&self) -> (r: &Vec<PeopleOfTown>)
        ensures
            r@ == self.spec_items(),
    {
        &self.0
    }
}

} // verus!
