//! The population endpoint and its response shape.

use vstd::prelude::*;

verus! {

use crate::api::model::area;
use crate::api::schema::{Formatter, Schema};

/// The population query.
#[derive(Debug, Clone, Copy)]
pub struct Request {}

impl Schema for Request {
    open spec fn spec_endpoint(&self) -> Seq<char> {
        "https://so2-api.mutoys.com/json/people/all.json"@
    }

    fn endpoint(&self) -> (r: String) {
        String::from_str("https://so2-api.mutoys.com/json/people/all.json")
    }

    open spec fn spec_min_interval() -> u64 {
        600_000
    }

    fn min_interval() -> (r: u64) {
        600_000
    }

    open spec fn spec_formatter(&self) -> Formatter {
        Formatter::Plain
    }

    fn formatter(&self) -> (r: Formatter) {
        Formatter::Plain
    }
}

/// The population lists of every town.
#[derive(Debug)]
pub struct Response(Vec<People>);

/// The population of one town.
///
/// The provider keys the resident list by its position rendered as text
/// (`"1"`, `"2"`, ...); here each resident carries that position as a number.
#[derive(Debug)]
pub struct People {
    /// Town id.
    pub area_id: area::Id,
    /// Population of the whole town.
    pub unit: Population,
    /// Population per resident kind, keyed by list position.
    pub persons: Vec<(u32, Segment)>,
    /// Fashion trends; the provider sends null for none.
    pub trend: Option<Vec<Trend>>,
}

/// The population of one resident kind.
#[derive(Debug)]
pub struct Segment {
    /// Population.
    pub unit: Population,
    /// Resident kind.
    pub name: SegmentType,
}

/// One fashion trend.
#[derive(Debug)]
pub struct Trend {
    /// Town id.
    pub area_id: area::Id,
    /// Mood of the trend.
    pub is_positive: bool,
    /// Strength, rendered as arrows.
    pub status: TrendStatusString,
    /// Comment.
    pub message: TrendMessage,
}

/// A population count.
#[derive(Debug, Clone, Copy, PartialEq, Eq, Structural, PartialOrd, Ord)]
pub struct Population(pub u32);

/// A resident kind.
#[derive(Debug)]
pub struct SegmentType(pub String);

/// Strength of a trend, as the provider renders it.
#[derive(Debug)]
pub struct TrendStatusString(pub String);

/// Strength of a trend as a number, minus five to plus five.
#[derive(Debug, Clone, Copy, PartialEq, Eq, Structural, PartialOrd, Ord)]
pub struct TrendStatus(pub i8);

/// Comment of a trend.
#[derive(Debug)]
pub struct TrendMessage(pub String);

impl Response {
    /// Wraps the town lists as a response.
    pub fn new(value: Vec<People>) -> (r: Response)
        ensures
            r.spec_items() == value@,
    {
        Response(value)
    }

    /// The town lists as the provider sent them.
    pub closed spec fn spec_items(&self) -> Seq<People> {
        self.0@
    }

    /// The town lists, borrowed in their given order.
    pub fn values(&self) -> (r: &Vec<People>)
        ensures
            r@ == self.spec_items(),
    {
        &self.0
    }

    /// The town lists, consuming the response.
    pub fn into_values(self) -> (r: Vec<People>)
        ensures
            r@ == self.spec_items(),
    {
        let Response(value) = self;
        value
    }
}

} // verus!
