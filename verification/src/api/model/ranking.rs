//! Shop rankings: monthly summaries and daily tops.

use vstd::prelude::*;

verus! {

use crate::api::model::{area, shop, Position};

/// Monthly top three of every section, keyed by section.
#[derive(Debug, Clone)]
pub struct AllMonthly(pub Vec<(Category, Vec<RankerMonthly>)>);

/// Monthly top thousand of one section.
#[derive(Debug, Clone)]
pub struct SectionMonthly(pub Vec<RankerMonthly>);

/// Daily top thousand of one section.
#[derive(Debug, Clone)]
pub struct Daily(pub Vec<RankerDaily>);

/// A section name.
#[derive(Debug, PartialEq, Eq, PartialOrd, Ord, Hash)]
pub struct Category(pub String);

impl Clone for Category {
    fn clone(&self) -> (r: Self)
        ensures
            r == *self,
    {
        Category(self.0.clone())
    }
}

/// One entry of a monthly ranking.
#[derive(Debug, Clone)]
pub struct RankerMonthly {
    /// How often the shop placed first to tenth in the daily ranking.
    pub top_10: Vec<u32>,
    /// How often the shop placed first.
    pub top1_total: u32,
    /// Medals, which order the ranking.
    pub sort: u32,
    /// The shop itself.
    pub data: RankerCommonData,
}

/// One entry of a daily ranking.
#[derive(Debug, Clone)]
pub struct RankerDaily {
    /// Map position of the shop.
    pub pos: Position,
    /// Points, or medals for the sales section.
    pub point: u32,
    /// The shop itself.
    pub data: RankerCommonData,
}

/// The shop a ranking entry names.
#[derive(Debug, Clone)]
pub struct RankerCommonData {
    /// Owner number.
    pub user_id: shop::UserId,
    /// Shop number.
    pub shop_id: shop::Id,
    /// Shop name.
    pub shop_name: String,
    /// Town id.
    pub area_id: area::Id,
    /// Catch phrase.
    pub comment: String,
}

} // verus!
