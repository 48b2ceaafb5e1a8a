//! Daily purchase reports.

use vstd::prelude::*;

verus! {

use crate::api::model::area;

/// The report of one day: the whole kingdom and each town.
#[derive(Debug, Clone)]
pub struct Report {
    /// Report over all towns.
    pub general: AreaReport,
    /// Report per town.
    pub area: Vec<(area::Id, AreaReport)>,
}

/// The purchases of one town (or of the whole kingdom).
#[derive(Debug, Clone)]
pub struct AreaReport {
    /// Purchases by residents.
    pub system: Entries,
    /// Purchases by traders at shop fronts.
    pub user: Entries,
    /// Purchases by traders through orders.
    pub request: Entries,
}

/// Totals per item, keyed by the item id rendered as text.
#[derive(Debug, Clone)]
pub struct Entries {
    /// Totals per item.
    pub item: Vec<(String, Entry)>,
}

/// Trade totals of one item.
#[derive(Debug, Clone, Copy, PartialEq, Eq, Structural)]
pub struct Entry {
    /// Number of trades.
    pub count: u64,
    /// Units traded.
    pub unit: u64,
    /// Money traded.
    pub money: u64,
    /// Price per unit.
    pub price: u64,
}

} // verus!
