//! Items on sale at shop fronts.

use vstd::prelude::*;

verus! {

use crate::api::model::{item, shop};

/// One listing of an item on sale.
#[derive(Debug, Clone)]
pub struct Sale {
    /// Serial number of the listing.
    pub sale_serial: i64,
    /// Town id.
    pub area_id: i64,
    /// Horizontal map position.
    pub pos_x: i64,
    /// Vertical map position.
    pub pos_y: i64,
    /// Owner number.
    pub user_id: shop::UserId,
    /// Shop number.
    pub shop_id: shop::Id,
    /// Shop name.
    pub shop_name: String,
    /// Item id.
    pub item_id: item::Id,
    /// Unit price.
    pub price: i64,
    /// Units in stock.
    pub unit: i64,
    /// Whether the stock is sold as one bundle; the provider sends `0` or `1`.
    pub bundle_sale: bool,
}

} // verus!
