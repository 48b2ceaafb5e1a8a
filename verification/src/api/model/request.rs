//! Standing buy orders.

use vstd::prelude::*;

verus! {

use crate::api::model::{area, item, shop};

/// One standing buy order.
#[derive(Debug, Clone)]
pub struct Request {
    /// Serial number of the order.
    trans_serial: i64,
    /// Town id.
    area_id: area::Id,
    /// Owner number.
    user_id: shop::UserId,
    /// Shop number.
    shop_id: shop::Id,
    /// Shop name.
    shop_name: String,
    /// Item id.
    item_id: item::Id,
    /// Units already bought.
    unit: i32,
    /// Units wanted in all.
    buy_unit: i32,
    /// Unit price offered.
    price: i32,
    /// Town the order is limited to; the provider sends `0` for "everywhere".
    request_area_id: Option<area::Id>,
}

} // verus!
