//! Fulfilled buy orders of one hour or one shop.

use chrono::{Datelike, Timelike};
use vstd::prelude::*;

verus! {

use crate::api::model::{item, shop};
use crate::text::{push_dec_u32, push_pad2, push_pad4, spec_dec, spec_pad2, spec_pad4};

/// The fulfilled orders of one report.
#[derive(Debug)]
pub struct Response(pub Vec<RequestReport>);

/// One fulfilled buy order.
///
/// The provider sends these fields as an array, in this order.
#[derive(Debug)]
pub struct RequestReport {
    /// Shop that sold.
    pub seller_shop_id: shop::Id,
    /// Name of the shop that sold.
    pub seller_shop_name: String,
    /// Shop that ordered.
    pub buyer_shop_id: shop::Id,
    /// Name of the shop that ordered.
    pub buyer_shop_name: String,
    /// Item id.
    pub item_id: item::Id,
    /// Units traded.
    pub item_count: Amount,
    /// Unit price of the order.
    pub order_price: Price,
    /// Time of the trade, in Unix seconds.
    pub unix_time: i64,
}

/// A number of units.
#[derive(Debug, Clone, Copy, PartialEq, Eq, Structural)]
pub struct Amount(pub u32);

/// A unit price.
#[derive(Debug, Clone, Copy, PartialEq, Eq, Structural)]
pub struct Price(pub u32);

/// Largest Unix second this crate converts to calendar form: the first
/// moment past the year 9999.
pub const UNIX_SECONDS_CAP: i64 = 253_402_300_800;

/// The calendar form (UTC) of a Unix timestamp:
/// year, month, day, hour, minute, second.
pub uninterp spec fn civil_of_unix(ts: int) -> (int, int, int, int, int, int);

/// A trade time in calendar form (UTC).
#[derive(Debug, Clone, Copy, PartialEq, Eq, Structural)]
pub struct TradeTime {
    /// Year.
    pub year: u16,
    /// Month, one-based.
    pub month: u8,
    /// Day, one-based.
    pub day: u8,
    /// Hour.
    pub hour: u8,
    /// Minute.
    pub minute: u8,
    /// Second.
    pub second: u8,
}

/// Relies on `chrono::DateTime::<Utc>::from_timestamp` and
/// `DateTime::<Utc>::naive_local`: the calendar form (UTC) of a Unix
/// timestamp, a function of the timestamp alone; within the bounds below the
/// conversion exists, its fields are a real date and time of day, and its
/// year has four digits.
#[verifier::external_body]
fn civil_from_unix(ts: i64) -> (r: (u16, u8, u8, u8, u8, u8))
    requires
        0 <= ts < UNIX_SECONDS_CAP,
    ensures
        (r.0 as int, r.1 as int, r.2 as int, r.3 as int, r.4 as int, r.5 as int) == civil_of_unix(
            ts as int,
        ),
        1970 <= r.0 <= 9999,
        1 <= r.1 <= 12,
        1 <= r.2 <= 31,
        r.3 < 24,
        r.4 < 60,
        r.5 < 60,
{
    let dt = chrono::DateTime::from_timestamp(ts, 0).unwrap().naive_local();
    (
        dt.year() as u16,
        dt.month() as u8,
        dt.day() as u8,
        dt.hour() as u8,
        dt.minute() as u8,
        dt.second() as u8,
    )
}

/// How a trade time renders: `YYYY-MM-DD HH:MM:SS`.
pub open spec fn spec_trade_time_display(t: TradeTime) -> Seq<char> {
    spec_pad4(t.year as int) + seq!['-'] + spec_pad2(t.month as int) + seq!['-'] + spec_pad2(
        t.day as int,
    ) + seq![' '] + spec_pad2(t.hour as int) + seq![':'] + spec_pad2(t.minute as int) + seq![':']
        + spec_pad2(t.second as int)
}

/// Whether a trade time matches the calendar form of a timestamp.
pub open spec fn spec_time_matches(t: TradeTime, ts: int) -> bool {
    (t.year as int, t.month as int, t.day as int, t.hour as int, t.minute as int, t.second as int)
        == civil_of_unix(ts)
}

/// How a fulfilled order renders:
/// `seller(#n) => buyer(#n) : ItemId(n) xCOUNT @PRICEG [TIME]`.
pub open spec fn spec_request_report_display(rr: RequestReport, t: TradeTime) -> Seq<char> {
    rr.seller_shop_name@ + "(#"@ + spec_dec(rr.seller_shop_id.0 as int) + ") => "@
        + rr.buyer_shop_name@ + "(#"@ + spec_dec(rr.buyer_shop_id.0 as int) + ") : ItemId("@
        + spec_dec(rr.item_id.0 as int) + ") x"@ + spec_dec(rr.item_count.0 as int) + " @"@
        + spec_dec(rr.order_price.0 as int) + "G ["@ + spec_trade_time_display(t) + seq![']']
}

impl TradeTime {
    /// Renders the time as `YYYY-MM-DD HH:MM:SS`.
    pub fn to_display_string(&self) -> (r: String)
        ensures
            r@ == spec_trade_time_display(*self),
    {
        let mut r = String::new();
        push_pad4(&mut r, self.year);
        r.append("-");
        push_pad2(&mut r, self.month);
        r.append("-");
        push_pad2(&mut r, self.day);
        r.append(" ");
        push_pad2(&mut r, self.hour);
        r.append(":");
        push_pad2(&mut r, self.minute);
        r.append(":");
        push_pad2(&mut r, self.second);
        proof {
            reveal_strlit("-");
            reveal_strlit(" ");
            reveal_strlit(":");
            assert(r@ =~= spec_trade_time_display(*self));
        }
        r
    }
}

/// How a unit price renders: `nG`.
pub open spec fn spec_price_display(p: Price) -> Seq<char> {
    spec_dec(p.0 as int) + seq!['G']
}

impl Price {
    /// Renders the price as `nG`.
    pub fn to_display_string(&self) -> (r: String)
        ensures
            r@ == spec_price_display(*self),
    {
        let mut r = String::new();
        push_dec_u32(&mut r, self.0);
        r.append("G");
        proof {
            reveal_strlit("G");
            assert(r@ =~= spec_price_display(*self));
        }
        r
    }
}

impl RequestReport {
    /// The time of the trade in calendar form.
    pub fn traded_at(&self) -> (r: TradeTime)
        requires
            0 <= self.unix_time < UNIX_SECONDS_CAP,
        ensures
            spec_time_matches(r, self.unix_time as int),
            1 <= r.month <= 12,
            1 <= r.day <= 31,
            r.hour < 24,
            r.minute < 60,
            r.second < 60,
    {
        let (year, month, day, hour, minute, second) = civil_from_unix(self.unix_time);
        TradeTime { year, month, day, hour, minute, second }
    }

    /// Renders the order as
    /// `seller(#n) => buyer(#n) : ItemId(n) xCOUNT @PRICEG [TIME]`.
    pub fn to_display_string(&self) -> (r: String)
        requires
            0 <= self.unix_time < UNIX_SECONDS_CAP,
        ensures
            exists|t: TradeTime|
                spec_time_matches(t, self.unix_time as int) && r@ == spec_request_report_display(
                    *self,
                    t,
                ),
    {
        let t = self.traded_at();
        let mut r = self.seller_shop_name.clone();
        r.append("(#");
        push_dec_u32(&mut r, self.seller_shop_id.0);
        r.append(") => ");
        r.append(self.buyer_shop_name.as_str());
        r.append("(#");
        push_dec_u32(&mut r, self.buyer_shop_id.0);
        r.append(") : ItemId(");
        push_dec_u32(&mut r, self.item_id.0);
        r.append(") x");
        push_dec_u32(&mut r, self.item_count.0);
        r.append(" @");
        push_dec_u32(&mut r, self.order_price.0);
        r.append("G [");
        let ts = t.to_display_string();
        r.append(ts.as_str());
        r.append("]");
        proof {
            reveal_strlit("(#");
            reveal_strlit(") => ");
            reveal_strlit(") : ItemId(");
            reveal_strlit(") x");
            reveal_strlit(" @");
            reveal_strlit("G [");
            reveal_strlit("]");
            assert(r@ =~= spec_request_report_display(*self, t));
        }
        r
    }
}

} // verus!
