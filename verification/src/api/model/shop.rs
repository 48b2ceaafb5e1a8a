//! Shop listings.

use vstd::prelude::*;

verus! {

use crate::api::model::area;
use crate::text::{push_dec_u32, spec_dec};

/// One shop.
#[derive(Debug, Clone)]
pub struct Shop {
    /// Owner number.
    pub user_id: UserId,
    /// Shop number.
    pub shop_id: Id,
    /// Shop name.
    pub shop_name: String,
    /// Catch phrase, where the owner set one.
    pub comment: Option<String>,
    /// Town id.
    pub area_id: area::Id,
    /// Horizontal map position.
    pub pos_x: i32,
    /// Vertical map position.
    pub pos_y: i32,
    /// Kind of shop.
    pub shop_type: String,
    /// Funds.
    pub money: i32,
    /// Title.
    pub title: String,
    /// Points.
    pub point: i32,
    /// Days since foundation.
    pub foundation_days: i32,
    /// Days carried over from the first game, where the owner imported them.
    pub so1_foundation_days: Option<i32>,
    /// Number of items registered in the item book.
    pub item_book: i32,
    /// Best trade title, `[0, 0]` where none was earned.
    pub high_class: TitleClass,
    /// Best craft title, `[0, 0]` where none was earned.
    pub high_job: TitleJob,
}

/// A shop number.
#[derive(Debug, Clone, Copy, PartialEq, Eq, Structural)]
pub struct Id(pub u32);

/// An owner number.
#[derive(Debug, Clone, Copy, PartialEq, Eq, Structural)]
pub struct UserId(pub u32);

/// A trade title: trade id and level.
#[derive(Debug, Clone, Copy)]
pub struct TitleClass {
    /// Trade id.
    pub id: ClassId,
    /// Trade level.
    pub level: Level,
}

/// A craft title: craft id and level.
#[derive(Debug, Clone, Copy)]
pub struct TitleJob {
    /// Craft id.
    pub id: JobId,
    /// Craft level.
    pub level: Level,
}

/// A trade id.
#[derive(Debug, Clone, Copy, PartialEq, Eq, Structural)]
pub struct ClassId(pub u32);

/// A craft id.
#[derive(Debug, Clone, Copy, PartialEq, Eq, Structural)]
pub struct JobId(pub u32);

/// A trade or craft level.
#[derive(Debug, Clone, Copy, PartialEq, Eq, Structural, PartialOrd, Ord)]
pub struct Level(pub u32);

/// How a shop number renders: `#n`.
pub open spec fn spec_shop_id_display(id: Id) -> Seq<char> {
    seq!['#'] + spec_dec(id.0 as int)
}

impl Id {
    /// Renders the shop number as `#n`.
    pub fn to_display_string(&self) -> (r: String)
        ensures
            r@ == spec_shop_id_display(*self),
    {
        let mut r = String::from_str("#");
        push_dec_u32(&mut r, self.0);
        proof {
            reveal_strlit("#");
            assert(r@ =~= spec_shop_id_display(*self));
        }
        r
    }
}

} // verus!
