//! Value types of the provider's responses.

use vstd::prelude::*;

pub mod area;
pub mod area_summary;
pub mod item;
pub mod people;
pub mod ranking;
pub mod report;
pub mod request;
pub mod request_report;
pub mod sale;
pub mod shop;
pub mod shop_summary;

verus! {

use crate::text::{push_dec_i32, spec_dec_i32};

/// A map position.
#[derive(Debug, Clone, PartialEq, Eq, Structural, PartialOrd, Ord, Hash)]
pub struct Position {
    /// Horizontal map position.
    pub pos_x: i32,
    /// Vertical map position.
    pub pos_y: i32,
}

/// How a position renders: `(x, y)`.
pub open spec fn spec_position_display(p: Position) -> Seq<char> {
    seq!['('] + spec_dec_i32(p.pos_x as int) + seq![',', ' '] + spec_dec_i32(p.pos_y as int)
        + seq![')']
}

impl Position {
    /// Renders the position as `(x, y)`.
    pub fn to_display_string(&self) -> (r: String)
        ensures
            r@ == spec_position_display(*self),
    {
        let mut r = String::new();
        r.append("(");
        push_dec_i32(&mut r, self.pos_x);
        r.append(", ");
        push_dec_i32(&mut r, self.pos_y);
        r.append(")");
        proof {
            reveal_strlit("(");
            reveal_strlit(", ");
            reveal_strlit(")");
            assert(r@ =~= spec_position_display(*self));
        }
        r
    }
}

} // verus!
