//! Town liveliness summaries.

use vstd::prelude::*;

verus! {

use crate::api::model::area;
use crate::text::{push_dec_i32_signed, push_dec_u32, spec_dec, spec_dec_i32_signed};

/// Liveliness of one town.
#[derive(Debug, Clone)]
pub struct AreaSummary {
    /// Town id.
    pub area_id: area::Id,
    /// Liveliness points.
    pub point: Fun,
}

/// Liveliness points of a town.
#[derive(Debug, Clone, Copy, PartialEq, Eq, Structural)]
pub struct Fun(pub i32);

/// How liveliness points render: always with a sign, as `{:+}`.
pub open spec fn spec_fun_display(f: Fun) -> Seq<char> {
    spec_dec_i32_signed(f.0 as int)
}

/// How a town summary renders: `(AreaId(n), points)`.
pub open spec fn spec_area_summary_display(a: AreaSummary) -> Seq<char> {
    "(AreaId("@ + spec_dec(a.area_id.0 as int) + "), "@ + spec_fun_display(a.point) + seq![')']
}

impl Fun {
    /// Renders the points with their sign.
    pub fn to_display_string(&self) -> (r: String)
        ensures
            r@ == spec_fun_display(*self),
    {
        let mut r = String::new();
        push_dec_i32_signed(&mut r, self.0);
        r
    }
}

impl AreaSummary {
    /// Renders the summary as `(AreaId(n), points)`.
    pub fn to_display_string(&self) -> (r: String)
        ensures
            r@ == spec_area_summary_display(*self),
    {
        let mut r = String::from_str("(AreaId(");
        push_dec_u32(&mut r, self.area_id.0 as u32);
        r.append("), ");
        push_dec_i32_signed(&mut r, self.point.0);
        r.append(")");
        proof {
            reveal_strlit("(AreaId(");
            reveal_strlit("), ");
            reveal_strlit(")");
            assert(r@ =~= spec_area_summary_display(*self));
        }
        r
    }
}

} // verus!
