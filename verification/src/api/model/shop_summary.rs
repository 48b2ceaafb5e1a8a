//! Shop counts per town.

use vstd::prelude::*;

verus! {

use crate::api::model::area;
use crate::text::{join_with, push_dec_u32, spec_dec, spec_join, spec_views};

/// Shop counts: the whole kingdom and each town.
#[derive(Debug)]
pub struct ShopSummary {
    /// Count over all towns.
    pub total: ShopCount,
    /// Count per town.
    pub areas: Vec<AreaShopSummary>,
}

/// The shop count of one town.
#[derive(Debug)]
pub struct AreaShopSummary {
    /// Town id.
    pub area_id: area::Id,
    /// Town name.
    pub name: String,
    /// Number of shops.
    pub count: ShopCount,
}

/// A number of shops.
#[derive(Debug, Clone, Copy, PartialEq, Eq, Structural)]
pub struct ShopCount(pub u32);

impl Clone for AreaShopSummary {
    fn clone(&self) -> (r: Self)
        ensures
            r == *self,
    {
        AreaShopSummary { area_id: self.area_id, name: self.name.clone(), count: self.count }
    }
}

/// How a shop count renders: the number and the counter word.
pub open spec fn spec_shop_count_display(c: ShopCount) -> Seq<char> {
    spec_dec(c.0 as int) + " 店舗"@
}

/// How one town's count renders: `name (count)`.
pub open spec fn spec_area_shop_summary_display(a: AreaShopSummary) -> Seq<char> {
    a.name@ + " ("@ + spec_shop_count_display(a.count) + seq![')']
}

/// How each town of a list renders.
pub open spec fn spec_area_shop_summary_displays(areas: Seq<AreaShopSummary>) -> Seq<Seq<char>> {
    areas.map_values(|a: AreaShopSummary| spec_area_shop_summary_display(a))
}

/// How the whole summary renders: the total, then the towns, one per line.
pub open spec fn spec_shop_summary_display(s: ShopSummary) -> Seq<char> {
    "ShopSummary {\n\ttotal: "@ + spec_shop_count_display(s.total) + ",\n\tareas: [\n\t\t"@
        + spec_join(spec_area_shop_summary_displays(s.areas@), ",\n\t\t"@) + "\n\t]\n}"@
}

impl ShopCount {
    /// Renders the count with its counter word.
    pub fn to_display_string(&self) -> (r: String)
        ensures
            r@ == spec_shop_count_display(*self),
    {
        let mut r = String::new();
        push_dec_u32(&mut r, self.0);
        r.append(" 店舗");
        proof {
            reveal_strlit(" 店舗");
            assert(r@ =~= spec_shop_count_display(*self));
        }
        r
    }
}

impl AreaShopSummary {
    /// Renders the town's count as `name (count)`.
    pub fn to_display_string(&self) -> (r: String)
        ensures
            r@ == spec_area_shop_summary_display(*self),
    {
        let mut r = self.name.clone();
        r.append(" (");
        push_dec_u32(&mut r, self.count.0);
        r.append(" 店舗");
        r.append(")");
        proof {
            reveal_strlit(" (");
            reveal_strlit(" 店舗");
            reveal_strlit(")");
            assert(r@ =~= spec_area_shop_summary_display(*self));
        }
        r
    }
}

impl ShopSummary {
    /// Renders the whole summary, one town per line.
    pub fn to_display_string(&self) -> (r: String)
        ensures
            r@ == spec_shop_summary_display(*self),
    {
        let mut parts: Vec<String> = Vec::new();
        let mut idx: usize = 0;
        while idx < self.areas.len()
            invariant
                idx <= self.areas.len(),
                spec_views(parts@) =~= spec_area_shop_summary_displays(
                    self.areas@.subrange(0, idx as int),
                ),
            decreases self.areas.len() - idx,
        {
            parts.push(self.areas[idx].to_display_string());
            idx += 1;
            proof {
                broadcast use vstd::prelude::Seq::lemma_push_map_commute;

                let pre = self.areas@.subrange(0, idx - 1);
                let post = self.areas@.subrange(0, idx as int);
                assert(post =~= pre.push(self.areas@[idx - 1]));
                assert(spec_views(parts@) =~= spec_area_shop_summary_displays(post));
            }
        }
        proof {
            assert(self.areas@.subrange(0, self.areas@.len() as int) =~= self.areas@);
        }
        let joined = join_with(&parts, ",\n\t\t");
        let mut r = String::from_str("ShopSummary {\n\ttotal: ");
        push_dec_u32(&mut r, self.total.0);
        r.append(" 店舗");
        r.append(",\n\tareas: [\n\t\t");
        r.append(joined.as_str());
        r.append("\n\t]\n}");
        proof {
            reveal_strlit("ShopSummary {\n\ttotal: ");
            reveal_strlit(" 店舗");
            reveal_strlit(",\n\tareas: [\n\t\t");
            reveal_strlit("\n\t]\n}");
            assert(r@ =~= spec_shop_summary_display(*self));
        }
        r
    }
}

} // verus!
