//! Town population lists.

use itertools::Itertools;
use vstd::prelude::*;

verus! {

use crate::api::model::area;
use crate::text::{join_with, push_dec_u32, spec_dec, spec_join, spec_views};

/// The population of one town.
///
/// The provider keys the resident list by its position rendered as text
/// (`"1"`, `"2"`, ...); here each resident carries that position as a number.
#[derive(Debug)]
pub struct People {
    /// Town id.
    pub area_id: area::Id,
    /// Population of the whole town.
    pub unit: Population,
    /// Population per resident kind, keyed by list position.
    pub persons: Vec<(u32, Segment)>,
    /// Fashion trends; empty where the provider sends none.
    pub trend: Vec<Trend>,
}

/// The population of one resident kind.
#[derive(Debug)]
pub struct Segment {
    /// Population.
    pub unit: Population,
    /// Resident kind.
    pub name: SegmentType,
}

/// One fashion trend.
#[derive(Debug)]
pub struct Trend {
    /// Town id.
    pub area_id: area::Id,
    /// Mood of the trend.
    pub is_positive: bool,
    /// Strength, rendered as arrows.
    pub status: TrendStatusString,
    /// Comment.
    pub message: TrendMessage,
}

/// A population count.
#[derive(Debug, Clone, Copy, PartialEq, Eq, Structural, PartialOrd, Ord)]
pub struct Population(pub u32);

/// A resident kind.
#[derive(Debug)]
pub struct SegmentType(pub String);

/// Strength of a trend, as the provider renders it (for example `"↑↑↑"`).
#[derive(Debug)]
pub struct TrendStatusString(pub String);

/// Strength of a trend as a number, minus five to plus five.
#[derive(Debug, Clone, Copy, PartialEq, Eq, Structural, PartialOrd, Ord)]
pub struct TrendStatus(pub i8);

/// Comment of a trend.
#[derive(Debug)]
pub struct TrendMessage(pub String);

impl Clone for SegmentType {
    fn clone(&self) -> (r: Self)
        ensures
            r == *self,
    {
        SegmentType(self.0.clone())
    }
}

impl Clone for TrendStatusString {
    fn clone(&self) -> (r: Self)
        ensures
            r == *self,
    {
        TrendStatusString(self.0.clone())
    }
}

impl Clone for TrendMessage {
    fn clone(&self) -> (r: Self)
        ensures
            r == *self,
    {
        TrendMessage(self.0.clone())
    }
}

impl Clone for Segment {
    fn clone(&self) -> (r: Self)
        ensures
            r == *self,
    {
        Segment { unit: self.unit, name: self.name.clone() }
    }
}

impl Clone for Trend {
    fn clone(&self) -> (r: Self)
        ensures
            r == *self,
    {
        Trend {
            area_id: self.area_id,
            is_positive: self.is_positive,
            status: self.status.clone(),
            message: self.message.clone(),
        }
    }
}

/// How a resident entry renders: `name(unit)`.
pub open spec fn spec_segment_display(s: Segment) -> Seq<char> {
    s.name.0@ + seq!['('] + spec_dec(s.unit.0 as int) + seq![')']
}

/// How a trend renders: `Trend { AreaId(n), message (status) }`.
pub open spec fn spec_trend_display(t: Trend) -> Seq<char> {
    "Trend { AreaId("@ + spec_dec(t.area_id.0 as int) + "), "@ + t.message.0@ + " ("@ + t.status.0@
        + ") }"@
}

/// How each resident entry of a list renders.
pub open spec fn spec_segment_displays(persons: Seq<(u32, Segment)>) -> Seq<Seq<char>> {
    persons.map_values(|p: (u32, Segment)| spec_segment_display(p.1))
}

/// How each trend of a list renders.
pub open spec fn spec_trend_displays(trend: Seq<Trend>) -> Seq<Seq<char>> {
    trend.map_values(|t: Trend| spec_trend_display(t))
}

/// How a town's population renders:
/// `AreaInfo { AreaId(n), Population(n), people: [...], trend: [...] }`,
/// the residents ordered by their list position.
pub open spec fn spec_people_display(
    area_id: area::Id,
    unit: Population,
    persons: Seq<(u32, Segment)>,
    trend: Seq<Trend>,
) -> Seq<char> {
    "AreaInfo { AreaId("@ + spec_dec(area_id.0 as int) + "), Population("@ + spec_dec(
        unit.0 as int,
    ) + "), people: ["@ + spec_join(spec_segment_displays(persons), ", "@) + "], trend: ["@
        + spec_join(spec_trend_displays(trend), ", "@) + "] }"@
}

impl Segment {
    /// Renders the resident entry as `name(unit)`.
    pub fn to_display_string(&self) -> (r: String)
        ensures
            r@ == spec_segment_display(*self),
    {
        let mut r = self.name.0.clone();
        r.append("(");
        push_dec_u32(&mut r, self.unit.0);
        r.append(")");
        proof {
            reveal_strlit("(");
            reveal_strlit(")");
            assert(r@ =~= spec_segment_display(*self));
        }
        r
    }
}

impl Trend {
    /// Renders the trend as `Trend { AreaId(n), message (status) }`.
    pub fn to_display_string(&self) -> (r: String)
        ensures
            r@ == spec_trend_display(*self),
    {
        let mut r = String::from_str("Trend { AreaId(");
        push_dec_u32(&mut r, self.area_id.0 as u32);
        r.append("), ");
        r.append(self.message.0.as_str());
        r.append(" (");
        r.append(self.status.0.as_str());
        r.append(") }");
        proof {
            reveal_strlit("Trend { AreaId(");
            reveal_strlit("), ");
            reveal_strlit(" (");
            reveal_strlit(") }");
            assert(r@ =~= spec_trend_display(*self));
        }
        r
    }
}

/// Relies on `itertools::Itertools::sorted_by_key`: a stable sort of the
/// resident entries by their list position.
#[verifier::external_body]
fn sorted_by_position(v: Vec<(u32, Segment)>) -> (r: Vec<(u32, Segment)>)
    ensures
        r@.to_multiset() == v@.to_multiset(),
        forall|i: int, j: int| 0 <= i < j < r@.len() ==> #[trigger] r@[i].0 <= #[trigger] r@[j].0,
{
    v.into_iter().sorted_by_key(|p| p.0).collect()
}

impl People {
    /// The resident entries ordered by their list position.
    pub fn sorted_persons(&self) -> (r: Vec<(u32, Segment)>)
        ensures
            r@.to_multiset() == self.persons@.to_multiset(),
            forall|i: int, j: int|
                0 <= i < j < r@.len() ==> #[trigger] r@[i].0 <= #[trigger] r@[j].0,
    {
        let mut c: Vec<(u32, Segment)> = Vec::new();
        let mut idx: usize = 0;
        while idx < self.persons.len()
            invariant
                idx <= self.persons.len(),
                c@ =~= self.persons@.subrange(0, idx as int),
            decreases self.persons.len() - idx,
        {
            let p = &self.persons[idx];
            c.push((p.0, p.1.clone()));
            idx += 1;
        }
        proof {
            assert(c@ =~= self.persons@);
        }
        sorted_by_position(c)
    }

    /// Renders the town's population, residents ordered by list position.
    pub fn to_display_string(&self) -> (r: String)
        ensures
            exists|ps: Seq<(u32, Segment)>|
                ps.to_multiset() == self.persons@.to_multiset() && (forall|i: int, j: int|
                    0 <= i < j < ps.len() ==> #[trigger] ps[i].0 <= #[trigger] ps[j].0) && r@
                    == spec_people_display(self.area_id, self.unit, ps, self.trend@),
    {
        let sorted = self.sorted_persons();
        let mut parts: Vec<String> = Vec::new();
        let mut idx: usize = 0;
        while idx < sorted.len()
            invariant
                idx <= sorted.len(),
                spec_views(parts@) =~= spec_segment_displays(sorted@.subrange(0, idx as int)),
            decreases sorted.len() - idx,
        {
            let ghost parts0 = parts@;
            parts.push(sorted[idx].1.to_display_string());
            idx += 1;
            proof {
                broadcast use vstd::prelude::Seq::lemma_push_map_commute;

                let pre = sorted@.subrange(0, idx - 1);
                let post = sorted@.subrange(0, idx as int);
                assert(post =~= pre.push(sorted@[idx - 1]));
                assert(spec_views(parts@) =~= spec_segment_displays(post));
            }
        }
        proof {
            assert(sorted@.subrange(0, sorted@.len() as int) =~= sorted@);
        }
        let people_joined = join_with(&parts, ", ");
        let mut tparts: Vec<String> = Vec::new();
        let mut jdx: usize = 0;
        while jdx < self.trend.len()
            invariant
                jdx <= self.trend.len(),
                spec_views(tparts@) =~= spec_trend_displays(self.trend@.subrange(0, jdx as int)),
            decreases self.trend.len() - jdx,
        {
            tparts.push(self.trend[jdx].to_display_string());
            jdx += 1;
            proof {
                broadcast use vstd::prelude::Seq::lemma_push_map_commute;

                let pre = self.trend@.subrange(0, jdx - 1);
                let post = self.trend@.subrange(0, jdx as int);
                assert(post =~= pre.push(self.trend@[jdx - 1]));
                assert(spec_views(tparts@) =~= spec_trend_displays(post));
            }
        }
        proof {
            assert(self.trend@.subrange(0, self.trend@.len() as int) =~= self.trend@);
        }
        let trend_joined = join_with(&tparts, ", ");
        let mut r = String::from_str("AreaInfo { AreaId(");
        push_dec_u32(&mut r, self.area_id.0 as u32);
        r.append("), Population(");
        push_dec_u32(&mut r, self.unit.0);
        r.append("), people: [");
        r.append(people_joined.as_str());
        r.append("], trend: [");
        r.append(trend_joined.as_str());
        r.append("] }");
        proof {
            reveal_strlit("AreaInfo { AreaId(");
            reveal_strlit("), Population(");
            reveal_strlit("), people: [");
            reveal_strlit("], trend: [");
            reveal_strlit("] }");
            assert(r@ =~= spec_people_display(self.area_id, self.unit, sorted@, self.trend@));
        }
        r
    }
}

} // verus!
