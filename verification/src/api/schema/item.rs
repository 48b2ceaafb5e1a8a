//! The item catalogue endpoint and its response shape.

use itertools::Itertools;
use vstd::prelude::*;

verus! {

use crate::api::schema::{Formatter, Schema};

/// The item catalogue query.
#[derive(Debug, Clone, Copy)]
pub struct Quely {}

impl Schema for Quely {
    open spec fn spec_endpoint(&self) -> Seq<char> {
        "https://so2-api.mutoys.com/master/item.json"@
    }

    fn endpoint(&self) -> (r: String) {
        String::from_str("https://so2-api.mutoys.com/master/item.json")
    }

    open spec fn spec_min_interval() -> u64 {
        3_600_000
    }

    fn min_interval() -> (r: u64) {
        3_600_000
    }

    open spec fn spec_formatter(&self) -> Formatter {
        Formatter::Plain
    }

    fn formatter(&self) -> (r: Formatter) {
        Formatter::Plain
    }
}

/// The item catalogue as the provider sends it: one entry per item.
#[derive(Debug)]
pub struct Response {
    value: Vec<Item>,
}

/// One item definition.
#[derive(Debug)]
pub struct Item {
    /// Category name.
    pub category: Category,
    /// Trade or craft name.
    pub class: Class,
    /// Item id.
    pub item_id: Id,
    /// Largest stack the item can be traded in.
    pub limit: StackSize,
    /// Item name.
    pub name: Name,
    /// Unit of measure.
    pub scale: Scale,
    /// Catalogue order.
    pub sort: u32,
}

/// A category name.
#[derive(Debug)]
pub struct Category(pub String);

/// A trade or craft name.
#[derive(Debug)]
pub struct Class(pub String);

/// An item id.
#[derive(Debug, Clone, Copy, PartialEq, Eq, Structural, PartialOrd, Ord, Hash)]
pub struct Id(pub u32);

/// A stack limit.
#[derive(Debug, Clone, Copy, PartialEq, Eq, Structural, PartialOrd, Ord)]
pub struct StackSize(pub u32);

/// An item name.
#[derive(Debug)]
pub struct Name(pub String);

/// A unit of measure.
#[derive(Debug)]
pub struct Scale(pub String);

impl Clone for Category {
    fn clone(&self) -> (r: Self)
        ensures
            r == *self,
    {
        Category(self.0.clone())
    }
}

impl Clone for Class {
    fn clone(&self) -> (r: Self)
        ensures
            r == *self,
    {
        Class(self.0.clone())
    }
}

impl Clone for Name {
    fn clone(&self) -> (r: Self)
        ensures
            r == *self,
    {
        Name(self.0.clone())
    }
}

impl Clone for Scale {
    fn clone(&self) -> (r: Self)
        ensures
            r == *self,
    {
        Scale(self.0.clone())
    }
}

impl Clone for Item {
    fn clone(&self) -> (r: Self)
        ensures
            r == *self,
    {
        Item {
            category: self.category.clone(),
            class: self.class.clone(),
            item_id: self.item_id,
            limit: self.limit,
            name: self.name.clone(),
            scale: self.scale.clone(),
            sort: self.sort,
        }
    }
}

/// How an item renders: `name (category/class) ` with a trailing space.
pub open spec fn spec_item_display(it: Item) -> Seq<char> {
    it.name.0@ + " ("@ + it.category.0@ + seq!['/'] + it.class.0@ + ") "@
}

impl Item {
    /// Renders the item as `name (category/class) `.
    pub fn to_display_string(&self) -> (r: String)
        ensures
            r@ == spec_item_display(*self),
    {
        let mut r = self.name.0.clone();
        r.append(" (");
        r.append(self.category.0.as_str());
        r.append("/");
        r.append(self.class.0.as_str());
        r.append(") ");
        proof {
            reveal_strlit(" (");
            reveal_strlit("/");
            reveal_strlit(") ");
            assert(r@ =~= spec_item_display(*self));
        }
        r
    }
}

/// Relies on `itertools::Itertools::sorted_by_key`: a stable sort of the
/// elements by the given key, here the catalogue order.
#[verifier::external_body]
fn sorted_by_sort(v: Vec<Item>) -> (r: Vec<Item>)
    ensures
        r@.to_multiset() == v@.to_multiset(),
        forall|i: int, j: int|
            0 <= i < j < r@.len() ==> #[trigger] r@[i].sort <= #[trigger] r@[j].sort,
{
    v.into_iter().sorted_by_key(|item| item.sort).collect()
}

impl Response {
    /// Wraps a list of entries as a catalogue.
    pub fn new(value: Vec<Item>) -> (r: Response)
        ensures
            r.spec_items() == value@,
    {
        Response { value }
    }

    /// The entries as the provider sent them.
    pub closed spec fn spec_items(&self) -> Seq<Item> {
        self.value@
    }

    /// The entries in catalogue order, leaving the catalogue in place.
    pub fn values(&self) -> (r: Vec<Item>)
        ensures
            r@.to_multiset() == self.spec_items().to_multiset(),
            forall|i: int, j: int|
                0 <= i < j < r@.len() ==> #[trigger] r@[i].sort <= #[trigger] r@[j].sort,
    {
        let mut c: Vec<Item> = Vec::new();
        let mut idx: usize = 0;
        while idx < self.value.len()
            invariant
                idx <= self.value.len(),
                c@ =~= self.value@.subrange(0, idx as int),
            decreases self.value.len() - idx,
        {
            c.push(self.value[idx].clone());
            idx += 1;
        }
        proof {
            assert(c@ =~= self.value@);
        }
        sorted_by_sort(c)
    }

    /// The entries in catalogue order, consuming the catalogue.
    pub fn into_values(self) -> (r: Vec<Item>)
        ensures
            r@.to_multiset() == self.spec_items().to_multiset(),
            forall|i: int, j: int|
                0 <= i < j < r@.len() ==> #[trigger] r@[i].sort <= #[trigger] r@[j].sort,
    {
        let Response { value } = self;
        sorted_by_sort(value)
    }
}

} // verus!
