//! The item catalogue in its plain shape, one text field per column.

use itertools::Itertools;
use vstd::prelude::*;

verus! {

/// One item definition.
#[derive(Debug)]
pub struct Item {
    /// Category name.
    pub category: String,
    /// Trade or craft name.
    pub class: String,
    /// Item id.
    pub item_id: u32,
    /// Largest stack the item can be traded in.
    pub limit: u32,
    /// Item name.
    pub name: String,
    /// Unit of measure.
    pub scale: String,
    /// Catalogue order.
    pub sort: u32,
}

impl Clone for Item {
    fn clone(&self) -> (r: Self)
        ensures
            r == *self,
    {
        Item {
            category: self.category.clone(),
            class: self.class.clone(),
            item_id: self.item_id,
            limit: self.limit,
            name: self.name.clone(),
            scale: self.scale.clone(),
            sort: self.sort,
        }
    }
}

/// How an item renders: `name (category/class) ` with a trailing space.
pub open spec fn spec_item_display(it: Item) -> Seq<char> {
    it.name@ + " ("@ + it.category@ + seq!['/'] + it.class@ + ") "@
}

impl Item {
    /// Renders the item as `name (category/class) `.
    pub fn to_display_string(&self) -> (r: String)
        ensures
            r@ == spec_item_display(*self),
    {
        let mut r = self.name.clone();
        r.append(" (");
        r.append(self.category.as_str());
        r.append("/");
        r.append(self.class.as_str());
        r.append(") ");
        proof {
            reveal_strlit(" (");
            reveal_strlit("/");
            reveal_strlit(") ");
            assert(r@ =~= spec_item_display(*self));
        }
        r
    }
}

/// The item catalogue as the provider sends it: one entry per item.
#[derive(Debug)]
pub struct ItemResponse {
    value: Vec<Item>,
}

/// Relies on `itertools::Itertools::sorted_by_key`: a stable sort of the
/// elements by the given key, here the catalogue order.
#[verifier::external_body]
fn sorted_by_sort(v: Vec<Item>) -> (r: Vec<Item>)
    ensures
        r@.to_multiset() == v@.to_multiset(),
        forall|i: int, j: int|
            0 <= i < j < r@.len() ==> #[trigger] r@[i].sort <= #[trigger] r@[j].sort,
{
    v.into_iter().sorted_by_key(|item| item.sort).collect()
}

impl ItemResponse {
    /// Wraps a list of entries as a catalogue.
    pub fn new(value: Vec<Item>) -> (r: ItemResponse)
        ensures
            r.spec_items() == value@,
    {
        ItemResponse { value }
    }

    /// The entries as the provider sent them.
    pub closed spec fn spec_items(&self) -> Seq<Item> {
        self.value@
    }

    /// The entries in catalogue order, leaving the catalogue in place.
    pub fn values(&self) -> (r: Vec<Item>)
        ensures
            r@.to_multiset() == self.spec_items().to_multiset(),
            forall|i: int, j: int|
                0 <= i < j < r@.len() ==> #[trigger] r@[i].sort <= #[trigger] r@[j].sort,
    {
        let mut c: Vec<Item> = Vec::new();
        let mut idx: usize = 0;
        while idx < self.value.len()
            invariant
                idx <= self.value.len(),
                c@ =~= self.value@.subrange(0, idx as int),
            decreases self.value.len() - idx,
        {
            c.push(self.value[idx].clone());
            idx += 1;
        }
        proof {
            assert(c@ =~= self.value@);
        }
        sorted_by_sort(c)
    }
}

} // verus!
