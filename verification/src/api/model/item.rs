//! Item definitions: the official catalogue and the recipe catalogue.

use itertools::Itertools;
use vstd::prelude::*;

verus! {

/// An item catalogue as the provider sends it: one entry per item.
///
/// The provider keys the entries by the item id rendered as text, so no two
/// entries of one catalogue share an id.
#[derive(Debug)]
pub struct Response {
    value: Vec<Item>,
}

/// The official item catalogue.
#[derive(Debug)]
pub struct Official(pub Response);

/// The recipe item catalogue.
#[derive(Debug)]
pub struct Recipe(pub Response);

/// One item definition, official or recipe.
#[derive(Debug)]
pub struct Item {
    /// Category name.
    pub category: Category,
    /// Trade or craft name; several are joined with `/`.
    pub class: Class,
    /// Item id.
    pub item_id: Id,
    /// Largest stack the item can be traded in.
    pub limit: StackSize,
    /// Item name.
    pub name: String,
    /// Unit of measure.
    pub scale: Scale,
    /// Catalogue order.
    pub sort: u32,
}

/// A category name.
#[derive(Debug)]
pub struct Category(pub String);

/// A trade or craft name.
#[derive(Debug)]
pub struct Class(pub String);

/// An item id; ids below two million are official items, the rest recipes.
#[derive(Debug, Clone, Copy, PartialEq, Eq, Structural, PartialOrd, Ord, Hash)]
pub struct Id(pub u32);

/// A stack limit.
#[derive(Debug, Clone, Copy, PartialEq, Eq, Structural, PartialOrd, Ord)]
pub struct StackSize(pub u32);

/// A unit of measure.
#[derive(Debug)]
pub struct Scale(pub String);

impl Clone for Category {
    fn clone(&self) -> (r: Self)
        ensures
            r == *self,
    {
        Category(self.0.clone())
    }
}

impl Clone for Class {
    fn clone(&self) -> (r: Self)
        ensures
            r == *self,
    {
        Class(self.0.clone())
    }
}

impl Clone for Scale {
    fn clone(&self) -> (r: Self)
        ensures
            r == *self,
    {
        Scale(self.0.clone())
    }
}

impl Clone for Item {
    fn clone(&self) -> (r: Self)
        ensures
            r == *self,
    {
        Item {
            category: self.category.clone(),
            class: self.class.clone(),
            item_id: self.item_id,
            limit: self.limit,
            name: self.name.clone(),
            scale: self.scale.clone(),
            sort: self.sort,
        }
    }
}

/// How an item renders: `name (category/class) ` with a trailing space.
pub open spec fn spec_item_display(it: Item) -> Seq<char> {
    it.name@ + " ("@ + it.category.0@ + seq!['/'] + it.class.0@ + ") "@
}

impl Item {
    /// Renders the item as `name (category/class) `.
    pub fn to_display_string(&self) -> (r: String)
        ensures
            r@ == spec_item_display(*self),
    {
        let mut r = self.name.clone();
        r.append(" (");
        r.append(self.category.0.as_str());
        r.append("/");
        r.append(self.class.0.as_str());
        r.append(") ");
        proof {
            reveal_strlit(" (");
            reveal_strlit("/");
            reveal_strlit(") ");
            assert(r@ =~= spec_item_display(*self));
        }
        r
    }
}

/// Reads an optional item id as the provider sends it: `0` stands for
/// "none".
pub fn optional_id(raw: u32) -> (r: Option<Id>)
    ensures
        raw == 0 ==> r == Option::<Id>::None,
        raw != 0 ==> r == Option::Some(Id(raw)),
{
    if raw == 0 {
        Option::None
    } else {
        Option::Some(Id(raw))
    }
}

/// Whether an id belongs to the official range.
pub open spec fn spec_is_official(id: Id) -> bool {
    id.0 < 2000000
}

impl Id {
    /// Whether the id names an official item.
    pub fn is_official(&self) -> (r: bool)
        ensures
            r == spec_is_official(*self),
    {
        self.0 < 2000000
    }

    /// Whether the id names a recipe item.
    pub fn is_recipe(&self) -> (r: bool)
        ensures
            r == !spec_is_official(*self),
    {
        !self.is_official()
    }
}

impl Item {
    /// Whether the item is an official item.
    pub fn is_official(&self) -> (r: bool)
        ensures
            r == spec_is_official(self.item_id),
    {
        self.item_id.is_official()
    }

    /// Whether the item is a recipe item.
    pub fn is_recipe(&self) -> (r: bool)
        ensures
            r == !spec_is_official(self.item_id),
    {
        self.item_id.is_recipe()
    }
}

/// Relies on `itertools::Itertools::sorted_by_key`: a stable sort of the
/// elements by the given key, here the catalogue order.
#[verifier::external_body]
fn sorted_by_sort(v: Vec<Item>) -> (r: Vec<Item>)
    ensures
        r@.to_multiset() == v@.to_multiset(),
        forall|i: int, j: int|
            0 <= i < j < r@.len() ==> #[trigger] r@[i].sort <= #[trigger] r@[j].sort,
{
    v.into_iter().sorted_by_key(|item| item.sort).collect()
}

/// The entries whose id lies in the official range, in their given order.
pub open spec fn spec_filter_official(s: Seq<Item>) -> Seq<Item> {
    s.filter(|it: Item| spec_is_official(it.item_id))
}

/// No two entries share an item id.
pub open spec fn spec_unique_ids(s: Seq<Item>) -> bool {
    forall|i: int, j: int|
        0 <= i < j < s.len() ==> (#[trigger] s[i].item_id) != (#[trigger] s[j].item_id)
}

/// The table an entry sequence denotes: entries applied left to right,
/// keyed by item id, a later entry replacing an earlier one.
pub open spec fn spec_items_table(s: Seq<Item>) -> Map<int, Item>
    decreases s.len(),
{
    if s.len() == 0 {
        Map::empty()
    } else {
        spec_items_table(s.drop_last()).insert(s.last().item_id.0 as int, s.last())
    }
}

/// The same table read off key/value pairs.
pub open spec fn spec_pairs_table(s: Seq<(Id, Item)>) -> Map<int, Item>
    decreases s.len(),
{
    if s.len() == 0 {
        Map::empty()
    } else {
        spec_pairs_table(s.drop_last()).insert(s.last().0.0 as int, s.last().1)
    }
}

/// No two pairs share a key.
pub open spec fn spec_unique_keys(s: Seq<(Id, Item)>) -> bool {
    forall|i: int, j: int| 0 <= i < j < s.len() ==> (#[trigger] s[i].0) != (#[trigger] s[j].0)
}

/// A key is in the table exactly when some pair carries it.
proof fn lemma_pairs_table_dom(s: Seq<(Id, Item)>, k: int)
    ensures
        spec_pairs_table(s).dom().contains(k) <==> exists|i: int|
            0 <= i < s.len() && #[trigger] s[i].0.0 as int == k,
    decreases s.len(),
{
    if s.len() > 0 {
        lemma_pairs_table_dom(s.drop_last(), k);
        if spec_pairs_table(s).dom().contains(k) {
            if s.last().0.0 as int == k {
                assert(s[s.len() - 1].0.0 as int == k);
            } else {
                let i = choose|i: int| 0 <= i < s.drop_last().len() && #[trigger] s.drop_last()[i].0.0 as int == k;
                assert(s[i].0.0 as int == k);
            }
        }
        if exists|i: int| 0 <= i < s.len() && #[trigger] s[i].0.0 as int == k {
            let i = choose|i: int| 0 <= i < s.len() && #[trigger] s[i].0.0 as int == k;
            if i < s.len() - 1 {
                assert(s.drop_last()[i].0.0 as int == k);
            }
        }
    }
}

/// Removing the pair that carries a key removes exactly that key from the
/// table, provided no other pair carries it.
proof fn lemma_pairs_table_remove(s: Seq<(Id, Item)>, i: int)
    requires
        spec_unique_keys(s),
        0 <= i < s.len(),
    ensures
        spec_pairs_table(s.remove(i)) == spec_pairs_table(s).remove(s[i].0.0 as int),
    decreases s.len(),
{
    let k = s[i].0.0 as int;
    if i == s.len() - 1 {
        assert(s.remove(i) =~= s.drop_last());
        lemma_pairs_table_dom(s.drop_last(), k);
        assert(forall|j: int| 0 <= j < s.drop_last().len() ==> #[trigger] s.drop_last()[j] == s[j]);
        assert(!spec_pairs_table(s.drop_last()).dom().contains(k));
        assert(spec_pairs_table(s.drop_last()) =~= spec_pairs_table(s).remove(k));
    } else {
        lemma_pairs_table_remove(s.drop_last(), i);
        assert(s.remove(i).drop_last() =~= s.drop_last().remove(i));
        assert(s.remove(i).last() == s.last());
        assert(spec_pairs_table(s.remove(i)) == spec_pairs_table(s.drop_last().remove(i)).insert(
            s.last().0.0 as int,
            s.last().1,
        ));
        assert(s.last().0.0 as int != k);
        assert(spec_pairs_table(s.drop_last()).remove(k).insert(s.last().0.0 as int, s.last().1)
            =~= spec_pairs_table(s).remove(k));
    }
}

impl Response {
    /// Wraps a list of entries as a catalogue.
    pub fn new(value: Vec<Item>) -> (r: Response)
        ensures
            r.spec_items() == value@,
    {
        Response { value }
    }

    /// The entries as the provider sent them.
    pub closed spec fn spec_items(&self) -> Seq<Item> {
        self.value@
    }

    /// The entries in catalogue order, leaving the catalogue in place.
    pub fn values(&self) -> (r: Vec<Item>)
        ensures
            r@.to_multiset() == self.spec_items().to_multiset(),
            forall|i: int, j: int|
                0 <= i < j < r@.len() ==> #[trigger] r@[i].sort <= #[trigger] r@[j].sort,
    {
        let mut c: Vec<Item> = Vec::new();
        let mut idx: usize = 0;
        while idx < self.value.len()
            invariant
                idx <= self.value.len(),
                c@ =~= self.value@.subrange(0, idx as int),
            decreases self.value.len() - idx,
        {
            c.push(self.value[idx].clone());
            idx += 1;
        }
        proof {
            assert(c@ =~= self.value@);
        }
        sorted_by_sort(c)
    }

    /// The entries in catalogue order, consuming the catalogue.
    pub fn into_values(self) -> (r: Vec<Item>)
        ensures
            r@.to_multiset() == self.spec_items().to_multiset(),
            forall|i: int, j: int|
                0 <= i < j < r@.len() ==> #[trigger] r@[i].sort <= #[trigger] r@[j].sort,
    {
        let Response { value } = self;
        sorted_by_sort(value)
    }

    /// Joins the two catalogues into one table keyed by item id.
    ///
    /// Official entries outside the official id range are dropped; recipe
    /// entries replace official entries that share an id.
    pub fn join_table(official: &Official, recipe: &Recipe) -> (r: Vec<(Id, Item)>)
        requires
            spec_unique_ids(official.0.spec_items()),
            spec_unique_ids(recipe.0.spec_items()),
        ensures
            spec_unique_keys(r@),
            spec_pairs_table(r@) == spec_items_table(
                spec_filter_official(official.0.spec_items()) + recipe.0.spec_items(),
            ),
    {
        let mut r: Vec<(Id, Item)> = Vec::new();
        let mut done_ghost: Ghost<Seq<Item>> = Ghost(Seq::empty());
        let mut idx: usize = 0;
        while idx < official.0.value.len()
            invariant
                idx <= official.0.value.len(),
                spec_unique_keys(r@),
                done_ghost@ =~= spec_filter_official(official.0.value@.subrange(0, idx as int)),
                spec_pairs_table(r@) == spec_items_table(done_ghost@),
            decreases official.0.value.len() - idx,
        {
            let it = &official.0.value[idx];
            let ghost done0 = done_ghost@;
            if it.is_official() {
                Self::upsert(&mut r, it);
                done_ghost = Ghost(done_ghost@.push(*it));
                proof {
                    assert(done_ghost@.drop_last() =~= done0);
                    assert(spec_items_table(done_ghost@) == spec_items_table(done0).insert(
                        it.item_id.0 as int,
                        *it,
                    ));
                }
            }
            idx += 1;
            proof {
                let pre = official.0.value@.subrange(0, idx - 1);
                let post = official.0.value@.subrange(0, idx as int);
                assert(post.drop_last() =~= pre);
                reveal(Seq::filter);
                assert(done_ghost@ =~= spec_filter_official(post));
            }
        }
        proof {
            assert(official.0.value@.subrange(0, official.0.value@.len() as int)
                =~= official.0.value@);
        }
        let mut jdx: usize = 0;
        while jdx < recipe.0.value.len()
            invariant
                jdx <= recipe.0.value.len(),
                spec_unique_keys(r@),
                done_ghost@ =~= spec_filter_official(official.0.value@) + recipe.0.value@.subrange(
                    0,
                    jdx as int,
                ),
                spec_pairs_table(r@) == spec_items_table(done_ghost@),
            decreases recipe.0.value.len() - jdx,
        {
            let it = &recipe.0.value[jdx];
            let ghost done0 = done_ghost@;
            Self::upsert(&mut r, it);
            done_ghost = Ghost(done_ghost@.push(*it));
            jdx += 1;
            proof {
                assert(done_ghost@.drop_last() =~= done0);
                assert(spec_items_table(done_ghost@) == spec_items_table(done0).insert(
                    it.item_id.0 as int,
                    *it,
                ));
                assert(done_ghost@ =~= spec_filter_official(official.0.value@)
                    + recipe.0.value@.subrange(0, jdx as int));
            }
        }
        proof {
            assert(done_ghost@ =~= spec_filter_official(official.0.spec_items())
                + recipe.0.spec_items());
        }
        r
    }

    /// Inserts an entry into the table, replacing the entry that shares its
    /// id, if any.
    fn upsert(r: &mut Vec<(Id, Item)>, it: &Item)
        requires
            spec_unique_keys(old(r)@),
        ensures
            spec_unique_keys(final(r)@),
            spec_pairs_table(final(r)@) == spec_pairs_table(old(r)@).insert(
                it.item_id.0 as int,
                *it,
            ),
    {
        let k = it.item_id;
        let mut i: usize = 0;
        while i < r.len()
            invariant
                i <= r.len(),
                k == it.item_id,
                spec_unique_keys(r@),
                r@ == old(r)@,
                forall|j: int| 0 <= j < i ==> (#[trigger] r@[j].0) != k,
            decreases r.len() - i,
        {
            if r[i].0.0 == k.0 {
                let ghost s0 = r@;
                let ghost s1 = r@.remove(i as int);
                proof {
                    assert(s0[i as int].0 == k);
                    lemma_pairs_table_remove(s0, i as int);
                    assert forall|j: int| 0 <= j < s1.len() implies (#[trigger] s1[j].0) != k by {
                        if j < i {
                            assert(s1[j] == s0[j]);
                        } else {
                            assert(s1[j] == s0[j + 1]);
                        }
                    }
                    assert forall|a: int, b: int| 0 <= a < b < s1.len() implies (
                    #[trigger] s1[a].0) != (#[trigger] s1[b].0) by {
                        if b < i {
                            assert(s1[a] == s0[a] && s1[b] == s0[b]);
                        } else if a < i {
                            assert(s1[a] == s0[a] && s1[b] == s0[b + 1]);
                        } else {
                            assert(s1[a] == s0[a + 1] && s1[b] == s0[b + 1]);
                        }
                    }
                }
                r.remove(i);
                r.push((k, it.clone()));
                proof {
                    assert(r@.drop_last() =~= s1);
                    assert(r@.last() == (k, *it));
                    assert(spec_pairs_table(r@) == spec_pairs_table(s1).insert(k.0 as int, *it));
                    assert(spec_pairs_table(s0).remove(k.0 as int).insert(k.0 as int, *it)
                        =~= spec_pairs_table(s0).insert(k.0 as int, *it));
                    assert forall|a: int, b: int| 0 <= a < b < r@.len() implies (
                    #[trigger] r@[a].0) != (#[trigger] r@[b].0) by {
                        if b < r@.len() - 1 {
                            assert(r@[a] == s1[a] && r@[b] == s1[b]);
                        } else {
                            assert(r@[a] == s1[a] && r@[b].0 == k);
                        }
                    }
                }
                return ;
            }
            i += 1;
        }
        let ghost s0 = r@;
        r.push((k, it.clone()));
        proof {
            assert(r@.drop_last() =~= s0);
            assert(r@.last() == (k, *it));
            assert forall|a: int, b: int| 0 <= a < b < r@.len() implies (#[trigger] r@[a].0) != (
            #[trigger] r@[b].0) by {
                if b < r@.len() - 1 {
                    assert(r@[a] == s0[a] && r@[b] == s0[b]);
                } else {
                    assert(r@[a] == s0[a] && r@[b].0 == k);
                }
            }
        }
    }
}

} // verus!
