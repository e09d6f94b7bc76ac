//! Catalog listings for administrators: items with their tags, and tags
//! with their items, newest first.
use vstd::prelude::*;
use crate::bytes::ids_eq;
use crate::text::clone_opt_string;
use crate::time::UtcTime;
use crate::tags::entities::{Tag, Item};

verus! {

/// An item with the tag attached to it.
pub struct CatalogItemView {
    pub item: Item,
    pub tag: Tag,
}

/// A tag with the item it is attached to, if any.
pub struct CatalogTagView {
    pub tag: Tag,
    pub item: Option<Item>,
}

/// A copy of a tag.
pub fn copy_tag(t: &Tag) -> (r: Tag)
    ensures
        r == *t,
{
    Tag {
        id: t.id,
        tag_uid: t.tag_uid.clone(),
        mode: t.mode,
        status: t.status,
        key_version: t.key_version,
        last_counter: t.last_counter,
        created_at: t.created_at,
        updated_at: t.updated_at,
    }
}

/// A copy of an item.
pub fn copy_item(i: &Item) -> (r: Item)
    ensures
        r == *i,
{
    Item {
        id: i.id,
        product_code: i.product_code.clone(),
        size: clone_opt_string(&i.size),
        color: clone_opt_string(&i.color),
        tag_id: i.tag_id,
        created_at: i.created_at,
        updated_at: i.updated_at,
    }
}

/// Order of a listing, newest first: `a` (at position `ai` of the input)
/// comes before `b` (at `bi`) when it is more recent, or as recent and
/// earlier in the input.
pub open spec fn listed_before(a: UtcTime, ai: int, b: UtcTime, bi: int) -> bool {
    b.earlier(a) || (a == b && ai < bi)
}

/// `perm` lists the positions `0..keys.len()` once each, newest first.
pub open spec fn newest_first(keys: Seq<UtcTime>, perm: Seq<int>) -> bool {
    &&& perm.len() == keys.len()
    &&& forall|i: int| 0 <= i < perm.len() ==> 0 <= #[trigger] perm[i] < keys.len()
    &&& forall|i: int, j: int| 0 <= i < j < perm.len() ==> perm[i] != perm[j]
    &&& forall|i: int, j: int| 0 <= i < j < perm.len()
        ==> listed_before(keys[perm[i]], perm[i], keys[perm[j]], perm[j])
}

proof fn lemma_listed_before_transitive(a: UtcTime, ai: int, b: UtcTime, bi: int, c: UtcTime, ci: int)
    requires
        listed_before(a, ai, b, bi),
        listed_before(b, bi, c, ci),
    ensures
        listed_before(a, ai, c, ci),
{
}

/// Positions of `keys` newest first, ties kept in input order.
pub fn order_newest_first(keys: &Vec<UtcTime>) -> (r: Vec<usize>)
    ensures
        newest_first(keys@, r@.map_values(|i: usize| i as int)),
{
    let mut r: Vec<usize> = Vec::new();
    let mut k: usize = 0;
    while k < keys.len()
        invariant
            k <= keys@.len(),
            r@.len() == k,
            forall|i: int| 0 <= i < r@.len() ==> #[trigger] r@[i] < k,
            forall|i: int, j: int| 0 <= i < j < r@.len() ==> r@[i] != r@[j],
            forall|i: int, j: int| 0 <= i < j < r@.len()
                ==> listed_before(keys@[r@[i] as int], r@[i] as int, keys@[r@[j] as int], r@[j] as int),
        decreases keys@.len() - k,
    {
        let key = keys[k];
        let mut p: usize = 0;
        while p < r.len() && !keys[r[p]].is_before(&key)
            invariant
                p <= r@.len(),
                r@.len() == k,
                k < keys@.len(),
                key == keys@[k as int],
                forall|i: int| 0 <= i < r@.len() ==> #[trigger] r@[i] < k,
                forall|q: int| 0 <= q < p ==> !keys@[#[trigger] r@[q] as int].earlier(key),
            decreases r@.len() - p,
        {
            p = p + 1;
        }
        let ghost before = r@;
        r.insert(p, k);
        proof {
            assert forall|i: int, j: int| 0 <= i < j < r@.len()
                implies listed_before(keys@[r@[i] as int], r@[i] as int, keys@[r@[j] as int], r@[j] as int) by {
                if j < p {
                    assert(r@[i] == before[i] && r@[j] == before[j]);
                } else if j == p {
                    assert(r@[i] == before[i]);
                    assert(before[i] < k);
                } else if i == p {
                    assert(r@[j] == before[j - 1]);
                    if j - 1 > p {
                        lemma_listed_before_transitive(
                            key, k as int,
                            keys@[before[p as int] as int], before[p as int] as int,
                            keys@[before[j - 1] as int], before[j - 1] as int);
                    }
                } else if i < p {
                    assert(r@[i] == before[i] && r@[j] == before[j - 1]);
                } else {
                    assert(r@[i] == before[i - 1] && r@[j] == before[j - 1]);
                }
            }
        }
        k = k + 1;
    }
    proof {
        let m = r@.map_values(|i: usize| i as int);
        assert forall|i: int| 0 <= i < m.len() implies 0 <= #[trigger] m[i] < keys@.len() by {
            assert(m[i] == r@[i] as int);
        }
        assert forall|i: int, j: int| 0 <= i < j < m.len() implies m[i] != m[j] by {
            assert(m[i] == r@[i] as int && m[j] == r@[j] as int);
        }
    }
    r
}

/// The tag that the listing attaches to an id: the last one stored with it.
pub open spec fn tag_for(tags: Seq<Tag>, id: [u8; 16]) -> Option<Tag>
    decreases tags.len(),
{
    if tags.len() == 0 {
        None
    } else if tags.last().id == id {
        Some(tags.last())
    } else {
        tag_for(tags.drop_last(), id)
    }
}

/// The item that the listing attaches to a tag id: the last one stored with it.
pub open spec fn item_for(items: Seq<Item>, tag_id: [u8; 16]) -> Option<Item>
    decreases items.len(),
{
    if items.len() == 0 {
        None
    } else if items.last().tag_id == tag_id {
        Some(items.last())
    } else {
        item_for(items.drop_last(), tag_id)
    }
}

/// The items that have a tag, in input order, each with its tag.
pub open spec fn joined_items(items: Seq<Item>, tags: Seq<Tag>) -> Seq<(Item, Tag)>
    decreases items.len(),
{
    if items.len() == 0 {
        seq![]
    } else {
        let rest = joined_items(items.drop_last(), tags);
        match tag_for(tags, items.last().tag_id) {
            Some(t) => rest.push((items.last(), t)),
            None => rest,
        }
    }
}

fn find_tag<'a>(tags: &'a [Tag], id: &[u8; 16]) -> (r: Option<&'a Tag>)
    ensures
        match r {
            Some(t) => tag_for(tags@, *id) == Some(*t),
            None => tag_for(tags@, *id) is None,
        },
{
    let mut k: usize = tags.len();
    proof {
        assert(tags@.subrange(0, tags@.len() as int) =~= tags@);
    }
    while k > 0
        invariant
            k <= tags@.len(),
            tag_for(tags@, *id) == tag_for(tags@.subrange(0, k as int), *id),
        decreases k,
    {
        proof {
            assert(tags@.subrange(0, k as int).drop_last() =~= tags@.subrange(0, k - 1));
        }
        if ids_eq(&tags[k - 1].id, id) {
            return Some(&tags[k - 1]);
        }
        k = k - 1;
    }
    None
}

fn find_item<'a>(items: &'a [Item], tag_id: &[u8; 16]) -> (r: Option<&'a Item>)
    ensures
        match r {
            Some(i) => item_for(items@, *tag_id) == Some(*i),
            None => item_for(items@, *tag_id) is None,
        },
{
    let mut k: usize = items.len();
    proof {
        assert(items@.subrange(0, items@.len() as int) =~= items@);
    }
    while k > 0
        invariant
            k <= items@.len(),
            item_for(items@, *tag_id) == item_for(items@.subrange(0, k as int), *tag_id),
        decreases k,
    {
        proof {
            assert(items@.subrange(0, k as int).drop_last() =~= items@.subrange(0, k - 1));
        }
        if ids_eq(&items[k - 1].tag_id, tag_id) {
            return Some(&items[k - 1]);
        }
        k = k - 1;
    }
    None
}

/// Items that have a tag, each with its tag, newest item first; items of
/// the same age keep their input order.
pub fn catalog_items(items: &[Item], tags: &[Tag]) -> (r: Vec<CatalogItemView>)
    ensures
        ({
            let joined = joined_items(items@, tags@);
            let keys = joined.map_values(|p: (Item, Tag)| p.0.created_at);
            r@.len() == joined.len() && exists|perm: Seq<int>| newest_first(keys, perm)
                && forall|i: int| 0 <= i < r@.len() ==> (#[trigger] r@[i]).item == joined[perm[i]].0
                    && r@[i].tag == joined[perm[i]].1
        }),
{
    let mut joined: Vec<CatalogItemView> = Vec::new();
    let mut keys: Vec<UtcTime> = Vec::new();
    let mut k: usize = 0;
    while k < items.len()
        invariant
            k <= items@.len(),
            joined@.len() == joined_items(items@.subrange(0, k as int), tags@).len(),
            keys@.len() == joined@.len(),
            forall|i: int| 0 <= i < joined@.len() ==> (#[trigger] joined@[i]).item
                == joined_items(items@.subrange(0, k as int), tags@)[i].0
                && joined@[i].tag == joined_items(items@.subrange(0, k as int), tags@)[i].1
                && keys@[i] == joined@[i].item.created_at,
        decreases items@.len() - k,
    {
        proof {
            assert(items@.subrange(0, k + 1).drop_last() =~= items@.subrange(0, k as int));
        }
        match find_tag(tags, &items[k].tag_id) {
            Some(t) => {
                keys.push(items[k].created_at);
                joined.push(CatalogItemView { item: copy_item(&items[k]), tag: copy_tag(t) });
            },
            None => {},
        }
        k = k + 1;
    }
    proof {
        assert(items@.subrange(0, items@.len() as int) =~= items@);
    }
    let ghost j = joined_items(items@, tags@);
    proof {
        assert(joined_items(items@.subrange(0, items@.len() as int), tags@) == j);
        assert forall|i: int| 0 <= i < keys@.len() implies keys@[i] == j.map_values(|p: (Item, Tag)| p.0.created_at)[i] by {
            assert(joined@[i].item == j[i].0);
        }
        assert(keys@ =~= j.map_values(|p: (Item, Tag)| p.0.created_at));
    }
    let order = order_newest_first(&keys);
    let mut out: Vec<CatalogItemView> = Vec::new();
    let mut q: usize = 0;
    while q < order.len()
        invariant
            newest_first(keys@, order@.map_values(|i: usize| i as int)),
            keys@.len() == joined@.len(),
            joined@.len() == j.len(),
            forall|i: int| 0 <= i < joined@.len() ==> (#[trigger] joined@[i]).item == j[i].0 && joined@[i].tag == j[i].1,
            q <= order@.len(),
            out@.len() == q,
            forall|i: int| 0 <= i < q ==> (#[trigger] out@[i]).item == j[order@[i] as int].0
                && out@[i].tag == j[order@[i] as int].1,
        decreases order@.len() - q,
    {
        proof {
            assert(order@.map_values(|i: usize| i as int)[q as int] == order@[q as int] as int);
        }
        let v = &joined[order[q]];
        out.push(CatalogItemView { item: copy_item(&v.item), tag: copy_tag(&v.tag) });
        q = q + 1;
    }
    proof {
        let perm = order@.map_values(|i: usize| i as int);
        assert forall|i: int| 0 <= i < out@.len() implies (#[trigger] out@[i]).item == j[perm[i]].0
            && out@[i].tag == j[perm[i]].1 by {
            assert(perm[i] == order@[i] as int);
        }
    }
    out
}

/// The order of tags, newest first, by creation.
pub open spec fn tag_keys(tags: Seq<Tag>) -> Seq<UtcTime> {
    tags.map_values(|t: Tag| t.created_at)
}

/// Every tag with its item, if any, newest tag first; tags of the same age
/// keep their input order.
pub fn catalog_tags(items: &[Item], tags: &[Tag]) -> (r: Vec<CatalogTagView>)
    ensures
        r@.len() == tags@.len(),
        exists|perm: Seq<int>| newest_first(tag_keys(tags@), perm)
            && forall|i: int| 0 <= i < r@.len() ==> (#[trigger] r@[i]).tag == tags@[perm[i]]
                && r@[i].item == item_for(items@, tags@[perm[i]].id),
{
    let mut keys: Vec<UtcTime> = Vec::new();
    let mut k: usize = 0;
    while k < tags.len()
        invariant
            k <= tags@.len(),
            keys@.len() == k,
            forall|i: int| 0 <= i < k ==> #[trigger] keys@[i] == tags@[i].created_at,
        decreases tags@.len() - k,
    {
        keys.push(tags[k].created_at);
        k = k + 1;
    }
    proof {
        assert(keys@ =~= tag_keys(tags@));
    }
    let order = order_newest_first(&keys);
    let mut out: Vec<CatalogTagView> = Vec::new();
    let mut q: usize = 0;
    while q < order.len()
        invariant
            newest_first(keys@, order@.map_values(|i: usize| i as int)),
            keys@.len() == tags@.len(),
            q <= order@.len(),
            out@.len() == q,
            forall|i: int| 0 <= i < q ==> (#[trigger] out@[i]).tag == tags@[order@[i] as int]
                && out@[i].item == item_for(items@, tags@[order@[i] as int].id),
        decreases order@.len() - q,
    {
        proof {
            assert(order@.map_values(|i: usize| i as int)[q as int] == order@[q as int] as int);
        }
        let t = &tags[order[q]];
        let item = match find_item(items, &t.id) {
            Some(i) => Some(copy_item(i)),
            None => None,
        };
        out.push(CatalogTagView { tag: copy_tag(t), item });
        q = q + 1;
    }
    proof {
        let perm = order@.map_values(|i: usize| i as int);
        assert forall|i: int| 0 <= i < out@.len() implies (#[trigger] out@[i]).tag == tags@[perm[i]]
            && out@[i].item == item_for(items@, tags@[perm[i]].id) by {
            assert(perm[i] == order@[i] as int);
        }
    }
    out
}

} // verus!
