//! In-memory stores of tags and items, with the atomic counter update that
//! makes every counter value of a dynamic tag acceptable at most once.
use vstd::prelude::*;
use crate::bytes::ids_eq;
use crate::text::str_eq;
use crate::time::UtcTime;
use crate::tags::entities::{Tag, TagStatus, Item};

verus! {

pub open spec fn tag_ids_distinct(s: Seq<Tag>) -> bool {
    forall|i: int, j: int| 0 <= i < j < s.len() ==> s[i].id != s[j].id
}

pub open spec fn has_tag(s: Seq<Tag>, id: [u8; 16]) -> bool {
    exists|i: int| 0 <= i < s.len() && s[i].id == id
}

pub open spec fn tag_index(s: Seq<Tag>, id: [u8; 16]) -> int {
    choose|i: int| 0 <= i < s.len() && s[i].id == id
}

/// Whether a counter value may be accepted after `last`: the first value
/// for a tag without one, otherwise only a strictly greater one.
pub open spec fn counter_accepts(last: Option<i64>, counter: i64) -> bool {
    match last {
        None => true,
        Some(l) => l < counter,
    }
}

/// What an attempt to record `counter` for the tag `id` answers, and the
/// tags after it.
pub open spec fn counter_update_result(s: Seq<Tag>, id: [u8; 16], counter: i64, now: UtcTime) -> (bool, Seq<Tag>) {
    if has_tag(s, id) && counter_accepts(s[tag_index(s, id)].last_counter, counter) {
        (true, s.update(tag_index(s, id), Tag { last_counter: Some(counter), updated_at: now, ..s[tag_index(s, id)] }))
    } else {
        (false, s)
    }
}

/// Two tag sequences with the same ids at the same places.
pub open spec fn same_tag_ids(a: Seq<Tag>, b: Seq<Tag>) -> bool {
    a.len() == b.len() && forall|k: int| 0 <= k < a.len() ==> a[k].id == b[k].id
}

/// Sequences with the same ids agree on which ids they hold and where.
pub proof fn lemma_same_tag_ids(a: Seq<Tag>, b: Seq<Tag>)
    requires
        tag_ids_distinct(a),
        same_tag_ids(a, b),
    ensures
        tag_ids_distinct(b),
        forall|id: [u8; 16]| has_tag(b, id) <==> has_tag(a, id),
        forall|id: [u8; 16]| has_tag(a, id) ==> tag_index(b, id) == tag_index(a, id),
{
    assert forall|x: int, y: int| 0 <= x < y < b.len() implies b[x].id != b[y].id by {
        assert(a[x].id != a[y].id);
    }
    assert forall|id: [u8; 16]| has_tag(b, id) <==> has_tag(a, id) by {
        if has_tag(b, id) {
            let k = choose|k: int| 0 <= k < b.len() && b[k].id == id;
            assert(a[k].id == id);
        }
        if has_tag(a, id) {
            let k = choose|k: int| 0 <= k < a.len() && a[k].id == id;
            assert(b[k].id == id);
        }
    }
    assert forall|id: [u8; 16]| has_tag(a, id) implies tag_index(b, id) == tag_index(a, id) by {
        let k = tag_index(a, id);
        let m = tag_index(b, id);
        assert(b[k].id == id);
        assert(a[m].id == id);
    }
}

/// Tags, each kept once per id.
pub struct TagStore {
    tags: Vec<Tag>,
}

impl TagStore {
    pub closed spec fn tags(&self) -> Seq<Tag> {
        self.tags@
    }

    pub open spec fn wf(&self) -> bool {
        tag_ids_distinct(self.tags())
    }

    /// The stored tag with this id (meaningful when `has_tag`).
    pub open spec fn tag(&self, id: [u8; 16]) -> Tag {
        self.tags()[tag_index(self.tags(), id)]
    }

    pub fn new() -> (s: TagStore)
        ensures
            s.wf(),
            s.tags().len() == 0,
    {
        TagStore { tags: Vec::new() }
    }

    fn find_index(&self, id: &[u8; 16]) -> (r: Option<usize>)
        requires
            self.wf(),
        ensures
            match r {
                Some(i) => i < self.tags().len() && self.tags()[i as int].id == *id
                    && tag_index(self.tags(), *id) == i,
                None => !has_tag(self.tags(), *id),
            },
    {
        let mut i: usize = 0;
        while i < self.tags.len()
            invariant
                self.wf(),
                i <= self.tags@.len(),
                forall|k: int| 0 <= k < i ==> self.tags@[k].id != *id,
            decreases self.tags@.len() - i,
        {
            if ids_eq(&self.tags[i].id, id) {
                proof {
                    let j = tag_index(self.tags(), *id);
                    if j != i {
                        assert(self.tags()[j].id == *id);
                    }
                }
                return Some(i);
            }
            i = i + 1;
        }
        None
    }

    /// Stores a tag, replacing the one with the same id.
    pub fn save(&mut self, tag: Tag)
        requires
            old(self).wf(),
        ensures
            final(self).wf(),
            has_tag(final(self).tags(), tag.id),
            final(self).tag(tag.id) == tag,
            forall|id: [u8; 16]| id != tag.id ==> (has_tag(final(self).tags(), id) <==> has_tag(old(self).tags(), id)),
            forall|id: [u8; 16]| id != tag.id && has_tag(old(self).tags(), id) ==> final(self).tag(id) == old(self).tag(id),
    {
        let id = tag.id;
        match self.find_index(&id) {
            Some(i) => {
                let _ = self.tags.remove(i);
                self.tags.insert(i, tag);
                proof {
                    assert(same_tag_ids(old(self).tags(), self.tags()));
            lemma_same_tag_ids(old(self).tags(), self.tags());
                    assert forall|x: [u8; 16]| x != id && has_tag(old(self).tags(), x) implies self.tag(x) == old(self).tag(x) by {
                        assert(tag_index(self.tags(), x) != i);
                    }
                }
            },
            None => {
                self.tags.push(tag);
                proof {
                    let s = self.tags();
                    let before = old(self).tags();
                    let n = before.len() as int;
                    assert forall|a: int, b: int| 0 <= a < b < s.len() implies s[a].id != s[b].id by {
                        if b == n {
                            assert(s[a].id == before[a].id);
                        } else {
                            assert(before[a].id != before[b].id);
                        }
                    }
                    assert(s[n].id == id);
                    assert forall|x: [u8; 16]| x != id implies (has_tag(s, x) <==> has_tag(before, x)) by {
                        if has_tag(s, x) {
                            let k = choose|k: int| 0 <= k < s.len() && s[k].id == x;
                            assert(before[k].id == x);
                        }
                        if has_tag(before, x) {
                            let k = choose|k: int| 0 <= k < before.len() && before[k].id == x;
                            assert(s[k].id == x);
                        }
                    }
                    assert forall|x: [u8; 16]| x != id && has_tag(before, x) implies self.tag(x) == old(self).tag(x) by {
                        let k = tag_index(before, x);
                        let m = tag_index(s, x);
                        assert(s[k].id == x);
                        assert(m != n);
                        assert(before[m].id == x);
                    }
                    assert(tag_index(s, id) == n);
                }
            },
        }
    }

    /// The stored tag with this id.
    pub fn find_by_id(&self, id: &[u8; 16]) -> (r: Option<&Tag>)
        requires
            self.wf(),
        ensures
            match r {
                Some(t) => has_tag(self.tags(), *id) && *t == self.tag(*id),
                None => !has_tag(self.tags(), *id),
            },
    {
        match self.find_index(id) {
            Some(i) => Some(&self.tags[i]),
            None => None,
        }
    }

    /// A stored tag with this identifier.
    pub fn find_by_uid(&self, tag_uid: &str) -> (r: Option<&Tag>)
        ensures
            match r {
                Some(t) => self.tags().contains(*t) && t.tag_uid@ == tag_uid@,
                None => forall|k: int| 0 <= k < self.tags().len() ==> self.tags()[k].tag_uid@ != tag_uid@,
            },
    {
        let mut i: usize = 0;
        while i < self.tags.len()
            invariant
                i <= self.tags@.len(),
                forall|k: int| 0 <= k < i ==> self.tags@[k].tag_uid@ != tag_uid@,
            decreases self.tags@.len() - i,
        {
            if str_eq(self.tags[i].tag_uid.as_str(), tag_uid) {
                assert(self.tags@[i as int] == self.tags@[i as int]);
                return Some(&self.tags[i]);
            }
            i = i + 1;
        }
        None
    }

    /// Every stored tag.
    pub fn list_all(&self) -> (r: &[Tag])
        ensures
            r@ == self.tags(),
    {
        self.tags.as_slice()
    }

    /// Records `counter` as the tag's last accepted counter, only when it
    /// exceeds the previous one (or there is none); tells whether it did.
    pub fn update_counter_if_greater(&mut self, id: &[u8; 16], counter: i64, now: UtcTime) -> (r: bool)
        requires
            old(self).wf(),
        ensures
            final(self).wf(),
            (r, final(self).tags()) == counter_update_result(old(self).tags(), *id, counter, now),
    {
        let i = match self.find_index(id) {
            Some(i) => i,
            None => return false,
        };
        let accept = match self.tags[i].last_counter {
            None => true,
            Some(l) => l < counter,
        };
        if !accept {
            return false;
        }
        let mut t = self.tags.remove(i);
        t.last_counter = Some(counter);
        t.updated_at = now;
        self.tags.insert(i, t);
        proof {
            assert(self.tags() =~= old(self).tags().update(i as int,
                Tag { last_counter: Some(counter), updated_at: now, ..old(self).tag(*id) }));
            assert(same_tag_ids(old(self).tags(), self.tags()));
            lemma_same_tag_ids(old(self).tags(), self.tags());
        }
        true
    }

    fn modify_at(&mut self, i: usize, status: Option<TagStatus>, key_version: Option<i32>, clear_counter: bool, now: UtcTime)
        requires
            old(self).wf(),
            i < old(self).tags().len(),
        ensures
            final(self).wf(),
            final(self).tags() == old(self).tags().update(i as int, updated_tag(old(self).tags()[i as int],
                status, key_version, clear_counter, now)),
            forall|id: [u8; 16]| has_tag(final(self).tags(), id) <==> has_tag(old(self).tags(), id),
            forall|id: [u8; 16]| has_tag(old(self).tags(), id) ==> tag_index(final(self).tags(), id)
                == tag_index(old(self).tags(), id),
    {
        let mut t = self.tags.remove(i);
        match status {
            Some(s) => { t.status = s; },
            None => {},
        }
        match key_version {
            Some(v) => { t.key_version = v; },
            None => {},
        }
        if clear_counter {
            t.last_counter = None;
        }
        t.updated_at = now;
        self.tags.insert(i, t);
        proof {
            assert(self.tags() =~= old(self).tags().update(i as int, updated_tag(old(self).tags()[i as int],
                status, key_version, clear_counter, now)));
            assert(same_tag_ids(old(self).tags(), self.tags()));
            lemma_same_tag_ids(old(self).tags(), self.tags());
        }
    }

    /// Marks the tag revoked.
    pub fn revoke(&mut self, id: &[u8; 16], now: UtcTime)
        requires
            old(self).wf(),
        ensures
            final(self).wf(),
            has_tag(old(self).tags(), *id) ==> final(self).tags() == old(self).tags().update(
                tag_index(old(self).tags(), *id), Tag { status: TagStatus::Revoked, updated_at: now, ..old(self).tag(*id) }),
            !has_tag(old(self).tags(), *id) ==> final(self).tags() == old(self).tags(),
    {
        if let Some(i) = self.find_index(id) {
            self.modify_at(i, Some(TagStatus::Revoked), None, false, now);
        }
    }

    /// Moves the tag to a new key version, clearing its counter when asked.
    pub fn rotate_key(&mut self, id: &[u8; 16], new_version: i32, reset_counter: bool, now: UtcTime)
        requires
            old(self).wf(),
        ensures
            final(self).wf(),
            has_tag(old(self).tags(), *id) ==> final(self).tags() == old(self).tags().update(
                tag_index(old(self).tags(), *id), Tag {
                    key_version: new_version,
                    last_counter: if reset_counter { None } else { old(self).tag(*id).last_counter },
                    updated_at: now,
                    ..old(self).tag(*id)
                }),
            !has_tag(old(self).tags(), *id) ==> final(self).tags() == old(self).tags(),
    {
        if let Some(i) = self.find_index(id) {
            self.modify_at(i, None, Some(new_version), reset_counter, now);
        }
    }

    /// Clears the tag's counter, so that any counter value is accepted next.
    pub fn reset_counter(&mut self, id: &[u8; 16], now: UtcTime)
        requires
            old(self).wf(),
        ensures
            final(self).wf(),
            has_tag(old(self).tags(), *id) ==> final(self).tags() == old(self).tags().update(
                tag_index(old(self).tags(), *id), Tag { last_counter: None, updated_at: now, ..old(self).tag(*id) }),
            !has_tag(old(self).tags(), *id) ==> final(self).tags() == old(self).tags(),
    {
        if let Some(i) = self.find_index(id) {
            self.modify_at(i, None, None, true, now);
        }
    }
}

/// A tag after an update of its status, key version or counter.
pub open spec fn updated_tag(t: Tag, status: Option<TagStatus>, key_version: Option<i32>, clear_counter: bool, now: UtcTime) -> Tag {
    Tag {
        status: match status { Some(s) => s, None => t.status },
        key_version: match key_version { Some(v) => v, None => t.key_version },
        last_counter: if clear_counter { None } else { t.last_counter },
        updated_at: now,
        ..t
    }
}

/// The items after storing `item`: it replaces the first item with its id,
/// or is appended when there is none.
pub open spec fn saved_item(items: Seq<Item>, item: Item, result: Seq<Item>) -> bool {
    ||| exists|k: int| 0 <= k < items.len() && items[k].id == item.id
            && (forall|j: int| 0 <= j < k ==> items[j].id != item.id) && result == items.update(k, item)
    ||| (forall|j: int| 0 <= j < items.len() ==> items[j].id != item.id) && result == items.push(item)
}

/// Items, in the order they were stored.
pub struct ItemStore {
    items: Vec<Item>,
}

impl ItemStore {
    pub closed spec fn items(&self) -> Seq<Item> {
        self.items@
    }

    pub fn new() -> (s: ItemStore)
        ensures
            s.items().len() == 0,
    {
        ItemStore { items: Vec::new() }
    }

    /// Stores an item, replacing the one with the same id.
    pub fn save(&mut self, item: Item)
        ensures
            saved_item(old(self).items(), item, final(self).items()),
            final(self).items().contains(item),
            forall|k: int| 0 <= k < old(self).items().len() && old(self).items()[k].id != item.id
                ==> final(self).items().contains(#[trigger] old(self).items()[k]),
    {
        let mut i: usize = 0;
        while i < self.items.len()
            invariant
                self.items@ == old(self).items(),
                i <= self.items@.len(),
                forall|k: int| 0 <= k < i ==> self.items@[k].id != item.id,
            decreases self.items@.len() - i,
        {
            if ids_eq(&self.items[i].id, &item.id) {
                let _ = self.items.remove(i);
                self.items.insert(i, item);
                proof {
                    assert(self.items@ =~= old(self).items().update(i as int, item));
                    assert(self.items@[i as int] == item);
                    assert forall|k: int| 0 <= k < old(self).items().len() && old(self).items()[k].id != item.id
                        implies self.items@.contains(#[trigger] old(self).items()[k]) by {
                        assert(k != i);
                        assert(self.items@[k] == old(self).items()[k]);
                    }
                }
                return;
            }
            i = i + 1;
        }
        self.items.push(item);
        proof {
            assert(self.items@ =~= old(self).items().push(item));
            assert(self.items@.last() == item);
            assert forall|k: int| 0 <= k < old(self).items().len() && old(self).items()[k].id != item.id
                implies self.items@.contains(#[trigger] old(self).items()[k]) by {
                assert(self.items@[k] == old(self).items()[k]);
            }
        }
    }

    /// The first stored item attached to this tag.
    pub fn find_by_tag_id(&self, tag_id: &[u8; 16]) -> (r: Option<&Item>)
        ensures
            match r {
                Some(it) => self.items().contains(*it) && it.tag_id == *tag_id
                    && exists|k: int| 0 <= k < self.items().len() && self.items()[k] == *it
                        && forall|j: int| 0 <= j < k ==> self.items()[j].tag_id != *tag_id,
                None => forall|k: int| 0 <= k < self.items().len() ==> self.items()[k].tag_id != *tag_id,
            },
    {
        let mut i: usize = 0;
        while i < self.items.len()
            invariant
                i <= self.items@.len(),
                forall|k: int| 0 <= k < i ==> self.items@[k].tag_id != *tag_id,
            decreases self.items@.len() - i,
        {
            if ids_eq(&self.items[i].tag_id, tag_id) {
                assert(self.items@[i as int] == self.items@[i as int]);
                return Some(&self.items[i]);
            }
            i = i + 1;
        }
        None
    }

    /// Every stored item.
    pub fn list_all(&self) -> (r: &[Item])
        ensures
            r@ == self.items(),
    {
        self.items.as_slice()
    }

    /// Whether some item has this product code.
    pub fn exists_by_product_code(&self, product_code: &str) -> (r: bool)
        ensures
            r == exists|k: int| 0 <= k < self.items().len() && #[trigger] self.items()[k].product_code@ == product_code@,
    {
        let mut i: usize = 0;
        while i < self.items.len()
            invariant
                i <= self.items@.len(),
                forall|k: int| 0 <= k < i ==> self.items@[k].product_code@ != product_code@,
            decreases self.items@.len() - i,
        {
            if str_eq(self.items[i].product_code.as_str(), product_code) {
                assert(self.items@[i as int].product_code@ == product_code@);
                return true;
            }
            i = i + 1;
        }
        false
    }
}

} // verus!
