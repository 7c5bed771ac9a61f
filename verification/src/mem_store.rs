use vstd::prelude::*;

use std::collections::HashMap;

use crate::errors::StoreError;
use crate::model::{
    checksum_current, clone_ids, item_checksum_current, item_required_present, required_present,
    Feed, FeedItem, FeedItemView, FeedView, ItemsRepresentation, ItemsRepresentationView,
};
use crate::store::{
    remove_id, selected_refs, updated_feed, updated_item, FeedItemStore, FeedStore,
};

verus! {

/// An in-memory backend adapter: the reference implementation of the
/// storage capability interface, holding the feeds and the feed items in
/// two hash maps keyed by identifier.
pub struct MemStore {
    feeds: HashMap<u128, Feed>,
    items: HashMap<u128, FeedItem>,
}

/// A stored feed is well-formed under its key: keyed by its own identifier,
/// validated, with a current checksum, reduced to references only, its
/// references distinct and each of them resolving to a stored item.
pub open spec fn stored_feed_ok(id: u128, f: FeedView, items: Map<u128, FeedItem>) -> bool {
    &&& f.uuid == Option::Some(id)
    &&& required_present(f)
    &&& checksum_current(f)
    &&& (f.items is None || f.items matches Option::Some(
        ItemsRepresentationView::ReferencesOnly(_),
    ))
    &&& forall|i: int, j: int| 0 <= i < j < f.refs().len() ==> f.refs()[i] != f.refs()[j]
    &&& forall|k: int| 0 <= k < f.refs().len() ==> items.contains_key(#[trigger] f.refs()[k])
}

/// A stored item is well-formed under its key: keyed by its own identifier,
/// validated, with a current checksum.
pub open spec fn stored_item_ok(id: u128, it: FeedItemView) -> bool {
    &&& it.uuid == Option::Some(id)
    &&& item_required_present(it)
    &&& item_checksum_current(it)
}

/// The store's invariant: every stored aggregate is well-formed, the
/// reference lists of distinct feeds are disjoint, and every stored item is
/// reachable from exactly one feed's reference list.
pub open spec fn store_wf(feeds: Map<u128, Feed>, items: Map<u128, FeedItem>) -> bool {
    &&& forall|id: u128| #[trigger]
        feeds.contains_key(id) ==> stored_feed_ok(id, feeds[id]@, items)
    &&& forall|id: u128| #[trigger] items.contains_key(id) ==> stored_item_ok(id, items[id]@)
    &&& forall|id1: u128, id2: u128, r: u128|
        #![trigger feeds[id1]@.refs().contains(r), feeds[id2]@.refs().contains(r)]
        feeds.contains_key(id1) && feeds.contains_key(id2) && id1 != id2 && feeds[
            id1
        ]@.refs().contains(r) ==> !feeds[id2]@.refs().contains(r)
    &&& forall|r: u128| #[trigger]
        items.contains_key(r) ==> exists|id: u128|
            feeds.contains_key(id) && #[trigger] feeds[id]@.refs().contains(r)
}

/// The view of a feed map.
pub open spec fn feeds_view(feeds: Map<u128, Feed>) -> Map<u128, FeedView> {
    feeds.map_values(|f: Feed| f@)
}

/// The view of an item map.
pub open spec fn items_map_view(items: Map<u128, FeedItem>) -> Map<u128, FeedItemView> {
    items.map_values(|it: FeedItem| it@)
}

/// Whether a list of identifiers holds one, by a linear scan.
fn contains_id(v: &Vec<u128>, id: u128) -> (r: bool)
    ensures
        r == v@.contains(id),
{
    let mut i: usize = 0;
    while i < v.len()
        invariant
            i <= v.len(),
            forall|j: int| 0 <= j < i ==> v@[j] != id,
        decreases v.len() - i,
    {
        if v[i] == id {
            return true;
        }
        i = i + 1;
    }
    false
}

/// The reference list of a feed that is reduced to references only, as an
/// owned list; empty if the feed has no item collection.
fn refs_of_feed(f: &Feed) -> (r: Vec<u128>)
    requires
        f@.items is None || f@.items matches Option::Some(
            ItemsRepresentationView::ReferencesOnly(_),
        ),
    ensures
        r@ == f@.refs(),
{
    match &f.items {
        Option::None => Vec::new(),
        Option::Some(ItemsRepresentation::ReferencesOnly(ids)) => clone_ids(ids),
        Option::Some(ItemsRepresentation::Materialized(_)) => {
            proof {
                assert(false);
            }
            Vec::new()
        },
    }
}

impl MemStore {
    /// Create an empty store.
    pub fn new() -> (r: MemStore)
        ensures
            r.inv(),
            r.feeds_model() == Map::<u128, FeedView>::empty(),
            r.items_model() == Map::<u128, FeedItemView>::empty(),
    {
        let r = MemStore { feeds: HashMap::new(), items: HashMap::new() };
        proof {
            assert(feeds_view(r.feeds@) =~= Map::<u128, FeedView>::empty());
            assert(items_map_view(r.items@) =~= Map::<u128, FeedItemView>::empty());
        }
        r
    }
}

impl FeedStore for MemStore {
    closed spec fn feeds_model(&self) -> Map<u128, FeedView> {
        feeds_view(self.feeds@)
    }

    closed spec fn items_model(&self) -> Map<u128, FeedItemView> {
        items_map_view(self.items@)
    }

    closed spec fn inv(&self) -> bool {
        store_wf(self.feeds@, self.items@)
    }

    proof fn lemma_models_wf(&self) {
        assert forall|id: u128| self.items_model().contains_key(id) implies exists|parent: u128|
            self.feeds_model().contains_key(parent)
                && #[trigger] self.feeds_model()[parent].refs().contains(id) by {
            let parent = choose|parent: u128|
                self.feeds@.contains_key(parent) && #[trigger] self.feeds@[parent]@.refs().contains(
                    id,
                );
            assert(self.feeds_model().contains_key(parent) && self.feeds_model()[
                parent
            ].refs().contains(id));
        }
    }

    fn create_feed(&mut self, feed: Feed) -> (r: Result<Feed, StoreError>) {
        let id: u128 = feed.get_uuid().unwrap();
        if self.feeds.contains_key(&id) {
            return Err(StoreError::DuplicateIdentifier);
        }
        let stored: Feed = feed.clone();
        self.feeds.insert(id, stored);
        proof {
            assert(feeds_view(self.feeds@) =~= feeds_view(old(self).feeds@).insert(id, feed@));
            assert forall|id2: u128| self.feeds@.contains_key(id2) implies stored_feed_ok(
                id2,
                self.feeds@[id2]@,
                self.items@,
            ) by {
                if id2 != id {
                    assert(old(self).feeds@.contains_key(id2));
                }
            }
            assert forall|r: u128| self.items@.contains_key(r) implies exists|fid: u128|
                self.feeds@.contains_key(fid) && #[trigger] self.feeds@[fid]@.refs().contains(
                    r,
                ) by {
                let fid = choose|fid: u128|
                    old(self).feeds@.contains_key(fid) && #[trigger] old(
                        self,
                    ).feeds@[fid]@.refs().contains(r);
                assert(self.feeds@.contains_key(fid) && self.feeds@[fid]@.refs().contains(r));
            }
        }
        Ok(feed)
    }

    fn get_feed(&self, uuid: u128) -> (r: Result<Feed, StoreError>) {
        match self.feeds.get(&uuid) {
            Option::Some(f) => Ok(f.clone()),
            Option::None => Err(StoreError::NotFound),
        }
    }

    fn update_feed(&mut self, uuid: u128, feed: Feed) -> (r: Result<Feed, StoreError>) {
        let stored_items: Option<ItemsRepresentation> = match self.feeds.get(&uuid) {
            Option::None => {
                return Err(StoreError::NotFound);
            },
            Option::Some(stored) => match &stored.items {
                Option::None => Option::None,
                Option::Some(rep) => Option::Some(rep.clone()),
            },
        };
        let mut updated = Feed {
            uuid: Some(uuid),
            title: feed.title,
            description: feed.description,
            link: feed.link,
            category: feed.category,
            copyright: feed.copyright,
            image: feed.image,
            language: feed.language,
            items: stored_items,
            checksum: None,
        };
        updated.compute_checksum();
        let out: Feed = updated.clone();
        self.feeds.insert(uuid, updated);
        proof {
            let prev = old(self).feeds@[uuid]@;
            assert(out@ == updated_feed(prev, feed@, uuid));
            assert(feeds_view(self.feeds@) =~= feeds_view(old(self).feeds@).insert(uuid, out@));
            assert(out@.refs() == prev.refs());
            assert forall|id2: u128| self.feeds@.contains_key(id2) implies stored_feed_ok(
                id2,
                self.feeds@[id2]@,
                self.items@,
            ) by {
                if id2 != uuid {
                    assert(old(self).feeds@.contains_key(id2));
                }
            }
            assert forall|id1: u128, id2: u128, r: u128|
                self.feeds@.contains_key(id1) && self.feeds@.contains_key(id2) && id1 != id2
                    && #[trigger] self.feeds@[id1]@.refs().contains(r) implies !(#[trigger] self.feeds@[id2]@.refs().contains(r)) by {
                assert(old(self).feeds@[id1]@.refs().contains(r) ==> !old(
                    self,
                ).feeds@[id2]@.refs().contains(r));
            }
            assert forall|r: u128| self.items@.contains_key(r) implies exists|fid: u128|
                self.feeds@.contains_key(fid) && #[trigger] self.feeds@[fid]@.refs().contains(
                    r,
                ) by {
                let fid = choose|fid: u128|
                    old(self).feeds@.contains_key(fid) && #[trigger] old(
                        self,
                    ).feeds@[fid]@.refs().contains(r);
                assert(self.feeds@.contains_key(fid) && self.feeds@[fid]@.refs().contains(r));
            }
        }
        Ok(out)
    }

    fn delete_feed(&mut self, uuid: u128) -> (r: Result<(), StoreError>) {
        let refs: Vec<u128> = match self.feeds.get(&uuid) {
            Option::None => {
                return Err(StoreError::NotFound);
            },
            Option::Some(stored) => refs_of_feed(stored),
        };
        let ghost prev = self.feeds@[uuid]@;
        self.feeds.remove(&uuid);
        let ghost items0 = self.items@;
        let mut j: usize = 0;
        while j < refs.len()
            invariant
                j <= refs.len(),
                refs@ == prev.refs(),
                self.feeds@ == old(self).feeds@.remove(uuid),
                self.items@ == items0.remove_keys(refs@.take(j as int).to_set()),
            decreases refs.len() - j,
        {
            self.items.remove(&refs[j]);
            proof {
                assert forall|x: u128| refs@.take(j + 1 as int).to_set().contains(x) implies
                    refs@.take(j as int).to_set().contains(x) || x == refs@[j as int] by {
                    let s1 = refs@.take(j + 1 as int);
                    assert(s1.contains(x));
                    let k = choose|k: int| 0 <= k < s1.len() && s1[k] == x;
                    if k < j {
                        assert(refs@.take(j as int)[k] == x);
                        assert(refs@.take(j as int).contains(x));
                    }
                }
                assert forall|x: u128| refs@.take(j as int).to_set().contains(x) implies refs@.take(
                    j + 1 as int,
                ).to_set().contains(x) by {
                    let s0 = refs@.take(j as int);
                    assert(s0.contains(x));
                    let k = choose|k: int| 0 <= k < s0.len() && s0[k] == x;
                    assert(refs@.take(j + 1 as int)[k] == x);
                    assert(refs@.take(j + 1 as int).contains(x));
                }
                assert(refs@.take(j + 1 as int)[j as int] == refs@[j as int]);
                assert(refs@.take(j + 1 as int).contains(refs@[j as int]));
                assert(refs@.take(j + 1 as int).to_set() =~= refs@.take(j as int).to_set().insert(
                    refs@[j as int],
                ));
                assert(self.items@ =~= items0.remove_keys(refs@.take(j + 1 as int).to_set()));
            }
            j = j + 1;
        }
        proof {
            assert(refs@.take(refs@.len() as int) =~= refs@);
            assert(feeds_view(self.feeds@) =~= feeds_view(old(self).feeds@).remove(uuid));
            assert(items_map_view(self.items@) =~= items_map_view(old(self).items@).remove_keys(
                prev.refs().to_set(),
            ));
            let feeds1 = self.feeds@;
            let items1 = self.items@;
            assert forall|id2: u128| feeds1.contains_key(id2) implies stored_feed_ok(
                id2,
                feeds1[id2]@,
                items1,
            ) by {
                assert(old(self).feeds@.contains_key(id2) && id2 != uuid);
                let f2 = feeds1[id2]@;
                assert forall|k: int| 0 <= k < f2.refs().len() implies items1.contains_key(
                    #[trigger] f2.refs()[k],
                ) by {
                    let rk = f2.refs()[k];
                    assert(f2.refs().contains(rk));
                    assert(!prev.refs().contains(rk));
                    assert(!prev.refs().to_set().contains(rk));
                }
            }
            assert forall|r: u128| items1.contains_key(r) implies exists|fid: u128|
                feeds1.contains_key(fid) && #[trigger] feeds1[fid]@.refs().contains(r) by {
                let fid = choose|fid: u128|
                    old(self).feeds@.contains_key(fid) && #[trigger] old(
                        self,
                    ).feeds@[fid]@.refs().contains(r);
                if fid == uuid {
                    assert(prev.refs().contains(r));
                    assert(prev.refs().to_set().contains(r));
                    assert(false);
                }
                assert(feeds1.contains_key(fid) && feeds1[fid]@.refs().contains(r));
            }
        }
        Ok(())
    }

    fn get_feed_checksum(&self, uuid: u128) -> (r: Result<String, StoreError>) {
        match self.feeds.get(&uuid) {
            Option::None => Err(StoreError::NotFound),
            Option::Some(f) => match f.get_checksum() {
                Option::Some(c) => Ok(c),
                Option::None => Err(StoreError::NoChecksum),
            },
        }
    }
}

/// Every entry of a filtered reference list differs from the removed
/// identifier and comes from the original list; every other identifier of
/// the original list is kept; a duplicate-free list stays duplicate-free.
proof fn lemma_remove_id_props(refs: Seq<u128>, id: u128)
    ensures
        forall|k: int|
            0 <= k < remove_id(refs, id).len() ==> remove_id(refs, id)[k] != id && refs.contains(
                #[trigger] remove_id(refs, id)[k],
            ),
        forall|r: u128| refs.contains(r) && r != id ==> remove_id(refs, id).contains(r),
        (forall|i: int, j: int| 0 <= i < j < refs.len() ==> refs[i] != refs[j]) ==> (forall|
            i: int,
            j: int,
        | 0 <= i < j < remove_id(refs, id).len() ==> remove_id(refs, id)[i] != remove_id(
            refs,
            id,
        )[j]),
    decreases refs.len(),
{
    if refs.len() > 0 {
        lemma_remove_id_props(refs.drop_last(), id);
        let rem = remove_id(refs, id);
        let rem0 = remove_id(refs.drop_last(), id);
        assert forall|k: int| 0 <= k < rem.len() implies rem[k] != id && refs.contains(
            #[trigger] rem[k],
        ) by {
            if k < rem0.len() {
                assert(rem[k] == rem0[k]);
                let w = choose|w: int| 0 <= w < refs.drop_last().len() && refs.drop_last()[w]
                    == rem0[k];
                assert(refs[w] == rem[k]);
            } else {
                assert(rem[k] == refs.last());
                assert(refs[refs.len() - 1] == refs.last());
            }
        }
        assert forall|r: u128| refs.contains(r) && r != id implies rem.contains(r) by {
            let w = choose|w: int| 0 <= w < refs.len() && refs[w] == r;
            if w < refs.len() - 1 {
                assert(refs.drop_last()[w] == r);
                assert(refs.drop_last().contains(r));
                let k = choose|k: int| 0 <= k < rem0.len() && rem0[k] == r;
                assert(rem[k] == r);
            } else {
                assert(refs.last() == r);
                assert(rem[rem.len() - 1] == r);
            }
        }
        if forall|i: int, j: int| 0 <= i < j < refs.len() ==> refs[i] != refs[j] {
            assert forall|i: int, j: int|
                0 <= i < j < rem.len() implies rem[i] != rem[j] by {
                assert(forall|i0: int, j0: int|
                    0 <= i0 < j0 < refs.drop_last().len() ==> refs.drop_last()[i0]
                        != refs.drop_last()[j0]);
                if j < rem0.len() {
                } else {
                    assert(rem[j] == refs.last());
                    assert(rem[i] == rem0[i]);
                    assert(refs.drop_last().contains(rem0[i]));
                    let w = choose|w: int|
                        0 <= w < refs.drop_last().len() && refs.drop_last()[w] == rem0[i];
                    assert(refs[w] == rem0[i]);
                    assert(refs[w] != refs[refs.len() - 1]);
                }
            }
        }
    }
}

/// Every entry of a selection comes from the parent's reference list.
proof fn lemma_selected_refs_subset(req: Seq<u128>, refs: Seq<u128>)
    ensures
        forall|k: int|
            0 <= k < selected_refs(req, refs).len() ==> refs.contains(
                #[trigger] selected_refs(req, refs)[k],
            ),
    decreases req.len(),
{
    if req.len() > 0 {
        lemma_selected_refs_subset(req.drop_last(), refs);
        let sel = selected_refs(req, refs);
        let sel0 = selected_refs(req.drop_last(), refs);
        assert forall|k: int| 0 <= k < sel.len() implies refs.contains(#[trigger] sel[k]) by {
            if k < sel0.len() {
                assert(sel[k] == sel0[k]);
            } else {
                assert(sel[k] == req.last());
            }
        }
    }
}

/// The reference list of a feed with one identifier removed, in order.
fn remove_ref(v: &Vec<u128>, id: u128) -> (r: Vec<u128>)
    ensures
        r@ == remove_id(v@, id),
{
    let mut out: Vec<u128> = Vec::new();
    let mut i: usize = 0;
    while i < v.len()
        invariant
            i <= v.len(),
            out@ == remove_id(v@.take(i as int), id),
        decreases v.len() - i,
    {
        proof {
            assert(v@.take(i + 1 as int).drop_last() =~= v@.take(i as int));
            assert(v@.take(i + 1 as int).last() == v@[i as int]);
        }
        if v[i] != id {
            out.push(v[i]);
        }
        proof {
            assert(out@ =~= remove_id(v@.take(i + 1 as int), id));
        }
        i = i + 1;
    }
    proof {
        assert(v@.take(v@.len() as int) =~= v@);
    }
    out
}

impl FeedItemStore for MemStore {
    fn create_feed_item(&mut self, parent: u128, item: FeedItem) -> (r: Result<
        FeedItem,
        StoreError,
    >) {
        let iid: u128 = item.get_uuid().unwrap();
        let mut refs: Vec<u128> = match self.feeds.get(&parent) {
            Option::None => {
                return Err(StoreError::NotFound);
            },
            Option::Some(stored) => refs_of_feed(stored),
        };
        if self.items.contains_key(&iid) {
            return Err(StoreError::DuplicateIdentifier);
        }
        let ghost prev = self.feeds@[parent]@;
        proof {
            if prev.refs().contains(iid) {
                assert(self.items@.contains_key(iid));
            }
        }
        let mut new_parent: Feed = match self.feeds.get(&parent) {
            Option::Some(stored) => stored.clone(),
            Option::None => {
                proof {
                    assert(false);
                }
                return Err(StoreError::NotFound);
            },
        };
        refs.push(iid);
        new_parent.items = Some(ItemsRepresentation::ReferencesOnly(refs));
        new_parent.compute_checksum();
        let stored_item: FeedItem = item.clone();
        self.items.insert(iid, stored_item);
        self.feeds.insert(parent, new_parent);
        proof {
            assert(self.feeds@[parent]@ == prev.with_ref_appended(iid));
            assert(feeds_view(self.feeds@) =~= feeds_view(old(self).feeds@).insert(
                parent,
                prev.with_ref_appended(iid),
            ));
            assert(items_map_view(self.items@) =~= items_map_view(old(self).items@).insert(
                iid,
                item@,
            ));
            let newrefs = prev.refs().push(iid);
            assert(self.feeds@[parent]@.refs() == newrefs);
            assert(newrefs[newrefs.len() - 1] == iid);
            assert(forall|k: int| 0 <= k < prev.refs().len() ==> newrefs[k] == prev.refs()[k]);
            assert forall|id2: u128| self.feeds@.contains_key(id2) implies stored_feed_ok(
                id2,
                self.feeds@[id2]@,
                self.items@,
            ) by {
                if id2 == parent {
                    assert(stored_feed_ok(parent, prev, old(self).items@));
                    assert forall|k: int|
                        0 <= k < newrefs.len() implies self.items@.contains_key(
                        #[trigger] newrefs[k],
                    ) by {
                        if k < prev.refs().len() {
                            assert(old(self).items@.contains_key(newrefs[k]));
                        }
                    }
                    assert forall|i: int, j: int|
                        0 <= i < j < newrefs.len() implies newrefs[i] != newrefs[j] by {
                        if j == newrefs.len() - 1 {
                            assert(prev.refs().contains(prev.refs()[i]));
                        }
                    }
                } else {
                    assert(old(self).feeds@.contains_key(id2));
                    assert(stored_feed_ok(id2, old(self).feeds@[id2]@, old(self).items@));
                    assert(self.feeds@[id2]@ == old(self).feeds@[id2]@);
                    assert forall|k: int|
                        0 <= k < self.feeds@[id2]@.refs().len() implies self.items@.contains_key(
                        #[trigger] self.feeds@[id2]@.refs()[k],
                    ) by {
                        assert(old(self).items@.contains_key(self.feeds@[id2]@.refs()[k]));
                    }
                }
            }
            assert forall|id1: u128, id2: u128, r: u128|
                self.feeds@.contains_key(id1) && self.feeds@.contains_key(id2) && id1 != id2
                    && #[trigger] self.feeds@[id1]@.refs().contains(r) implies !(
            #[trigger] self.feeds@[id2]@.refs().contains(r)) by {
                let r1 = if id1 == parent {
                    newrefs
                } else {
                    old(self).feeds@[id1]@.refs()
                };
                if id1 == parent {
                    if r != iid {
                        let w = choose|w: int| 0 <= w < newrefs.len() && newrefs[w] == r;
                        assert(prev.refs()[w] == r);
                        assert(old(self).feeds@[id1]@.refs().contains(r));
                    }
                    if self.feeds@[id2]@.refs().contains(r) {
                        assert(old(self).feeds@[id2]@.refs().contains(r));
                        assert(old(self).items@.contains_key(r));
                        assert(r != iid);
                        assert(!old(self).feeds@[id1]@.refs().contains(r));
                        assert(false);
                    }
                } else if id2 == parent {
                    assert(old(self).feeds@[id1]@.refs().contains(r));
                    assert(old(self).items@.contains_key(r));
                    assert(r != iid);
                    if self.feeds@[id2]@.refs().contains(r) {
                        let w = choose|w: int| 0 <= w < newrefs.len() && newrefs[w] == r;
                        assert(prev.refs()[w] == r);
                        assert(old(self).feeds@[id2]@.refs().contains(r));
                        assert(false);
                    }
                } else {
                    assert(old(self).feeds@[id1]@.refs().contains(r));
                    assert(!old(self).feeds@[id2]@.refs().contains(r));
                }
            }
            assert forall|r: u128| self.items@.contains_key(r) implies exists|fid: u128|
                self.feeds@.contains_key(fid) && #[trigger] self.feeds@[fid]@.refs().contains(
                    r,
                ) by {
                if r == iid {
                    assert(newrefs.contains(iid));
                    assert(self.feeds@.contains_key(parent) && self.feeds@[
                        parent
                    ]@.refs().contains(iid));
                } else {
                    assert(old(self).items@.contains_key(r));
                    let fid = choose|fid: u128|
                        old(self).feeds@.contains_key(fid) && #[trigger] old(
                            self,
                        ).feeds@[fid]@.refs().contains(r);
                    if fid == parent {
                        let w = choose|w: int|
                            0 <= w < prev.refs().len() && prev.refs()[w] == r;
                        assert(newrefs[w] == r);
                        assert(newrefs.contains(r));
                        assert(self.feeds@[parent]@.refs().contains(r));
                    } else {
                        assert(self.feeds@[fid]@.refs().contains(r));
                    }
                }
            }
        }
        Ok(item)
    }

    fn get_feed_item(&self, parent: u128, uuid: u128) -> (r: Result<FeedItem, StoreError>) {
        let refs: Vec<u128> = match self.feeds.get(&parent) {
            Option::None => {
                return Err(StoreError::NotFound);
            },
            Option::Some(stored) => refs_of_feed(stored),
        };
        if !contains_id(&refs, uuid) {
            return Err(StoreError::NoItemFound);
        }
        match self.items.get(&uuid) {
            Option::Some(it) => Ok(it.clone()),
            Option::None => {
                proof {
                    let w = choose|w: int| 0 <= w < refs@.len() && refs@[w] == uuid;
                    assert(self.items@.contains_key(refs@[w]));
                }
                Err(StoreError::NoItemFound)
            },
        }
    }

    fn get_feed_items(&self, parent: u128, uuids: Option<Vec<u128>>) -> (r: Result<
        Vec<FeedItem>,
        StoreError,
    >) {
        let refs: Vec<u128> = match self.feeds.get(&parent) {
            Option::None => {
                return Err(StoreError::NotFound);
            },
            Option::Some(stored) => refs_of_feed(stored),
        };
        let ghost guuids = uuids;
        let wanted: Vec<u128> = match uuids {
            Option::None => refs,
            Option::Some(req) => {
                let mut sel: Vec<u128> = Vec::new();
                let mut i: usize = 0;
                while i < req.len()
                    invariant
                        i <= req.len(),
                        refs@ == self.feeds_model()[parent].refs(),
                        sel@ == selected_refs(req@.take(i as int), refs@),
                    decreases req.len() - i,
                {
                    proof {
                        assert(req@.take(i + 1 as int).drop_last() =~= req@.take(i as int));
                        assert(req@.take(i + 1 as int).last() == req@[i as int]);
                    }
                    if contains_id(&refs, req[i]) {
                        sel.push(req[i]);
                    }
                    proof {
                        assert(sel@ =~= selected_refs(req@.take(i + 1 as int), refs@));
                    }
                    i = i + 1;
                }
                proof {
                    assert(req@.take(req@.len() as int) =~= req@);
                }
                sel
            },
        };
        proof {
            let prefs = self.feeds_model()[parent].refs();
            match guuids {
                Option::Some(req) => {
                    lemma_selected_refs_subset(req@, prefs);
                },
                Option::None => {},
            }
            assert forall|k: int|
                0 <= k < wanted@.len() implies self.items_model().contains_key(
                #[trigger] wanted@[k],
            ) by {
                match guuids {
                    Option::None => {
                        assert(prefs[k] == wanted@[k]);
                    },
                    Option::Some(_) => {},
                }
                assert(prefs.contains(wanted@[k]));
                let w = choose|w: int| 0 <= w < prefs.len() && prefs[w] == wanted@[k];
                assert(self.items@.contains_key(prefs[w]));
            }
        }
        let mut out: Vec<FeedItem> = Vec::new();
        let mut i: usize = 0;
        while i < wanted.len()
            invariant
                self.inv(),
                i <= wanted.len(),
                self.feeds_model().contains_key(parent),
                forall|k: int|
                    0 <= k < wanted@.len() ==> self.items_model().contains_key(
                        #[trigger] wanted@[k],
                    ),
                out@.len() == i,
                forall|j: int| 0 <= j < i ==> out@[j]@ == self.items_model()[wanted@[j]],
            decreases wanted.len() - i,
        {
            match self.items.get(&wanted[i]) {
                Option::Some(it) => {
                    out.push(it.clone());
                },
                Option::None => {
                    proof {
                        assert(false);
                    }
                },
            }
            i = i + 1;
        }
        proof {
            assert(crate::model::items_view(out@) =~= crate::store::items_for(
                wanted@,
                self.items_model(),
            ));
        }
        Ok(out)
    }

    fn update_feed_item(&mut self, parent: u128, uuid: u128, item: FeedItem) -> (r: Result<
        FeedItem,
        StoreError,
    >) {
        let refs: Vec<u128> = match self.feeds.get(&parent) {
            Option::None => {
                return Err(StoreError::NotFound);
            },
            Option::Some(stored) => refs_of_feed(stored),
        };
        if !contains_id(&refs, uuid) {
            return Err(StoreError::NoItemFound);
        }
        proof {
            let w = choose|w: int| 0 <= w < refs@.len() && refs@[w] == uuid;
            assert(self.items@.contains_key(refs@[w]));
        }
        let mut updated = FeedItem {
            uuid: Some(uuid),
            title: item.title,
            link: item.link,
            description: item.description,
            author: item.author,
            comments: item.comments,
            enclosure: item.enclosure,
            checksum: None,
        };
        updated.compute_checksum();
        let out: FeedItem = updated.clone();
        self.items.insert(uuid, updated);
        proof {
            assert(out@ == updated_item(item@, uuid));
            assert(items_map_view(self.items@) =~= items_map_view(old(self).items@).insert(
                uuid,
                out@,
            ));
            assert(feeds_view(self.feeds@) =~= feeds_view(old(self).feeds@));
            assert(self.items@.dom() =~= old(self).items@.dom());
            assert forall|id2: u128| self.feeds@.contains_key(id2) implies stored_feed_ok(
                id2,
                self.feeds@[id2]@,
                self.items@,
            ) by {
                assert(stored_feed_ok(id2, old(self).feeds@[id2]@, old(self).items@));
                assert forall|k: int|
                    0 <= k < self.feeds@[id2]@.refs().len() implies self.items@.contains_key(
                    #[trigger] self.feeds@[id2]@.refs()[k],
                ) by {
                    assert(old(self).items@.contains_key(self.feeds@[id2]@.refs()[k]));
                }
            }
            assert forall|r: u128| self.items@.contains_key(r) implies exists|fid: u128|
                self.feeds@.contains_key(fid) && #[trigger] self.feeds@[fid]@.refs().contains(
                    r,
                ) by {
                assert(old(self).items@.contains_key(r));
                let fid = choose|fid: u128|
                    old(self).feeds@.contains_key(fid) && #[trigger] old(
                        self,
                    ).feeds@[fid]@.refs().contains(r);
                assert(self.feeds@.contains_key(fid) && self.feeds@[fid]@.refs().contains(r));
            }
        }
        Ok(out)
    }

    fn delete_feed_item(&mut self, parent: u128, uuid: u128) -> (r: Result<(), StoreError>) {
        let refs: Vec<u128> = match self.feeds.get(&parent) {
            Option::None => {
                return Err(StoreError::NotFound);
            },
            Option::Some(stored) => refs_of_feed(stored),
        };
        if !contains_id(&refs, uuid) {
            return Err(StoreError::NoItemFound);
        }
        proof {
            let w = choose|w: int| 0 <= w < refs@.len() && refs@[w] == uuid;
            assert(self.items@.contains_key(refs@[w]));
        }
        let ghost prev = self.feeds@[parent]@;
        let new_refs: Vec<u128> = remove_ref(&refs, uuid);
        let mut new_parent: Feed = match self.feeds.get(&parent) {
            Option::Some(stored) => stored.clone(),
            Option::None => {
                proof {
                    assert(false);
                }
                return Err(StoreError::NotFound);
            },
        };
        new_parent.items = Some(ItemsRepresentation::ReferencesOnly(new_refs));
        new_parent.compute_checksum();
        self.feeds.insert(parent, new_parent);
        self.items.remove(&uuid);
        proof {
            lemma_remove_id_props(prev.refs(), uuid);
            let newrefs = remove_id(prev.refs(), uuid);
            assert(self.feeds@[parent]@ == prev.with_ref_removed(uuid));
            assert(feeds_view(self.feeds@) =~= feeds_view(old(self).feeds@).insert(
                parent,
                prev.with_ref_removed(uuid),
            ));
            assert(items_map_view(self.items@) =~= items_map_view(old(self).items@).remove(uuid));
            assert forall|id2: u128| self.feeds@.contains_key(id2) implies stored_feed_ok(
                id2,
                self.feeds@[id2]@,
                self.items@,
            ) by {
                if id2 == parent {
                    assert(stored_feed_ok(parent, prev, old(self).items@));
                    assert(self.feeds@[parent]@.refs() == newrefs);
                    assert forall|k: int|
                        0 <= k < newrefs.len() implies self.items@.contains_key(
                        #[trigger] newrefs[k],
                    ) by {
                        assert(prev.refs().contains(newrefs[k]));
                        assert(old(self).items@.contains_key(newrefs[k]));
                        assert(newrefs[k] != uuid);
                    }
                } else {
                    assert(old(self).feeds@.contains_key(id2));
                    assert(stored_feed_ok(id2, old(self).feeds@[id2]@, old(self).items@));
                    assert(self.feeds@[id2]@ == old(self).feeds@[id2]@);
                    assert forall|k: int|
                        0 <= k < self.feeds@[id2]@.refs().len() implies self.items@.contains_key(
                        #[trigger] self.feeds@[id2]@.refs()[k],
                    ) by {
                        let rk = self.feeds@[id2]@.refs()[k];
                        assert(old(self).items@.contains_key(rk));
                        assert(self.feeds@[id2]@.refs().contains(rk));
                        assert(prev.refs().contains(uuid));
                        if rk == uuid {
                            assert(old(self).feeds@[id2]@.refs().contains(uuid));
                            assert(!prev.refs().contains(uuid));
                            assert(false);
                        }
                    }
                }
            }
            assert forall|id1: u128, id2: u128, r: u128|
                self.feeds@.contains_key(id1) && self.feeds@.contains_key(id2) && id1 != id2
                    && #[trigger] self.feeds@[id1]@.refs().contains(r) implies !(
            #[trigger] self.feeds@[id2]@.refs().contains(r)) by {
                if id1 == parent {
                    if self.feeds@[id1]@.refs().contains(r) {
                        let w = choose|w: int| 0 <= w < newrefs.len() && newrefs[w] == r;
                        assert(prev.refs().contains(r));
                        assert(old(self).feeds@[id1]@.refs().contains(r));
                    }
                    if self.feeds@[id2]@.refs().contains(r) {
                        assert(old(self).feeds@[id2]@.refs().contains(r));
                        assert(false);
                    }
                } else if id2 == parent {
                    assert(old(self).feeds@[id1]@.refs().contains(r));
                    if self.feeds@[id2]@.refs().contains(r) {
                        let w = choose|w: int| 0 <= w < newrefs.len() && newrefs[w] == r;
                        assert(prev.refs().contains(r));
                        assert(old(self).feeds@[id2]@.refs().contains(r));
                        assert(false);
                    }
                } else {
                    assert(old(self).feeds@[id1]@.refs().contains(r));
                    assert(!old(self).feeds@[id2]@.refs().contains(r));
                }
            }
            assert forall|r: u128| self.items@.contains_key(r) implies exists|fid: u128|
                self.feeds@.contains_key(fid) && #[trigger] self.feeds@[fid]@.refs().contains(
                    r,
                ) by {
                assert(old(self).items@.contains_key(r));
                assert(r != uuid);
                let fid = choose|fid: u128|
                    old(self).feeds@.contains_key(fid) && #[trigger] old(
                        self,
                    ).feeds@[fid]@.refs().contains(r);
                if fid == parent {
                    assert(prev.refs().contains(r));
                    assert(newrefs.contains(r));
                    assert(self.feeds@[parent]@.refs().contains(r));
                } else {
                    assert(self.feeds@[fid]@.refs().contains(r));
                }
            }
        }
        Ok(())
    }

    fn get_feed_item_checksum(&self, parent: u128, uuid: u128) -> (r: Result<String, StoreError>) {
        let refs: Vec<u128> = match self.feeds.get(&parent) {
            Option::None => {
                return Err(StoreError::NotFound);
            },
            Option::Some(stored) => refs_of_feed(stored),
        };
        if !contains_id(&refs, uuid) {
            return Err(StoreError::NoItemFound);
        }
        proof {
            let w = choose|w: int| 0 <= w < refs@.len() && refs@[w] == uuid;
            assert(self.items@.contains_key(refs@[w]));
        }
        match self.items.get(&uuid) {
            Option::Some(it) => match it.get_checksum() {
                Option::Some(c) => Ok(c),
                Option::None => Err(StoreError::NoChecksum),
            },
            Option::None => {
                proof {
                    assert(false);
                }
                Err(StoreError::NoItemFound)
            },
        }
    }
}

} // verus!
