use vstd::prelude::*;

use crate::errors::{HydrationError, StoreError};
use crate::model::{
    checksum_current, item_checksum_current, item_ids_of, item_required_present, items_view,
    required_present, Feed, FeedItem, FeedItemView, FeedView, ItemsRepresentation,
    ItemsRepresentationView,
};

verus! {

// ---------------------------------------------------------------------------
// Spec-level store semantics
//
// A store is modelled as two maps: the feeds by identifier and the feed
// items by identifier. Parent-to-child linkage is unidirectional: a feed's
// reference list holds item identifiers, an item holds no parent pointer.
// ---------------------------------------------------------------------------
/// A feed is fit to be persisted as a new aggregate: it has an identifier,
/// its required content fields, no item collection yet, and a current
/// checksum — exactly what validated construction produces.
pub open spec fn creatable(f: FeedView) -> bool {
    f.uuid is Some && required_present(f) && f.items is None && checksum_current(f)
}

/// A feed item is fit to be persisted as a new aggregate.
pub open spec fn item_creatable(it: FeedItemView) -> bool {
    it.uuid is Some && item_required_present(it) && item_checksum_current(it)
}

/// An item identifier resolves under a parent: the parent is stored, its
/// reference list holds the identifier, and the item itself is stored.
pub open spec fn resolvable(
    feeds: Map<u128, FeedView>,
    items: Map<u128, FeedItemView>,
    parent: u128,
    id: u128,
) -> bool {
    feeds.contains_key(parent) && feeds[parent].refs().contains(id) && items.contains_key(id)
}

/// The identifiers in a reference list that do not resolve under a parent,
/// in order.
pub open spec fn unresolved(
    feeds: Map<u128, FeedView>,
    items: Map<u128, FeedItemView>,
    parent: u128,
    refs: Seq<u128>,
) -> Seq<u128>
    decreases refs.len(),
{
    if refs.len() == 0 {
        Seq::empty()
    } else {
        unresolved(feeds, items, parent, refs.drop_last()) + if !resolvable(
            feeds,
            items,
            parent,
            refs.last(),
        ) {
            seq![refs.last()]
        } else {
            Seq::<u128>::empty()
        }
    }
}

/// The stored items for a list of identifiers, in the list's order.
pub open spec fn items_for(refs: Seq<u128>, items: Map<u128, FeedItemView>) -> Seq<FeedItemView> {
    Seq::new(refs.len(), |i: int| items[refs[i]])
}

/// The requested identifiers that a parent's reference list also holds, in
/// request order; unknown identifiers are silently dropped.
pub open spec fn selected_refs(req: Seq<u128>, refs: Seq<u128>) -> Seq<u128>
    decreases req.len(),
{
    if req.len() == 0 {
        Seq::empty()
    } else {
        selected_refs(req.drop_last(), refs) + if refs.contains(req.last()) {
            seq![req.last()]
        } else {
            Seq::<u128>::empty()
        }
    }
}

/// A reference list with every occurrence of one identifier removed, in
/// order. On a duplicate-free list this removes at most one entry.
pub open spec fn remove_id(refs: Seq<u128>, id: u128) -> Seq<u128>
    decreases refs.len(),
{
    if refs.len() == 0 {
        Seq::empty()
    } else {
        remove_id(refs.drop_last(), id) + if refs.last() == id {
            Seq::<u128>::empty()
        } else {
            seq![refs.last()]
        }
    }
}

impl FeedView {
    /// This feed with one more item identifier appended to its reference
    /// list (an absent collection counts as empty), reduced to references
    /// only, with the checksum re-derived.
    pub open spec fn with_ref_appended(self, id: u128) -> FeedView {
        self.with_items(
            Option::Some(ItemsRepresentationView::ReferencesOnly(self.refs().push(id))),
        ).recomputed()
    }

    /// This feed with one item identifier removed from its reference list,
    /// reduced to references only, with the checksum re-derived.
    pub open spec fn with_ref_removed(self, id: u128) -> FeedView {
        self.with_items(
            Option::Some(ItemsRepresentationView::ReferencesOnly(remove_id(self.refs(), id))),
        ).recomputed()
    }
}

/// The stored feed after an update: the incoming content fields under the
/// stored identifier, the stored item collection, and a re-derived checksum.
/// The identifier is never reassigned and the reference list is never edited
/// by a content update.
pub open spec fn updated_feed(stored: FeedView, incoming: FeedView, id: u128) -> FeedView {
    (FeedView {
        uuid: Option::Some(id),
        title: incoming.title,
        description: incoming.description,
        link: incoming.link,
        category: incoming.category,
        copyright: incoming.copyright,
        image: incoming.image,
        language: incoming.language,
        items: stored.items,
        checksum: Option::None,
    }).recomputed()
}

/// The stored item after an update: the incoming content fields under the
/// stored identifier, with a re-derived checksum.
pub open spec fn updated_item(incoming: FeedItemView, id: u128) -> FeedItemView {
    (FeedItemView {
        uuid: Option::Some(id),
        title: incoming.title,
        link: incoming.link,
        description: incoming.description,
        author: incoming.author,
        comments: incoming.comments,
        enclosure: incoming.enclosure,
        checksum: Option::None,
    }).recomputed()
}

/// The view of a feed-valued result.
pub open spec fn feed_result_view(r: Result<Feed, StoreError>) -> Result<FeedView, StoreError> {
    match r {
        Ok(f) => Ok(f@),
        Err(e) => Err(e),
    }
}

/// The view of a string-valued result.
pub open spec fn str_result_view(r: Result<String, StoreError>) -> Result<Seq<char>, StoreError> {
    match r {
        Ok(s) => Ok(s@),
        Err(e) => Err(e),
    }
}

/// What a feed lookup returns for a given store.
pub open spec fn get_feed_result(feeds: Map<u128, FeedView>, id: u128) -> Result<
    FeedView,
    StoreError,
> {
    if feeds.contains_key(id) {
        Ok(feeds[id])
    } else {
        Err(StoreError::NotFound)
    }
}

/// What a feed checksum lookup returns for a given store.
pub open spec fn get_feed_checksum_result(feeds: Map<u128, FeedView>, id: u128) -> Result<
    Seq<char>,
    StoreError,
> {
    if !feeds.contains_key(id) {
        Err(StoreError::NotFound)
    } else {
        match feeds[id].checksum {
            Option::Some(c) => Ok(c),
            Option::None => Err(StoreError::NoChecksum),
        }
    }
}

// ---------------------------------------------------------------------------
// The storage capability interface
// ---------------------------------------------------------------------------
/// What any persistence backend must provide for feeds, independent of its
/// query language or transport. The backend is modelled by the two maps
/// `feeds_model` and `items_model`; every operation's effect is stated over
/// them.
pub trait FeedStore: Sized {
    /// The feeds this store holds, by identifier.
    spec fn feeds_model(&self) -> Map<u128, FeedView>;

    /// The feed items this store holds, by identifier.
    spec fn items_model(&self) -> Map<u128, FeedItemView>;

    /// The store's internal invariant.
    spec fn inv(&self) -> bool;

    /// The invariant binds the models: every aggregate is stored under its
    /// own identifier with its required fields and a current checksum, a
    /// persisted feed holds references only (never stale materialized
    /// items), and every referenced item is stored.
    proof fn lemma_models_wf(&self)
        requires
            self.inv(),
        ensures
            forall|id: u128| #[trigger]
                self.feeds_model().contains_key(id) ==> {
                    let f = self.feeds_model()[id];
                    &&& f.uuid == Option::Some(id)
                    &&& required_present(f)
                    &&& checksum_current(f)
                    &&& (f.items is None || f.items matches Option::Some(
                        ItemsRepresentationView::ReferencesOnly(_),
                    ))
                    &&& forall|r: u128| #[trigger]
                        f.refs().contains(r) ==> self.items_model().contains_key(r)
                },
            forall|id: u128| #[trigger]
                self.items_model().contains_key(id) ==> {
                    let it = self.items_model()[id];
                    &&& it.uuid == Option::Some(id)
                    &&& item_required_present(it)
                    &&& item_checksum_current(it)
                },
            forall|id: u128| #[trigger]
                self.items_model().contains_key(id) ==> exists|parent: u128|
                    self.feeds_model().contains_key(parent)
                        && #[trigger] self.feeds_model()[parent].refs().contains(id),
            forall|id1: u128, id2: u128, r: u128|
                #![trigger self.feeds_model()[id1].refs().contains(r), self.feeds_model()[id2].refs().contains(r)]
                self.feeds_model().contains_key(id1) && self.feeds_model().contains_key(id2) && id1
                    != id2 && self.feeds_model()[id1].refs().contains(r)
                    ==> !self.feeds_model()[id2].refs().contains(r),
    ;

    /// Persist a new feed under its own identifier; a duplicate identifier
    /// is refused and changes nothing.
    fn create_feed(&mut self, feed: Feed) -> (r: Result<Feed, StoreError>)
        requires
            old(self).inv(),
            creatable(feed@),
        ensures
            final(self).inv(),
            final(self).items_model() == old(self).items_model(),
            match r {
                Ok(stored) => !old(self).feeds_model().contains_key(feed@.uuid->0) && stored@
                    == feed@ && final(self).feeds_model() == old(self).feeds_model().insert(
                    feed@.uuid->0,
                    feed@,
                ),
                Err(e) => e == StoreError::DuplicateIdentifier && old(self).feeds_model().contains_key(feed@.uuid->0) && final(self).feeds_model() == old(self).feeds_model(),
            },
    ;

    /// Look a feed up by its identifier.
    fn get_feed(&self, uuid: u128) -> (r: Result<Feed, StoreError>)
        requires
            self.inv(),
        ensures
            feed_result_view(r) == get_feed_result(self.feeds_model(), uuid),
    ;

    /// Replace a stored feed's content fields and checksum. The identifier
    /// and the stored reference list are kept; an absent identifier is
    /// refused.
    fn update_feed(&mut self, uuid: u128, feed: Feed) -> (r: Result<Feed, StoreError>)
        requires
            old(self).inv(),
            required_present(feed@),
        ensures
            final(self).inv(),
            final(self).items_model() == old(self).items_model(),
            match r {
                Ok(updated) => old(self).feeds_model().contains_key(uuid) && updated@
                    == updated_feed(old(self).feeds_model()[uuid], feed@, uuid) && final(self).feeds_model() == old(self).feeds_model().insert(uuid, updated@),
                Err(e) => e == StoreError::NotFound && !old(self).feeds_model().contains_key(uuid)
                    && final(self).feeds_model() == old(self).feeds_model(),
            },
    ;

    /// Delete a feed and, with it, every item its reference list owns: no
    /// item is left dangling under the deleted feed's identifier.
    fn delete_feed(&mut self, uuid: u128) -> (r: Result<(), StoreError>)
        requires
            old(self).inv(),
        ensures
            final(self).inv(),
            match r {
                Ok(()) => old(self).feeds_model().contains_key(uuid) && final(self).feeds_model()
                    == old(self).feeds_model().remove(uuid) && final(self).items_model() == old(self).items_model().remove_keys(old(self).feeds_model()[uuid].refs().to_set()),
                Err(e) => e == StoreError::NotFound && !old(self).feeds_model().contains_key(uuid)
                    && final(self).feeds_model() == old(self).feeds_model() && final(self).items_model() == old(self).items_model(),
            },
    ;

    /// Look up the stored checksum of a feed.
    fn get_feed_checksum(&self, uuid: u128) -> (r: Result<String, StoreError>)
        requires
            self.inv(),
        ensures
            str_result_view(r) == get_feed_checksum_result(self.feeds_model(), uuid),
    ;
}

/// What any persistence backend must provide for feed items, each operation
/// scoped to a named parent feed. Creating or deleting an item edits the
/// parent's reference list (and therefore its checksum) as part of the same
/// logical operation, so no stored item identifier is ever unreachable.
pub trait FeedItemStore: FeedStore {
    /// Persist a new item under a parent feed and append it to the parent's
    /// reference list, re-deriving the parent's checksum.
    fn create_feed_item(&mut self, parent: u128, item: FeedItem) -> (r: Result<
        FeedItem,
        StoreError,
    >)
        requires
            old(self).inv(),
            item_creatable(item@),
        ensures
            final(self).inv(),
            match r {
                Ok(stored) => old(self).feeds_model().contains_key(parent) && !old(self).items_model().contains_key(item@.uuid->0) && stored@ == item@ && final(self).items_model() == old(self).items_model().insert(item@.uuid->0, item@) && final(self).feeds_model() == old(self).feeds_model().insert(
                    parent,
                    old(self).feeds_model()[parent].with_ref_appended(item@.uuid->0),
                ),
                Err(e) => final(self).feeds_model() == old(self).feeds_model() && final(self).items_model() == old(self).items_model() && (if !old(self).feeds_model().contains_key(parent) {
                    e == StoreError::NotFound
                } else {
                    old(self).items_model().contains_key(item@.uuid->0) && e
                        == StoreError::DuplicateIdentifier
                }),
            },
    ;

    /// Look an item up under a parent feed: the identifier must be among the
    /// parent's references and the item must be stored.
    fn get_feed_item(&self, parent: u128, uuid: u128) -> (r: Result<FeedItem, StoreError>)
        requires
            self.inv(),
        ensures
            match r {
                Ok(it) => resolvable(self.feeds_model(), self.items_model(), parent, uuid) && it@
                    == self.items_model()[uuid],
                Err(e) => !resolvable(self.feeds_model(), self.items_model(), parent, uuid) && (
                if !self.feeds_model().contains_key(parent) {
                    e == StoreError::NotFound
                } else {
                    e == StoreError::NoItemFound
                }),
            },
    ;

    /// Look up the items of a parent feed: all of the referenced items in
    /// the parent's stored order when no identifiers are requested,
    /// otherwise the requested identifiers that the parent references, in
    /// request order, unknown identifiers silently dropped.
    fn get_feed_items(&self, parent: u128, uuids: Option<Vec<u128>>) -> (r: Result<
        Vec<FeedItem>,
        StoreError,
    >)
        requires
            self.inv(),
        ensures
            match r {
                Ok(v) => self.feeds_model().contains_key(parent) && {
                    let refs = self.feeds_model()[parent].refs();
                    let sel = match uuids {
                        Option::Some(req) => selected_refs(req@, refs),
                        Option::None => refs,
                    };
                    items_view(v@) == items_for(sel, self.items_model()) && forall|j: int|
                        0 <= j < sel.len() ==> self.items_model().contains_key(#[trigger] sel[j])
                },
                Err(e) => e == StoreError::NotFound && !self.feeds_model().contains_key(parent),
            },
    ;

    /// Replace a stored item's content fields and checksum. The identifier
    /// must resolve under the parent; the parent's reference list is
    /// untouched.
    fn update_feed_item(&mut self, parent: u128, uuid: u128, item: FeedItem) -> (r: Result<
        FeedItem,
        StoreError,
    >)
        requires
            old(self).inv(),
            item_required_present(item@),
        ensures
            final(self).inv(),
            final(self).feeds_model() == old(self).feeds_model(),
            match r {
                Ok(updated) => resolvable(
                    old(self).feeds_model(),
                    old(self).items_model(),
                    parent,
                    uuid,
                ) && updated@ == updated_item(item@, uuid) && final(self).items_model() == old(self).items_model().insert(uuid, updated@),
                Err(e) => !resolvable(old(self).feeds_model(), old(self).items_model(), parent, uuid)
                    && final(self).items_model() == old(self).items_model() && (if !old(self).feeds_model().contains_key(parent) {
                    e == StoreError::NotFound
                } else {
                    e == StoreError::NoItemFound
                }),
            },
    ;

    /// Delete an item under a parent feed and remove it from the parent's
    /// reference list, re-deriving the parent's checksum.
    fn delete_feed_item(&mut self, parent: u128, uuid: u128) -> (r: Result<(), StoreError>)
        requires
            old(self).inv(),
        ensures
            final(self).inv(),
            match r {
                Ok(()) => resolvable(old(self).feeds_model(), old(self).items_model(), parent, uuid)
                    && final(self).items_model() == old(self).items_model().remove(uuid) && final(self).feeds_model() == old(self).feeds_model().insert(
                    parent,
                    old(self).feeds_model()[parent].with_ref_removed(uuid),
                ),
                Err(e) => !resolvable(old(self).feeds_model(), old(self).items_model(), parent, uuid)
                    && final(self).feeds_model() == old(self).feeds_model() && final(self).items_model() == old(self).items_model() && (if !old(self).feeds_model().contains_key(parent) {
                    e == StoreError::NotFound
                } else {
                    e == StoreError::NoItemFound
                }),
            },
    ;

    /// Look up the stored checksum of an item under a parent feed.
    fn get_feed_item_checksum(&self, parent: u128, uuid: u128) -> (r: Result<String, StoreError>)
        requires
            self.inv(),
        ensures
            match r {
                Ok(c) => resolvable(self.feeds_model(), self.items_model(), parent, uuid)
                    && self.items_model()[uuid].checksum == Option::Some(c@),
                Err(e) => if !self.feeds_model().contains_key(parent) {
                    e == StoreError::NotFound
                } else if !resolvable(self.feeds_model(), self.items_model(), parent, uuid) {
                    e == StoreError::NoItemFound
                } else {
                    self.items_model()[uuid].checksum is None && e == StoreError::NoChecksum
                },
            },
    ;
}

// ---------------------------------------------------------------------------
// Hydration
// ---------------------------------------------------------------------------
/// When no identifier of a reference list is unresolved, each of them
/// resolves.
pub proof fn lemma_unresolved_empty(
    feeds: Map<u128, FeedView>,
    items: Map<u128, FeedItemView>,
    parent: u128,
    refs: Seq<u128>,
)
    requires
        unresolved(feeds, items, parent, refs).len() == 0,
    ensures
        forall|i: int| 0 <= i < refs.len() ==> resolvable(feeds, items, parent, refs[i]),
    decreases refs.len(),
{
    if refs.len() > 0 {
        lemma_unresolved_empty(feeds, items, parent, refs.drop_last());
        assert(forall|i: int|
            0 <= i < refs.len() - 1 ==> refs[i] == refs.drop_last()[i]);
    }
}

/// The items resolved for a reference list carry exactly those identifiers,
/// in order, when the store keys every item by its own identifier.
pub proof fn lemma_items_for_ids(refs: Seq<u128>, items: Map<u128, FeedItemView>)
    requires
        forall|i: int|
            0 <= i < refs.len() ==> items.contains_key(#[trigger] refs[i]) && items[refs[i]].uuid
                == Option::Some(refs[i]),
    ensures
        item_ids_of(items_for(refs, items)) == refs,
    decreases refs.len(),
{
    if refs.len() == 0 {
        assert(item_ids_of(items_for(refs, items)) =~= refs);
    } else {
        lemma_items_for_ids(refs.drop_last(), items);
        assert(items_for(refs, items).drop_last() =~= items_for(refs.drop_last(), items));
        assert(items_for(refs, items).last() == items[refs.last()]);
        assert(item_ids_of(items_for(refs, items)) =~= refs);
    }
}

impl Feed {
    /// Resolve a reference-only item collection into materialized items,
    /// looking every referenced identifier up through the store. A feed
    /// without items, or one already materialized, is left as it is. The
    /// hydration is a barrier: if any one lookup fails, the whole hydration
    /// fails, reports the missing identifiers, and leaves the feed
    /// unchanged — no partially hydrated feed is ever exposed.
    pub fn hydrate<S: FeedItemStore>(&mut self, store: &S) -> (r: Result<(), HydrationError>)
        requires
            store.inv(),
            old(self)@.uuid is Some,
        ensures
            match r {
                Ok(()) => match old(self)@.items {
                    Option::Some(ItemsRepresentationView::ReferencesOnly(refs)) => unresolved(
                        store.feeds_model(),
                        store.items_model(),
                        old(self)@.uuid->0,
                        refs,
                    ).len() == 0 && final(self)@ == old(self)@.with_items(
                        Option::Some(
                            ItemsRepresentationView::Materialized(
                                items_for(refs, store.items_model()),
                            ),
                        ),
                    ),
                    _ => final(self)@ == old(self)@,
                },
                Err(e) => final(self)@ == old(self)@ && (e matches HydrationError::HydrationFailed {
                    missing,
                } && old(self)@.items matches Option::Some(
                    ItemsRepresentationView::ReferencesOnly(refs),
                ) && missing@ == unresolved(
                    store.feeds_model(),
                    store.items_model(),
                    old(self)@.uuid->0,
                    refs,
                ) && missing@.len() > 0),
            },
    {
        let parent: u128 = self.uuid.unwrap();
        let resolved: Vec<FeedItem> = match &self.items {
            Option::None => {
                return Ok(());
            },
            Option::Some(ItemsRepresentation::Materialized(_)) => {
                return Ok(());
            },
            Option::Some(ItemsRepresentation::ReferencesOnly(refs)) => {
                let ghost grefs = refs@;
                let mut resolved: Vec<FeedItem> = Vec::new();
                let mut missing: Vec<u128> = Vec::new();
                let mut i: usize = 0;
                while i < refs.len()
                    invariant
                        store.inv(),
                        i <= refs.len(),
                        grefs == refs@,
                        missing@ == unresolved(
                            store.feeds_model(),
                            store.items_model(),
                            parent,
                            grefs.take(i as int),
                        ),
                        missing@.len() == 0 ==> resolved@.len() == i && forall|j: int|
                            0 <= j < i ==> resolved@[j]@ == store.items_model()[grefs[j]],
                    decreases refs.len() - i,
                {
                    proof {
                        assert(grefs.take(i + 1 as int).drop_last() =~= grefs.take(i as int));
                        assert(grefs.take(i + 1 as int).last() == grefs[i as int]);
                    }
                    match store.get_feed_item(parent, refs[i]) {
                        Ok(it) => {
                            resolved.push(it);
                        },
                        Err(_) => {
                            missing.push(refs[i]);
                        },
                    }
                    i = i + 1;
                }
                proof {
                    assert(grefs.take(grefs.len() as int) =~= grefs);
                }
                if missing.len() > 0 {
                    return Err(HydrationError::HydrationFailed { missing });
                }
                proof {
                    assert(items_view(resolved@) =~= items_for(grefs, store.items_model()));
                }
                resolved
            },
        };
        self.items = Some(ItemsRepresentation::Materialized(resolved));
        Ok(())
    }
}

// ---------------------------------------------------------------------------
// Round-trip and deletion laws
// ---------------------------------------------------------------------------
/// Compaction followed by hydration is a round trip: for any feed with an
/// item collection, against a store that resolves all of the compacted
/// feed's references, the materialized items that hydration produces carry
/// exactly the compacted reference list's identifiers, in the same order,
/// and the feed's checksum is unchanged — the canonical form reads the
/// identifiers only. The hypotheses on the store's maps are what
/// `FeedStore`'s `lemma_models_wf` yields for any store satisfying its
/// invariant.
pub proof fn lemma_compact_hydrate_roundtrip(
    f: FeedView,
    feeds: Map<u128, FeedView>,
    items: Map<u128, FeedItemView>,
    parent: u128,
)
    requires
        f.items is Some,
        unresolved(feeds, items, parent, f.compacted().refs()).len() == 0,
        forall|id: u128| #[trigger]
            items.contains_key(id) ==> items[id].uuid == Option::Some(id),
    ensures
        f.compacted().refs() == f.refs(),
        f.compacted().items == Option::Some(
            ItemsRepresentationView::ReferencesOnly(f.refs()),
        ),
        item_ids_of(items_for(f.refs(), items)) == f.refs(),
        crate::model::feed_checksum_of(
            f.compacted().with_items(
                Option::Some(
                    ItemsRepresentationView::Materialized(items_for(f.refs(), items)),
                ),
            ),
        ) == crate::model::feed_checksum_of(f),
{
    lemma_unresolved_empty(feeds, items, parent, f.compacted().refs());
    lemma_items_for_ids(f.refs(), items);
    let hydrated = f.compacted().with_items(
        Option::Some(ItemsRepresentationView::Materialized(items_for(f.refs(), items))),
    );
    assert(hydrated.refs() == f.refs());
    assert(crate::model::canon_feed(hydrated) == crate::model::canon_feed(f));
}

/// Deleting a feed that owns items leaves no item reachable under the
/// parent's former identifier: afterwards the parent itself is gone — a
/// lookup under it reports `NotFound` — and so is every item its reference
/// list held. The two maps after deletion are exactly what `delete_feed`'s
/// contract states.
pub proof fn lemma_delete_feed_no_dangling(
    feeds: Map<u128, FeedView>,
    items: Map<u128, FeedItemView>,
    id: u128,
)
    requires
        feeds.contains_key(id),
    ensures
        !feeds.remove(id).contains_key(id),
        get_feed_result(feeds.remove(id), id) == Err::<FeedView, StoreError>(StoreError::NotFound),
        forall|rid: u128| #[trigger]
            feeds[id].refs().contains(rid) ==> !items.remove_keys(
                feeds[id].refs().to_set(),
            ).contains_key(rid),
{
}

} // verus!
