use vstd::prelude::*;

use crate::errors::StoreError;
use crate::model::{required_present, Feed, FeedView};
use crate::store::{
    creatable, feed_result_view, get_feed_checksum_result, get_feed_result, str_result_view,
    updated_feed, FeedStore,
};

verus! {

// ---------------------------------------------------------------------------
// Derived batch operations
//
// Each operation maps its single-entity primitive over an input list and
// returns one result per element, in input order. No operation is
// transactional across the batch: each element succeeds or fails
// independently, and a caller must inspect every result. They are written
// once, generically, against the storage capability interface; a backend
// implements only the single-entity primitives.
// ---------------------------------------------------------------------------
/// The identifier of a feed that has one.
pub open spec fn fid(f: FeedView) -> u128 {
    f.uuid->0
}

/// The set of item identifiers owned by the listed feeds: the union of the
/// reference lists of those that are stored.
pub open spec fn owned_refs_of(feeds: Map<u128, FeedView>, ids: Seq<u128>) -> Set<u128>
    decreases ids.len(),
{
    if ids.len() == 0 {
        Set::empty()
    } else {
        owned_refs_of(feeds, ids.drop_last()) + if feeds.contains_key(ids.last()) {
            feeds[ids.last()].refs().to_set()
        } else {
            Set::<u128>::empty()
        }
    }
}

proof fn lemma_take_to_set_push(s: Seq<u128>, i: int)
    requires
        0 <= i < s.len(),
    ensures
        s.take(i + 1).to_set() == s.take(i).to_set().insert(s[i]),
{
    assert forall|x: u128| s.take(i + 1).to_set().contains(x) implies s.take(
        i,
    ).to_set().contains(x) || x == s[i] by {
        let s1 = s.take(i + 1);
        assert(s1.contains(x));
        let k = choose|k: int| 0 <= k < s1.len() && s1[k] == x;
        if k < i {
            assert(s.take(i)[k] == x);
            assert(s.take(i).contains(x));
        }
    }
    assert forall|x: u128| s.take(i).to_set().contains(x) implies s.take(i + 1).to_set().contains(
        x,
    ) by {
        let s0 = s.take(i);
        assert(s0.contains(x));
        let k = choose|k: int| 0 <= k < s0.len() && s0[k] == x;
        assert(s.take(i + 1)[k] == x);
        assert(s.take(i + 1).contains(x));
    }
    assert(s.take(i + 1)[i] == s[i]);
    assert(s.take(i + 1).contains(s[i]));
    assert(s.take(i + 1).to_set() =~= s.take(i).to_set().insert(s[i]));
}

/// Look up many feeds: one lookup per identifier, one result per identifier,
/// in input order, each independently `Ok` or `Err`.
pub fn get_feeds<S: FeedStore>(store: &S, uuids: &Vec<u128>) -> (r: Vec<Result<Feed, StoreError>>)
    requires
        store.inv(),
    ensures
        r@.len() == uuids@.len(),
        forall|i: int|
            0 <= i < r@.len() ==> feed_result_view(#[trigger] r@[i]) == get_feed_result(
                store.feeds_model(),
                uuids@[i],
            ),
{
    let mut out: Vec<Result<Feed, StoreError>> = Vec::new();
    let mut i: usize = 0;
    while i < uuids.len()
        invariant
            store.inv(),
            i <= uuids.len(),
            out@.len() == i,
            forall|j: int|
                0 <= j < i ==> feed_result_view(#[trigger] out@[j]) == get_feed_result(
                    store.feeds_model(),
                    uuids@[j],
                ),
        decreases uuids.len() - i,
    {
        out.push(store.get_feed(uuids[i]));
        i = i + 1;
    }
    out
}

/// Look up many feed checksums; see `get_feeds`.
pub fn get_feeds_checksum<S: FeedStore>(store: &S, uuids: &Vec<u128>) -> (r: Vec<
    Result<String, StoreError>,
>)
    requires
        store.inv(),
    ensures
        r@.len() == uuids@.len(),
        forall|i: int|
            0 <= i < r@.len() ==> str_result_view(#[trigger] r@[i]) == get_feed_checksum_result(
                store.feeds_model(),
                uuids@[i],
            ),
{
    let mut out: Vec<Result<String, StoreError>> = Vec::new();
    let mut i: usize = 0;
    while i < uuids.len()
        invariant
            store.inv(),
            i <= uuids.len(),
            out@.len() == i,
            forall|j: int|
                0 <= j < i ==> str_result_view(#[trigger] out@[j]) == get_feed_checksum_result(
                    store.feeds_model(),
                    uuids@[j],
                ),
        decreases uuids.len() - i,
    {
        out.push(store.get_feed_checksum(uuids[i]));
        i = i + 1;
    }
    out
}

/// Persist many new feeds: one create per element, one result per element,
/// in input order. An element succeeds exactly when its identifier is
/// neither already stored nor taken by an earlier element of the batch;
/// nothing already stored is ever overwritten.
pub fn create_feeds<S: FeedStore>(store: &mut S, feeds: Vec<Feed>) -> (r: Vec<
    Result<Feed, StoreError>,
>)
    requires
        old(store).inv(),
        forall|i: int| 0 <= i < feeds@.len() ==> creatable(#[trigger] feeds@[i]@),
    ensures
        final(store).inv(),
        final(store).items_model() == old(store).items_model(),
        r@.len() == feeds@.len(),
        forall|i: int|
            0 <= i < r@.len() ==> ((#[trigger] r@[i]) is Ok <==> (!old(store).feeds_model().contains_key(fid(feeds@[i]@)) && forall|j: int|
                0 <= j < i ==> fid(#[trigger] feeds@[j]@) != fid(feeds@[i]@))),
        forall|i: int|
            0 <= i < r@.len() ==> match #[trigger] r@[i] {
                Ok(stored) => stored@ == feeds@[i]@ && final(store).feeds_model().contains_key(
                    fid(feeds@[i]@),
                ) && final(store).feeds_model()[fid(feeds@[i]@)] == feeds@[i]@,
                Err(e) => e == StoreError::DuplicateIdentifier,
            },
        forall|k: u128|
            final(store).feeds_model().contains_key(k) <==> (old(store).feeds_model().contains_key(k) || exists|j: int|
                0 <= j < feeds@.len() && fid(#[trigger] feeds@[j]@) == k),
        forall|k: u128| #[trigger]
            old(store).feeds_model().contains_key(k) ==> final(store).feeds_model()[k] == old(store).feeds_model()[k],
{
    let mut out: Vec<Result<Feed, StoreError>> = Vec::new();
    let mut i: usize = 0;
    while i < feeds.len()
        invariant
            store.inv(),
            i <= feeds.len(),
            out@.len() == i,
            store.items_model() == old(store).items_model(),
            forall|i2: int| 0 <= i2 < feeds@.len() ==> creatable(#[trigger] feeds@[i2]@),
            forall|k: u128|
                store.feeds_model().contains_key(k) <==> (old(store).feeds_model().contains_key(k) || exists|j: int|
                    0 <= j < i && fid(#[trigger] feeds@[j]@) == k),
            forall|k: u128| #[trigger]
                old(store).feeds_model().contains_key(k) ==> store.feeds_model().contains_key(k)
                    && store.feeds_model()[k] == old(store).feeds_model()[k],
            forall|j: int|
                0 <= j < i ==> ((#[trigger] out@[j]) is Ok <==> (!old(store).feeds_model().contains_key(fid(feeds@[j]@)) && forall|j2: int|
                    0 <= j2 < j ==> fid(#[trigger] feeds@[j2]@) != fid(feeds@[j]@))),
            forall|j: int|
                0 <= j < i ==> match #[trigger] out@[j] {
                    Ok(stored) => stored@ == feeds@[j]@ && store.feeds_model().contains_key(
                        fid(feeds@[j]@),
                    ) && store.feeds_model()[fid(feeds@[j]@)] == feeds@[j]@,
                    Err(e) => e == StoreError::DuplicateIdentifier,
                },
        decreases feeds.len() - i,
    {
        let feed: Feed = feeds[i].clone();
        let res: Result<Feed, StoreError> = store.create_feed(feed);
        out.push(res);
        i = i + 1;
    }
    out
}

/// Update many feeds: one update per (identifier, content) pair, one result
/// per pair, in input order. A pair succeeds exactly when its identifier is
/// stored; the set of stored feeds never changes, and on duplicates the last
/// write wins. Every stored feed keeps its item collection.
pub fn update_feeds<S: FeedStore>(store: &mut S, ops: Vec<(u128, Feed)>) -> (r: Vec<
    Result<Feed, StoreError>,
>)
    requires
        old(store).inv(),
        forall|i: int| 0 <= i < ops@.len() ==> required_present((#[trigger] ops@[i].1)@),
    ensures
        final(store).inv(),
        final(store).items_model() == old(store).items_model(),
        r@.len() == ops@.len(),
        forall|k: u128|
            final(store).feeds_model().contains_key(k) <==> old(store).feeds_model().contains_key(k),
        forall|i: int|
            0 <= i < r@.len() ==> ((#[trigger] r@[i]) is Ok <==> old(store).feeds_model().contains_key(ops@[i].0)),
        forall|i: int|
            0 <= i < r@.len() ==> match #[trigger] r@[i] {
                Ok(updated) => updated@ == updated_feed(
                    old(store).feeds_model()[ops@[i].0],
                    ops@[i].1@,
                    ops@[i].0,
                ),
                Err(e) => e == StoreError::NotFound,
            },
        forall|k: u128|
            (old(store).feeds_model().contains_key(k) && forall|j: int|
                0 <= j < ops@.len() ==> (#[trigger] ops@[j].0) != k) ==> final(store).feeds_model()[k] == old(store).feeds_model()[k],
        forall|i: int|
            (0 <= i < ops@.len() && (#[trigger] r@[i]) is Ok && forall|j: int|
                i < j < ops@.len() ==> (#[trigger] ops@[j].0) != ops@[i].0) ==> final(store).feeds_model()[ops@[i].0] == updated_feed(
                old(store).feeds_model()[ops@[i].0],
                ops@[i].1@,
                ops@[i].0,
            ),
{
    let mut out: Vec<Result<Feed, StoreError>> = Vec::new();
    let mut i: usize = 0;
    while i < ops.len()
        invariant
            store.inv(),
            i <= ops.len(),
            out@.len() == i,
            store.items_model() == old(store).items_model(),
            forall|i2: int| 0 <= i2 < ops@.len() ==> required_present((#[trigger] ops@[i2].1)@),
            forall|k: u128|
                store.feeds_model().contains_key(k) <==> old(store).feeds_model().contains_key(k),
            forall|k: u128| #[trigger]
                old(store).feeds_model().contains_key(k) ==> store.feeds_model()[k].items == old(store).feeds_model()[k].items,
            forall|k: u128|
                (old(store).feeds_model().contains_key(k) && forall|j: int|
                    0 <= j < i ==> (#[trigger] ops@[j].0) != k) ==> store.feeds_model()[k] == old(store).feeds_model()[k],
            forall|j: int|
                0 <= j < i ==> ((#[trigger] out@[j]) is Ok <==> old(store).feeds_model().contains_key(ops@[j].0)),
            forall|j: int|
                0 <= j < i ==> match #[trigger] out@[j] {
                    Ok(updated) => updated@ == updated_feed(
                        old(store).feeds_model()[ops@[j].0],
                        ops@[j].1@,
                        ops@[j].0,
                    ),
                    Err(e) => e == StoreError::NotFound,
                },
            forall|j: int|
                (0 <= j < i && (#[trigger] out@[j]) is Ok && forall|j2: int|
                    j < j2 < i ==> (#[trigger] ops@[j2].0) != ops@[j].0) ==> store.feeds_model()[
                    ops@[j].0
                ] == updated_feed(
                    old(store).feeds_model()[ops@[j].0],
                    ops@[j].1@,
                    ops@[j].0,
                ),
        decreases ops.len() - i,
    {
        let uuid: u128 = ops[i].0;
        let feed: Feed = ops[i].1.clone();
        let ghost pre = store.feeds_model();
        let res: Result<Feed, StoreError> = store.update_feed(uuid, feed);
        proof {
            if pre.contains_key(uuid) {
                assert(updated_feed(pre[uuid], ops@[i as int].1@, uuid) == updated_feed(
                    old(store).feeds_model()[uuid],
                    ops@[i as int].1@,
                    uuid,
                ));
            }
        }
        out.push(res);
        i = i + 1;
    }
    out
}

/// Delete many feeds, each with the items it owns: one delete per
/// identifier, one result per identifier, in input order. An element
/// succeeds exactly when its identifier is still stored when its turn
/// comes: stored and not already deleted by an earlier duplicate.
pub fn delete_feeds<S: FeedStore>(store: &mut S, uuids: &Vec<u128>) -> (r: Vec<
    Result<(), StoreError>,
>)
    requires
        old(store).inv(),
    ensures
        final(store).inv(),
        r@.len() == uuids@.len(),
        final(store).feeds_model() == old(store).feeds_model().remove_keys(uuids@.to_set()),
        final(store).items_model() == old(store).items_model().remove_keys(
            owned_refs_of(old(store).feeds_model(), uuids@),
        ),
        forall|i: int|
            0 <= i < r@.len() ==> ((#[trigger] r@[i]) is Ok <==> (old(store).feeds_model().contains_key(uuids@[i]) && forall|j: int|
                0 <= j < i ==> uuids@[j] != uuids@[i])),
        forall|i: int|
            0 <= i < r@.len() ==> ((#[trigger] r@[i]) matches Err(e) ==> e == StoreError::NotFound),
{
    let mut out: Vec<Result<(), StoreError>> = Vec::new();
    let mut i: usize = 0;
    while i < uuids.len()
        invariant
            store.inv(),
            i <= uuids.len(),
            out@.len() == i,
            store.feeds_model() == old(store).feeds_model().remove_keys(
                uuids@.take(i as int).to_set(),
            ),
            store.items_model() == old(store).items_model().remove_keys(
                owned_refs_of(old(store).feeds_model(), uuids@.take(i as int)),
            ),
            forall|j: int|
                0 <= j < i ==> ((#[trigger] out@[j]) is Ok <==> (old(store).feeds_model().contains_key(uuids@[j]) && forall|j2: int|
                    0 <= j2 < j ==> uuids@[j2] != uuids@[j])),
            forall|j: int|
                0 <= j < i ==> ((#[trigger] out@[j]) matches Err(e) ==> e == StoreError::NotFound),
        decreases uuids.len() - i,
    {
        let uuid: u128 = uuids[i];
        let ghost pre_feeds = store.feeds_model();
        let ghost pre_items = store.items_model();
        let res: Result<(), StoreError> = store.delete_feed(uuid);
        proof {
            lemma_take_to_set_push(uuids@, i as int);
            assert(uuids@.take(i + 1 as int).drop_last() =~= uuids@.take(i as int));
            assert(uuids@.take(i + 1 as int).last() == uuids@[i as int]);
            let removed = uuids@.take(i as int).to_set();
            if pre_feeds.contains_key(uuid) {
                assert(old(store).feeds_model().contains_key(uuid));
                assert(!removed.contains(uuid));
                assert(forall|j: int| 0 <= j < i ==> uuids@[j] != uuid) by {
                    assert forall|j: int| 0 <= j < i implies uuids@[j] != uuid by {
                        if uuids@[j] == uuid {
                            assert(uuids@.take(i as int)[j] == uuid);
                            assert(uuids@.take(i as int).contains(uuid));
                        }
                    }
                }
                assert(pre_feeds[uuid] == old(store).feeds_model()[uuid]);
                assert(store.feeds_model() =~= old(store).feeds_model().remove_keys(
                    uuids@.take(i + 1 as int).to_set(),
                ));
                assert(store.items_model() =~= old(store).items_model().remove_keys(
                    owned_refs_of(old(store).feeds_model(), uuids@.take(i + 1 as int)),
                ));
            } else {
                if old(store).feeds_model().contains_key(uuid) {
                    assert(removed.contains(uuid));
                    let k = choose|k: int|
                        0 <= k < uuids@.take(i as int).len() && uuids@.take(i as int)[k] == uuid;
                    assert(uuids@[k] == uuid);
                }
                assert(store.feeds_model() =~= old(store).feeds_model().remove_keys(
                    uuids@.take(i + 1 as int).to_set(),
                ));
                assert forall|x: u128|
                    owned_refs_of(old(store).feeds_model(), uuids@.take(i + 1 as int)).contains(
                        x,
                    ) == owned_refs_of(old(store).feeds_model(), uuids@.take(i as int)).contains(
                        x,
                    ) by {
                    if old(store).feeds_model().contains_key(uuid) {
                        let k = choose|k: int|
                            0 <= k < uuids@.take(i as int).len() && uuids@.take(i as int)[k]
                                == uuid;
                        lemma_owned_refs_of_member(
                            old(store).feeds_model(),
                            uuids@.take(i as int),
                            k,
                        );
                    }
                }
                assert(owned_refs_of(old(store).feeds_model(), uuids@.take(i + 1 as int))
                    =~= owned_refs_of(old(store).feeds_model(), uuids@.take(i as int)));
                assert(store.items_model() =~= old(store).items_model().remove_keys(
                    owned_refs_of(old(store).feeds_model(), uuids@.take(i + 1 as int)),
                ));
            }
        }
        out.push(res);
        i = i + 1;
    }
    proof {
        assert(uuids@.take(uuids@.len() as int) =~= uuids@);
    }
    out
}

/// The reference set of a listed feed is contained in the owned set of the
/// whole list.
proof fn lemma_owned_refs_of_member(feeds: Map<u128, FeedView>, ids: Seq<u128>, k: int)
    requires
        0 <= k < ids.len(),
        feeds.contains_key(ids[k]),
    ensures
        feeds[ids[k]].refs().to_set().subset_of(owned_refs_of(feeds, ids)),
    decreases ids.len(),
{
    if k == ids.len() - 1 {
        assert(ids.last() == ids[k]);
    } else {
        assert(ids.drop_last()[k] == ids[k]);
        lemma_owned_refs_of_member(feeds, ids.drop_last(), k);
    }
}

} // verus!
