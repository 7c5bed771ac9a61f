use feeder::batch::{create_feeds, delete_feeds, get_feeds, get_feeds_checksum, update_feeds};
use feeder::errors::{HydrationError, StoreError};
use feeder::mem_store::MemStore;
use feeder::model::{Feed, FeedItem, ItemsRepresentation};
use feeder::store::{FeedItemStore, FeedStore};

fn feed(title: &str) -> Feed {
    Feed::construct(
        title.to_string(),
        "a description".to_string(),
        "https://example.com".to_string(),
    )
    .unwrap()
}

fn item(title: &str) -> FeedItem {
    FeedItem::construct(
        title.to_string(),
        "https://example.com/entry".to_string(),
        "an entry".to_string(),
    )
    .unwrap()
}

#[test]
fn create_get_roundtrip() {
    let mut store = MemStore::new();
    let f = feed("mine");
    let id = f.get_uuid().unwrap();
    let created = store.create_feed(f).unwrap();
    assert_eq!(created.get_uuid().unwrap(), id);
    let got = store.get_feed(id).unwrap();
    assert_eq!(got.title.as_deref(), Some("mine"));
    assert_eq!(got.get_checksum(), created.get_checksum());
}

#[test]
fn create_duplicate_identifier_fails() {
    let mut store = MemStore::new();
    let f = feed("one");
    let twin = f.clone();
    store.create_feed(f).unwrap();
    assert!(matches!(
        store.create_feed(twin),
        Err(StoreError::DuplicateIdentifier)
    ));
}

#[test]
fn get_absent_feed_fails() {
    let store = MemStore::new();
    assert!(matches!(store.get_feed(42), Err(StoreError::NotFound)));
    assert!(matches!(
        store.get_feed_checksum(42),
        Err(StoreError::NotFound)
    ));
}

#[test]
fn update_feed_replaces_content_and_checksum() {
    let mut store = MemStore::new();
    let f = feed("before");
    let id = f.get_uuid().unwrap();
    let before_checksum = f.get_checksum().unwrap();
    store.create_feed(f).unwrap();
    let updated = store.update_feed(id, feed("after")).unwrap();
    assert_eq!(updated.get_uuid().unwrap(), id, "identifier is never reassigned");
    assert_eq!(updated.title.as_deref(), Some("after"));
    assert_ne!(updated.get_checksum().unwrap(), before_checksum);
    assert_eq!(
        store.get_feed_checksum(id).unwrap(),
        updated.get_checksum().unwrap()
    );
    assert!(matches!(
        store.update_feed(999, feed("nobody")),
        Err(StoreError::NotFound)
    ));
}

#[test]
fn item_lifecycle_under_parent() {
    let mut store = MemStore::new();
    let f = feed("parent");
    let parent = f.get_uuid().unwrap();
    store.create_feed(f).unwrap();

    let it = item("entry");
    let iid = it.get_uuid().unwrap();
    store.create_feed_item(parent, it).unwrap();

    let got = store.get_feed_item(parent, iid).unwrap();
    assert_eq!(got.title.as_deref(), Some("entry"));
    assert_eq!(
        store.get_feed_item_checksum(parent, iid).unwrap(),
        got.get_checksum().unwrap()
    );

    let upd = store
        .update_feed_item(parent, iid, item("entry 2"))
        .unwrap();
    assert_eq!(upd.get_uuid().unwrap(), iid);
    assert_eq!(upd.title.as_deref(), Some("entry 2"));

    store.delete_feed_item(parent, iid).unwrap();
    assert!(matches!(
        store.get_feed_item(parent, iid),
        Err(StoreError::NoItemFound)
    ));
    let left = store.get_feed_items(parent, None).unwrap();
    assert!(left.is_empty());
}

#[test]
fn item_ops_report_missing_parent_and_item() {
    let mut store = MemStore::new();
    let f = feed("parent");
    let parent = f.get_uuid().unwrap();
    store.create_feed(f).unwrap();
    assert!(matches!(
        store.create_feed_item(999, item("x")),
        Err(StoreError::NotFound)
    ));
    assert!(matches!(
        store.get_feed_item(999, 1),
        Err(StoreError::NotFound)
    ));
    assert!(matches!(
        store.get_feed_item(parent, 12345),
        Err(StoreError::NoItemFound)
    ));
    assert!(matches!(
        store.update_feed_item(parent, 12345, item("x")),
        Err(StoreError::NoItemFound)
    ));
    assert!(matches!(
        store.delete_feed_item(parent, 12345),
        Err(StoreError::NoItemFound)
    ));
    assert!(matches!(
        store.get_feed_item_checksum(parent, 12345),
        Err(StoreError::NoItemFound)
    ));
}

#[test]
fn unreferenced_identifiers_are_silently_dropped() {
    let mut store = MemStore::new();
    let f = feed("parent");
    let parent = f.get_uuid().unwrap();
    store.create_feed(f).unwrap();
    let it = item("entry");
    let iid = it.get_uuid().unwrap();
    store.create_feed_item(parent, it).unwrap();

    let id_not_referenced: u128 = iid.wrapping_add(1);
    let got = store
        .get_feed_items(parent, Some(vec![id_not_referenced]))
        .unwrap();
    assert!(got.is_empty(), "an unknown identifier is dropped, not an error");

    let got = store
        .get_feed_items(parent, Some(vec![id_not_referenced, iid]))
        .unwrap();
    assert_eq!(got.len(), 1);
    assert_eq!(got[0].get_uuid().unwrap(), iid);
}

#[test]
fn item_creation_changes_parent_checksum() {
    let mut store = MemStore::new();
    let f = feed("parent");
    let parent = f.get_uuid().unwrap();
    store.create_feed(f).unwrap();
    let before = store.get_feed_checksum(parent).unwrap();
    store.create_feed_item(parent, item("entry")).unwrap();
    let after = store.get_feed_checksum(parent).unwrap();
    assert_ne!(before, after, "item-list mutation changes the parent checksum");
}

#[test]
fn delete_feed_leaves_no_dangling_item() {
    let mut store = MemStore::new();
    let f = feed("parent");
    let parent = f.get_uuid().unwrap();
    store.create_feed(f).unwrap();
    let a = item("a");
    let aid = a.get_uuid().unwrap();
    store.create_feed_item(parent, a).unwrap();
    store.create_feed_item(parent, item("b")).unwrap();

    store.delete_feed(parent).unwrap();

    assert!(matches!(
        store.get_feed_items(parent, None),
        Err(StoreError::NotFound)
    ));
    assert!(matches!(store.get_feed(parent), Err(StoreError::NotFound)));
    assert!(matches!(
        store.get_feed_item(parent, aid),
        Err(StoreError::NotFound)
    ));
    assert!(matches!(store.delete_feed(parent), Err(StoreError::NotFound)));
}

#[test]
fn hydrate_materializes_in_reference_order() {
    let mut store = MemStore::new();
    let f = feed("parent");
    let parent = f.get_uuid().unwrap();
    store.create_feed(f).unwrap();
    let a = item("a");
    let b = item("b");
    let (aid, bid) = (a.get_uuid().unwrap(), b.get_uuid().unwrap());
    store.create_feed_item(parent, a).unwrap();
    store.create_feed_item(parent, b).unwrap();

    let mut got = store.get_feed(parent).unwrap();
    match &got.items {
        Some(ItemsRepresentation::ReferencesOnly(refs)) => assert_eq!(refs, &vec![aid, bid]),
        _ => panic!("a stored feed holds references only"),
    }
    got.hydrate(&store).unwrap();
    match &got.items {
        Some(ItemsRepresentation::Materialized(items)) => {
            let ids: Vec<u128> = items.iter().map(|it| it.get_uuid().unwrap()).collect();
            assert_eq!(ids, vec![aid, bid]);
            assert_eq!(items[0].title.as_deref(), Some("a"));
        }
        _ => panic!("hydration must materialize the items"),
    }
    // A second hydration of a materialized feed is a no-op.
    got.hydrate(&store).unwrap();
    assert!(matches!(
        got.items,
        Some(ItemsRepresentation::Materialized(_))
    ));
}

#[test]
fn compact_then_hydrate_round_trips() {
    let mut store = MemStore::new();
    let f = feed("parent");
    let parent = f.get_uuid().unwrap();
    store.create_feed(f).unwrap();
    let a = item("a");
    let b = item("b");
    let (aid, bid) = (a.get_uuid().unwrap(), b.get_uuid().unwrap());
    store.create_feed_item(parent, a).unwrap();
    store.create_feed_item(parent, b).unwrap();

    let mut got = store.get_feed(parent).unwrap();
    let checksum_before = got.get_checksum().unwrap();
    got.hydrate(&store).unwrap();
    got.compact();
    match &got.items {
        Some(ItemsRepresentation::ReferencesOnly(refs)) => assert_eq!(refs, &vec![aid, bid]),
        _ => panic!("compaction must reduce to references"),
    }
    got.compute_checksum();
    assert_eq!(
        got.get_checksum().unwrap(),
        checksum_before,
        "the checksum reads the identifiers only"
    );
    got.hydrate(&store).unwrap();
    match &got.items {
        Some(ItemsRepresentation::Materialized(items)) => {
            let ids: Vec<u128> = items.iter().map(|it| it.get_uuid().unwrap()).collect();
            assert_eq!(ids, vec![aid, bid], "round trip keeps the identifiers in order");
        }
        _ => panic!("hydration must materialize the items"),
    }
}

#[test]
fn hydrate_fails_atomically_on_missing_item() {
    let mut store = MemStore::new();
    let f = feed("parent");
    let parent = f.get_uuid().unwrap();
    store.create_feed(f).unwrap();
    let a = item("a");
    let aid = a.get_uuid().unwrap();
    store.create_feed_item(parent, a).unwrap();

    let mut got = store.get_feed(parent).unwrap();
    let bogus: u128 = aid.wrapping_add(1);
    got.items = Some(ItemsRepresentation::ReferencesOnly(vec![aid, bogus]));
    let err = got.hydrate(&store).unwrap_err();
    assert_eq!(
        err,
        HydrationError::HydrationFailed {
            missing: vec![bogus]
        }
    );
    match &got.items {
        Some(ItemsRepresentation::ReferencesOnly(refs)) => {
            assert_eq!(refs, &vec![aid, bogus], "a failed hydration changes nothing");
        }
        _ => panic!("a failed hydration changes nothing"),
    }
}

#[test]
fn batch_results_are_per_element_in_input_order() {
    let mut store = MemStore::new();
    let f1 = feed("one");
    let f2 = feed("two");
    let (id1, id2) = (f1.get_uuid().unwrap(), f2.get_uuid().unwrap());
    let dup = f1.clone();

    let created = create_feeds(&mut store, vec![f1, f2, dup]);
    assert_eq!(created.len(), 3);
    assert!(created[0].is_ok());
    assert!(created[1].is_ok());
    assert!(matches!(created[2], Err(StoreError::DuplicateIdentifier)));

    let bogus: u128 = id1.wrapping_add(id2).wrapping_add(1);
    let got = get_feeds(&store, &vec![id2, bogus, id1]);
    assert_eq!(got.len(), 3);
    assert_eq!(got[0].as_ref().unwrap().title.as_deref(), Some("two"));
    assert!(matches!(got[1], Err(StoreError::NotFound)));
    assert_eq!(got[2].as_ref().unwrap().title.as_deref(), Some("one"));

    let sums = get_feeds_checksum(&store, &vec![id1, bogus]);
    assert_eq!(sums.len(), 2);
    assert_eq!(sums[0].as_ref().unwrap().len(), 64);
    assert!(matches!(sums[1], Err(StoreError::NotFound)));

    let updated = update_feeds(
        &mut store,
        vec![(id1, feed("one prime")), (bogus, feed("nobody"))],
    );
    assert_eq!(updated.len(), 2);
    assert_eq!(
        updated[0].as_ref().unwrap().title.as_deref(),
        Some("one prime")
    );
    assert_eq!(updated[0].as_ref().unwrap().get_uuid().unwrap(), id1);
    assert!(matches!(updated[1], Err(StoreError::NotFound)));

    let deleted = delete_feeds(&mut store, &vec![id1, id1, id2]);
    assert_eq!(deleted.len(), 3);
    assert!(deleted[0].is_ok());
    assert!(matches!(deleted[1], Err(StoreError::NotFound)));
    assert!(deleted[2].is_ok());
    assert!(matches!(store.get_feed(id2), Err(StoreError::NotFound)));
}
