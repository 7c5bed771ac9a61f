use feeder::checksum::u128_to_dec;
use feeder::errors::ValidationError;
use feeder::model::{canonical_feed, checksum_feed, Feed, FeedItem, ItemsRepresentation};

#[test]
fn feed_new_test() {
    let _feed = Feed::construct(
        "My title".to_string(),
        "My example description for my feed test".to_string(),
        "https://example.com".to_string(),
    );
    if _feed.is_err() {
        panic!("Failed to create feed");
    }

    let feed = _feed.unwrap();

    println!("uuid: {}", feed.get_uuid().unwrap());
    println!("checksum: {}", feed.get_checksum().unwrap());
}

#[test]
fn construct_ready_feed() {
    let feed = Feed::construct(
        "My title".to_string(),
        "My example description for my feed test".to_string(),
        "https://example.com".to_string(),
    )
    .unwrap();
    let uuid = feed.get_uuid().unwrap();
    assert_ne!(uuid, 0, "identifier must be non-nil");
    let checksum = feed.get_checksum().unwrap();
    assert_eq!(checksum.len(), 64);
    assert!(checksum.chars().all(|c| c.is_ascii_hexdigit()));
    assert!(feed.items.is_none());
}

#[test]
fn construct_reports_first_missing_field() {
    let r = Feed::construct("".to_string(), "d".to_string(), "l".to_string());
    assert!(matches!(r, Err(ValidationError::MissingTitle)));
    let r = Feed::construct("t".to_string(), "".to_string(), "l".to_string());
    assert!(matches!(r, Err(ValidationError::MissingDescription)));
    let r = Feed::construct("t".to_string(), "d".to_string(), "".to_string());
    assert!(matches!(r, Err(ValidationError::MissingLink)));
    let r = Feed::construct("".to_string(), "".to_string(), "".to_string());
    assert!(matches!(r, Err(ValidationError::MissingTitle)));
}

#[test]
fn item_construct_reports_first_missing_field() {
    let r = FeedItem::construct("".to_string(), "l".to_string(), "d".to_string());
    assert!(matches!(r, Err(ValidationError::MissingTitle)));
    let r = FeedItem::construct("t".to_string(), "l".to_string(), "".to_string());
    assert!(matches!(r, Err(ValidationError::MissingDescription)));
    let r = FeedItem::construct("t".to_string(), "".to_string(), "d".to_string());
    assert!(matches!(r, Err(ValidationError::MissingLink)));
    let item = FeedItem::construct("t".to_string(), "l".to_string(), "d".to_string()).unwrap();
    assert_ne!(item.get_uuid().unwrap(), 0);
    assert_eq!(item.get_checksum().unwrap().len(), 64);
}

#[test]
fn checksum_rederives_identically() {
    let feed = Feed::construct("t".to_string(), "d".to_string(), "l".to_string()).unwrap();
    let stored = feed.get_checksum().unwrap();
    let again = checksum_feed(&feed).unwrap();
    assert_eq!(stored, again, "checksum must re-derive identically on an unchanged feed");
}

#[test]
fn checksum_differs_from_canonical_form() {
    let feed = Feed::construct("t".to_string(), "d".to_string(), "l".to_string()).unwrap();
    let canon = canonical_feed(&feed);
    let digest = checksum_feed(&feed).unwrap();
    assert_ne!(canon, digest, "the digest is not the canonical form itself");
}

#[test]
fn checksums_differ_for_different_content() {
    let a = Feed::construct("t".to_string(), "d".to_string(), "l".to_string()).unwrap();
    let b = Feed::construct("t2".to_string(), "d".to_string(), "l".to_string()).unwrap();
    assert_ne!(a.get_checksum().unwrap(), b.get_checksum().unwrap());
}

fn bare_feed(uuid: u128) -> Feed {
    Feed {
        uuid: Some(uuid),
        title: Some("a".to_string()),
        description: Some("b".to_string()),
        link: Some("c".to_string()),
        category: None,
        copyright: None,
        image: None,
        language: None,
        items: None,
        checksum: None,
    }
}

#[test]
fn canonical_form_is_exact() {
    let feed = bare_feed(5);
    assert_eq!(canonical_feed(&feed), "feed;u:5;t:a;d:b;l:c;");
    let mut with_items = bare_feed(5);
    with_items.items = Some(ItemsRepresentation::ReferencesOnly(vec![10, 7]));
    assert_eq!(canonical_feed(&with_items), "feed;u:5;t:a;d:b;l:c;i:10,7,;");
}

#[test]
fn decimal_rendering_is_exact() {
    assert_eq!(u128_to_dec(0), "0");
    assert_eq!(u128_to_dec(9), "9");
    assert_eq!(u128_to_dec(12345), "12345");
    assert_eq!(
        u128_to_dec(u128::MAX),
        "340282366920938463463374607431768211455"
    );
}

#[test]
fn new_from_model_validates_and_drops_items() {
    let mut model = bare_feed(5);
    model.category = Some("news".to_string());
    model.items = Some(ItemsRepresentation::ReferencesOnly(vec![1, 2]));
    let feed = Feed::new_from_model(model).unwrap();
    assert_eq!(feed.category.as_deref(), Some("news"));
    assert!(feed.items.is_none(), "a freshly created feed owns no items");
    assert_ne!(feed.get_uuid().unwrap(), 5, "a fresh identifier is minted");

    let mut bad = bare_feed(5);
    bad.title = None;
    assert!(matches!(
        Feed::new_from_model(bad),
        Err(ValidationError::MissingTitle)
    ));
    let mut empty_link = bare_feed(5);
    empty_link.link = Some("".to_string());
    assert!(matches!(
        Feed::new_from_model(empty_link),
        Err(ValidationError::MissingLink)
    ));
}

#[test]
fn compact_drops_items_without_identifier() {
    let with_id = FeedItem::construct("t".to_string(), "l".to_string(), "d".to_string()).unwrap();
    let id = with_id.get_uuid().unwrap();
    let without_id = FeedItem {
        uuid: None,
        title: Some("t".to_string()),
        link: Some("l".to_string()),
        description: Some("d".to_string()),
        author: None,
        comments: None,
        enclosure: None,
        checksum: None,
    };
    let mut feed = bare_feed(5);
    feed.items = Some(ItemsRepresentation::Materialized(vec![without_id, with_id]));
    feed.compact();
    match feed.items {
        Some(ItemsRepresentation::ReferencesOnly(refs)) => assert_eq!(refs, vec![id]),
        _ => panic!("compact must reduce to references"),
    }
}

#[test]
fn compact_preserves_checksum() {
    let item = FeedItem::construct("t".to_string(), "l".to_string(), "d".to_string()).unwrap();
    let mut feed = bare_feed(5);
    feed.items = Some(ItemsRepresentation::Materialized(vec![item]));
    feed.compute_checksum();
    let before = feed.get_checksum().unwrap();
    feed.compact();
    feed.compute_checksum();
    assert_eq!(feed.get_checksum().unwrap(), before);
}
