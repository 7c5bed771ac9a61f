use feeder::errors::{
    ChecksumError, Error, FeedRouterError, HttpError, StoreError, UuidError, ValidationError,
};
use feeder::ids::check_uuid;
use feeder::model::{Feed, FeedImage, FeedItemEnclosure};
use feeder::service::{
    catcher_error, check_feed_model, check_uuids, resolve_update_uuid, RequestCounter,
};

#[test]
fn check_uuid_accepts_the_textual_form() {
    let id = check_uuid("a1a2a3a4-b1b2-c1c2-d1d2-d3d4d5d6d7d8").unwrap();
    assert_eq!(id, 0xa1a2a3a4b1b2c1c2d1d2d3d4d5d6d7d8);
    let reference = uuid::Uuid::parse_str("a1a2a3a4-b1b2-c1c2-d1d2-d3d4d5d6d7d8").unwrap();
    assert_eq!(id, reference.as_u128());
}

#[test]
fn check_uuid_rejects_bad_text() {
    let err = check_uuid("not-a-uuid").unwrap_err();
    assert_eq!(
        err,
        UuidError::UuidNotValid {
            err: "not-a-uuid".to_string()
        }
    );
}

#[test]
fn check_uuids_validates_each_element() {
    let ids = check_uuids(&vec![
        "a1a2a3a4-b1b2-c1c2-d1d2-d3d4d5d6d7d8".to_string(),
        "00000000-0000-0000-0000-000000000001".to_string(),
    ])
    .unwrap();
    assert_eq!(ids, vec![0xa1a2a3a4b1b2c1c2d1d2d3d4d5d6d7d8, 1]);
    let err = check_uuids(&vec![
        "00000000-0000-0000-0000-000000000001".to_string(),
        "nope".to_string(),
    ])
    .unwrap_err();
    assert_eq!(
        err,
        UuidError::UuidNotValid {
            err: "nope".to_string()
        }
    );
}

#[test]
fn fresh_identifiers_are_non_nil_and_distinct() {
    let a = Feed::construct("t".to_string(), "d".to_string(), "l".to_string()).unwrap();
    let b = Feed::construct("t".to_string(), "d".to_string(), "l".to_string()).unwrap();
    assert_ne!(a.get_uuid().unwrap(), 0);
    assert_ne!(b.get_uuid().unwrap(), 0);
    assert_ne!(a.get_uuid(), b.get_uuid());
}

#[test]
fn resolve_update_uuid_cases() {
    assert_eq!(resolve_update_uuid(Some(7), Some(7)), Ok(7));
    assert_eq!(resolve_update_uuid(Some(7), None), Ok(7));
    assert_eq!(resolve_update_uuid(None, Some(9)), Ok(9));
    assert_eq!(
        resolve_update_uuid(Some(7), Some(9)),
        Err(FeedRouterError::ModelAndArgUuidsDiffer)
    );
    assert_eq!(resolve_update_uuid(None, None), Err(FeedRouterError::NoUuid));
}

#[test]
fn check_feed_model_reports_first_missing_field() {
    let mut model = Feed {
        uuid: None,
        title: Some("t".to_string()),
        description: Some("d".to_string()),
        link: Some("l".to_string()),
        category: None,
        copyright: None,
        image: None,
        language: None,
        items: None,
        checksum: None,
    };
    assert!(check_feed_model(&model).is_ok());
    model.description = Some("".to_string());
    assert!(matches!(
        check_feed_model(&model),
        Err(ValidationError::MissingDescription)
    ));
    model.title = None;
    assert!(matches!(
        check_feed_model(&model),
        Err(ValidationError::MissingTitle)
    ));
}

#[test]
fn catcher_error_carries_scope_and_message() {
    let e = catcher_error("router", HttpError::NotFound);
    assert_eq!(e.scope, "router");
    assert_eq!(e.message, "not found");
    let e = catcher_error("router", HttpError::ServiceUnavailable);
    assert_eq!(e.message, "service unavailable");
}

#[test]
fn error_messages_are_exact() {
    assert_eq!(ValidationError::MissingTitle.message(), "model has no title");
    assert_eq!(
        ValidationError::MissingDescription.message(),
        "model has no description"
    );
    assert_eq!(ValidationError::MissingLink.message(), "model has no link");
    assert_eq!(StoreError::NotFound.message(), "no feed found");
    assert_eq!(StoreError::NoItemFound.message(), "no item found");
    assert_eq!(StoreError::NoChecksum.message(), "no checksum");
    assert_eq!(
        StoreError::DuplicateIdentifier.message(),
        "duplicate identifier"
    );
    assert_eq!(StoreError::ConflictOnWrite.message(), "conflicting write");
    assert_eq!(
        StoreError::BackendUnavailable.message(),
        "backend unavailable"
    );
    assert_eq!(
        ChecksumError::FailedToSerialize.message(),
        "failed to compute the checksum"
    );
    assert_eq!(FeedRouterError::NoUuid.message(), "no uuid");
    assert_eq!(
        FeedRouterError::ModelAndArgUuidsDiffer.message(),
        "the endpoint argument uuid and the model uuid are not the same"
    );
}

#[test]
fn error_envelope_holds_scope_and_message() {
    let e = Error::new("database/model".to_string(), "failed".to_string());
    assert_eq!(e.scope, "database/model");
    assert_eq!(e.message, "failed");
}

#[test]
fn request_counter_counts() {
    let mut c = RequestCounter::new();
    assert_eq!(c.get(), 0);
    c.on_request();
    c.on_request();
    assert_eq!(c.get(), 2);
}

#[test]
fn aux_constructors_keep_their_fields() {
    let im = FeedImage::new("u".to_string(), "t".to_string(), "l".to_string());
    assert_eq!(im.url, "u");
    assert_eq!(im.title, "t");
    assert_eq!(im.link, "l");
    let en = FeedItemEnclosure::new("u".to_string(), "123".to_string(), "audio/mpeg".to_string());
    assert_eq!(en.url, "u");
    assert_eq!(en.length, "123");
    assert_eq!(en.mime_type, "audio/mpeg");
}
