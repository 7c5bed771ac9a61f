use vstd::prelude::*;

verus! {

/// A missing required content field, found while validating a feed or a
/// feed item. The first missing field is the one reported.
#[derive(Clone, Copy, Debug, PartialEq, Eq, Structural)]
pub enum ValidationError {
    MissingTitle,
    MissingDescription,
    MissingLink,
}

impl ValidationError {
    /// The message text for this validation failure.
    pub fn message(&self) -> (r: String)
        ensures
            r@ == self.message_spec(),
    {
        match self {
            ValidationError::MissingTitle => "model has no title".to_string(),
            ValidationError::MissingDescription => "model has no description".to_string(),
            ValidationError::MissingLink => "model has no link".to_string(),
        }
    }

    pub open spec fn message_spec(&self) -> Seq<char> {
        match self {
            ValidationError::MissingTitle => "model has no title"@,
            ValidationError::MissingDescription => "model has no description"@,
            ValidationError::MissingLink => "model has no link"@,
        }
    }
}

/// A failure of the checksum engine: the aggregate could not be put into
/// its canonical serialized form.
#[derive(Clone, Copy, Debug, PartialEq, Eq, Structural)]
pub enum ChecksumError {
    FailedToSerialize,
}

impl ChecksumError {
    /// The message text for this checksum failure.
    pub fn message(&self) -> (r: String)
        ensures
            r@ == "failed to compute the checksum"@,
    {
        "failed to compute the checksum".to_string()
    }
}

/// A failure reported by a storage backend through the storage capability
/// interface.
#[derive(Clone, Copy, Debug, PartialEq, Eq, Structural)]
pub enum StoreError {
    /// No feed has the requested identifier.
    NotFound,
    /// An aggregate with the same identifier is already stored.
    DuplicateIdentifier,
    /// The backend rejected a concurrent write (optimistic concurrency).
    ConflictOnWrite,
    /// The identifier is not among the parent feed's references.
    NoItemFound,
    /// The aggregate exists but carries no checksum.
    NoChecksum,
    /// The backend could not be reached in time.
    BackendUnavailable,
}

impl StoreError {
    /// The message text for this store failure.
    pub fn message(&self) -> (r: String)
        ensures
            r@ == self.message_spec(),
    {
        match self {
            StoreError::NotFound => "no feed found".to_string(),
            StoreError::DuplicateIdentifier => "duplicate identifier".to_string(),
            StoreError::ConflictOnWrite => "conflicting write".to_string(),
            StoreError::NoItemFound => "no item found".to_string(),
            StoreError::NoChecksum => "no checksum".to_string(),
            StoreError::BackendUnavailable => "backend unavailable".to_string(),
        }
    }

    pub open spec fn message_spec(&self) -> Seq<char> {
        match self {
            StoreError::NotFound => "no feed found"@,
            StoreError::DuplicateIdentifier => "duplicate identifier"@,
            StoreError::ConflictOnWrite => "conflicting write"@,
            StoreError::NoItemFound => "no item found"@,
            StoreError::NoChecksum => "no checksum"@,
            StoreError::BackendUnavailable => "backend unavailable"@,
        }
    }
}

/// A failed hydration: at least one referenced item could not be resolved
/// through the store, and the feed was left unchanged.
#[derive(Clone, Debug, PartialEq)]
pub enum HydrationError {
    HydrationFailed { missing: Vec<u128> },
}

/// An error produced while resolving the identifier of an update request.
#[derive(Clone, Copy, Debug, PartialEq, Eq, Structural)]
pub enum FeedRouterError {
    /// Neither the request argument nor the model carried an identifier.
    NoUuid,
    /// The request argument and the model carry different identifiers.
    ModelAndArgUuidsDiffer,
}

impl FeedRouterError {
    /// The message text for this request failure.
    pub fn message(&self) -> (r: String)
        ensures
            r@ == self.message_spec(),
    {
        match self {
            FeedRouterError::NoUuid => "no uuid".to_string(),
            FeedRouterError::ModelAndArgUuidsDiffer => (
                "the endpoint argument uuid and the model uuid are not the same".to_string()
            ),
        }
    }

    pub open spec fn message_spec(&self) -> Seq<char> {
        match self {
            FeedRouterError::NoUuid => "no uuid"@,
            FeedRouterError::ModelAndArgUuidsDiffer => (
                "the endpoint argument uuid and the model uuid are not the same"@
            ),
        }
    }
}

/// A rejected textual identifier.
#[derive(Clone, Debug, PartialEq)]
pub enum UuidError {
    UuidNotValid { err: String },
}

/// The failure kinds a service layer reports for whole requests.
#[derive(Clone, Copy, Debug, PartialEq, Eq, Structural)]
pub enum HttpError {
    BadRequest,
    Unauthorized,
    Forbidden,
    NotFound,
    NotAcceptable,
    UnprocessableEntity,
    Ise,
    NotImplemented,
    ServiceUnavailable,
}

impl HttpError {
    /// The message text for this request failure.
    pub fn message(&self) -> (r: String)
        ensures
            r@ == self.message_spec(),
    {
        match self {
            HttpError::BadRequest => "bad request".to_string(),
            HttpError::Unauthorized => "unauthorized".to_string(),
            HttpError::Forbidden => "forbidden".to_string(),
            HttpError::NotFound => "not found".to_string(),
            HttpError::NotAcceptable => "not acceptable".to_string(),
            HttpError::UnprocessableEntity => "unprocessable entity".to_string(),
            HttpError::Ise => "internal server error".to_string(),
            HttpError::NotImplemented => "not implemented".to_string(),
            HttpError::ServiceUnavailable => "service unavailable".to_string(),
        }
    }

    pub open spec fn message_spec(&self) -> Seq<char> {
        match self {
            HttpError::BadRequest => "bad request"@,
            HttpError::Unauthorized => "unauthorized"@,
            HttpError::Forbidden => "forbidden"@,
            HttpError::NotFound => "not found"@,
            HttpError::NotAcceptable => "not acceptable"@,
            HttpError::UnprocessableEntity => "unprocessable entity"@,
            HttpError::Ise => "internal server error"@,
            HttpError::NotImplemented => "not implemented"@,
            HttpError::ServiceUnavailable => "service unavailable"@,
        }
    }
}

/// The error envelope handed to callers of the service layer: the scope in
/// which the failure happened, and its message text.
#[derive(Clone, Debug, PartialEq)]
pub struct Error {
    pub scope: String,
    pub message: String,
}

impl Error {
    /// Create a new error envelope from a scope and a message.
    pub fn new(scope: String, message: String) -> (r: Error)
        ensures
            r.scope@ == scope@,
            r.message@ == message@,
    {
        Error { scope, message }
    }
}

} // verus!
