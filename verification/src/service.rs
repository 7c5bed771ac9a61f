use vstd::prelude::*;
use vstd::string::StringExecFns;

use crate::errors::{Error, FeedRouterError, HttpError, UuidError, ValidationError};
use crate::ids::{check_uuid, uuid_parse_of};
use crate::model::{first_missing, Feed};

verus! {

/// Check a feed model used by the create and update operations of a
/// service: every required content field must be present and non-empty, the
/// first missing one is reported.
pub fn check_feed_model(model: &Feed) -> (r: Result<(), ValidationError>)
    ensures
        match r {
            Ok(()) => first_missing(model@) is None,
            Err(e) => first_missing(model@) == Option::Some(e),
        },
{
    match &model.title {
        Some(t) => {
            if t.as_str().is_empty() {
                return Err(ValidationError::MissingTitle);
            }
        },
        None => {
            return Err(ValidationError::MissingTitle);
        },
    }
    match &model.description {
        Some(d) => {
            if d.as_str().is_empty() {
                return Err(ValidationError::MissingDescription);
            }
        },
        None => {
            return Err(ValidationError::MissingDescription);
        },
    }
    match &model.link {
        Some(l) => {
            if l.as_str().is_empty() {
                return Err(ValidationError::MissingLink);
            }
        },
        None => {
            return Err(ValidationError::MissingLink);
        },
    }
    Ok(())
}

/// Resolve the identifier that an update request is about, from the
/// request's own argument and the identifier embedded in the model. Both
/// absent is a failure; both present and different is always a failure —
/// disagreement is never resolved by silently preferring one side.
pub fn resolve_update_uuid(arg_uuid: Option<u128>, model_uuid: Option<u128>) -> (r: Result<
    u128,
    FeedRouterError,
>)
    ensures
        match r {
            Ok(id) => match (arg_uuid, model_uuid) {
                (Option::Some(a), Option::Some(m)) => a == m && id == a,
                (Option::Some(a), Option::None) => id == a,
                (Option::None, Option::Some(m)) => id == m,
                (Option::None, Option::None) => false,
            },
            Err(e) => match (arg_uuid, model_uuid) {
                (Option::Some(a), Option::Some(m)) => a != m && e
                    == FeedRouterError::ModelAndArgUuidsDiffer,
                (Option::None, Option::None) => e == FeedRouterError::NoUuid,
                _ => false,
            },
        },
{
    match (arg_uuid, model_uuid) {
        (Some(a), Some(m)) => {
            if a == m {
                Ok(a)
            } else {
                Err(FeedRouterError::ModelAndArgUuidsDiffer)
            }
        },
        (Some(a), None) => Ok(a),
        (None, Some(m)) => Ok(m),
        (None, None) => Err(FeedRouterError::NoUuid),
    }
}

/// Validate a list of textual identifiers for a filtered item query. All of
/// them must parse; the first rejected one fails the whole request.
pub fn check_uuids(uuids: &Vec<String>) -> (r: Result<Vec<u128>, UuidError>)
    ensures
        match r {
            Ok(ids) => ids@.len() == uuids@.len() && forall|i: int|
                0 <= i < ids@.len() ==> uuid_parse_of(uuids@[i]@) == Option::Some(
                    #[trigger] ids@[i],
                ),
            Err(e) => exists|i: int|
                0 <= i < uuids@.len() && uuid_parse_of((#[trigger] uuids@[i])@) is None && (
                e matches UuidError::UuidNotValid { err } && err@ == uuids@[i]@),
        },
{
    let mut ids: Vec<u128> = Vec::new();
    let mut i: usize = 0;
    while i < uuids.len()
        invariant
            i <= uuids.len(),
            ids@.len() == i,
            forall|j: int|
                0 <= j < i ==> uuid_parse_of(uuids@[j]@) == Option::Some(#[trigger] ids@[j]),
        decreases uuids.len() - i,
    {
        match check_uuid(uuids[i].as_str()) {
            Ok(id) => {
                ids.push(id);
            },
            Err(e) => {
                return Err(e);
            },
        }
        i = i + 1;
    }
    Ok(ids)
}

/// Build the error envelope that a service hands out for a failed request,
/// from the scope it failed in and the failure's message.
pub fn catcher_error(scope: &str, kind: HttpError) -> (r: Error)
    ensures
        r.scope@ == scope@,
        r.message@ == kind.message_spec(),
{
    Error::new(String::from_str(scope), kind.message())
}

/// A counter of the requests a service has seen.
pub struct RequestCounter {
    count: u64,
}

impl RequestCounter {
    /// A counter that has seen no requests.
    pub fn new() -> (r: RequestCounter)
        ensures
            r.count() == 0,
    {
        RequestCounter { count: 0 }
    }

    /// The number of requests seen so far.
    pub closed spec fn count(&self) -> u64 {
        self.count
    }

    /// Record one request. The counter saturates rather than wrapping.
    pub fn on_request(&mut self)
        ensures
            old(self).count() < u64::MAX ==> final(self).count() == old(self).count() + 1,
            old(self).count() == u64::MAX ==> final(self).count() == old(self).count(),
    {
        if self.count < u64::MAX {
            self.count = self.count + 1;
        }
    }

    /// Read the counter.
    pub fn get(&self) -> (r: u64)
        ensures
            r == self.count(),
    {
        self.count
    }
}

} // verus!
