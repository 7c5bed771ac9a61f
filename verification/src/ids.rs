use vstd::prelude::*;
use crate::errors::UuidError;

verus! {

/// Relies on uuid's Uuid::new_v4: the version field of the fresh identifier
/// is always set to 4, so its 128 bits are never all zero; Uuid::as_u128
/// returns those bits.
#[verifier::external_body]
pub(crate) fn fresh_uuid() -> (r: u128)
    ensures
        r != 0,
{
    uuid::Uuid::new_v4().as_u128()
}

/// The value encoded by a textual identifier, if the text is one of the
/// accepted identifier formats.
pub uninterp spec fn uuid_parse_of(s: Seq<char>) -> Option<u128>;

/// Relies on uuid's Uuid::parse_str, a deterministic function of the input
/// characters; Uuid::as_u128 returns the parsed value's bits.
#[verifier::external_body]
pub(crate) fn parse_uuid(s: &str) -> (r: Option<u128>)
    ensures
        r == uuid_parse_of(s@),
{
    match uuid::Uuid::parse_str(s) {
        Ok(u) => Some(u.as_u128()),
        Err(_) => None,
    }
}

/// Validate a textual identifier, returning its value or the rejected text.
pub fn check_uuid(uuid: &str) -> (r: Result<u128, UuidError>)
    ensures
        match r {
            Ok(id) => uuid_parse_of(uuid@) == Some(id),
            Err(e) => uuid_parse_of(uuid@) is None && (e matches UuidError::UuidNotValid {
                err,
            } && err@ == uuid@),
        },
{
    match parse_uuid(uuid) {
        Some(id) => Ok(id),
        None => Err(UuidError::UuidNotValid { err: uuid.to_string() }),
    }
}

} // verus!
