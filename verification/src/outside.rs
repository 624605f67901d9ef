//! The two things the library takes from its surroundings: the time of day
//! and fresh random identifiers.

use crate::models::Timestamp;
use vstd::prelude::*;

verus! {

/// A universally unique identifier, as the `uuid` crate holds it.
#[verifier::external_type_specification]
#[verifier::external_body]
pub struct ExUuid(uuid::Uuid);

/// Trusted: `time::OffsetDateTime::now_utc`, read through `unix_timestamp`,
/// `nanosecond` and `offset`. The instant itself is whatever the clock says.
/// What holds of every reading: it is taken at the UTC offset, and the
/// sub-second part is below one second.
#[verifier::external_body]
pub(crate) fn clock_now() -> (now: Timestamp)
    ensures
        now.offset_seconds == 0,
        now.nanos < 1_000_000_000,
{
    let now = time::OffsetDateTime::now_utc();
    Timestamp {
        seconds: now.unix_timestamp(),
        nanos: now.nanosecond(),
        offset_seconds: now.offset().whole_seconds(),
    }
}

/// Trusted: `uuid::Uuid::new_v4`. The value is random; nothing is claimed of
/// it.
#[verifier::external_body]
pub(crate) fn fresh_uuid() -> uuid::Uuid {
    uuid::Uuid::new_v4()
}

/// Trusted: `uuid::Uuid::hyphenated`, written out: the identifier in groups
/// of hexadecimal digits with hyphens between them. Nothing is claimed of the
/// text.
#[verifier::external_body]
pub(crate) fn hyphenated(id: &uuid::Uuid) -> String {
    id.hyphenated().to_string()
}

/// Trusted: `uuid::Uuid::simple`, written out: the identifier as hexadecimal
/// digits without hyphens. Nothing is claimed of the text.
#[verifier::external_body]
pub(crate) fn simple(id: &uuid::Uuid) -> String {
    id.simple().to_string()
}

/// A fresh random identifier, in its hyphenated form.
pub(crate) fn random_uuid() -> String {
    let id = fresh_uuid();
    hyphenated(&id)
}

/// A fresh random identifier, in its simple form.
pub(crate) fn random_uuid_simple() -> String {
    let id = fresh_uuid();
    simple(&id)
}

} // verus!
