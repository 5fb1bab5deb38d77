//! The attempt timestamp: the wall clock read and formatted as
//! RFC 3339 text.
//!
//! Nothing is assumed of the clock's value: every function that takes
//! a timestamp is verified for whatever bytes came back.

use vstd::prelude::*;

verus! {

#[verifier::external_type_specification]
#[verifier::external_body]
pub struct ExOffsetDateTime(time::OffsetDateTime);

/// Relies on `time::OffsetDateTime::now_utc`: the current instant in
/// UTC; nothing is assumed of its value.
#[verifier::external_body]
pub(crate) fn now_utc() -> time::OffsetDateTime {
    time::OffsetDateTime::now_utc()
}

/// Relies on `time::OffsetDateTime::format` with the RFC 3339
/// well-known description: the instant as RFC 3339 text, handed back
/// as its UTF-8 bytes, or `None` where the instant cannot be so
/// formatted. Nothing is assumed of the bytes.
#[verifier::external_body]
pub(crate) fn format_rfc3339(t: time::OffsetDateTime) -> Option<Vec<u8>> {
    match t.format(&time::format_description::well_known::Rfc3339) {
        Ok(s) => Some(s.into_bytes()),
        Err(_) => None,
    }
}

} // verus!
