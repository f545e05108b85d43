//! The two calls the engine makes into the platform: a fresh identifier for a
//! new document, and the current time as text.  Nothing is assumed of either
//! result: every contract downstream holds for whatever value came back.

use vstd::prelude::*;

verus! {

/// Relies on `uuid::Uuid::new_v4` and its `Display` form: a freshly drawn
/// random identifier, rendered as hyphenated text.  The value is random, so
/// nothing is assumed of it.
#[verifier::external_body]
pub(crate) fn fresh_document_id() -> String {
    uuid::Uuid::new_v4().to_string()
}

/// Relies on `chrono::Utc::now` and `DateTime::to_rfc3339`: the current wall
/// clock, rendered as RFC 3339 text.  The value depends on the clock, so
/// nothing is assumed of it.
#[verifier::external_body]
pub(crate) fn now_rfc3339() -> String {
    chrono::Utc::now().to_rfc3339()
}

} // verus!
