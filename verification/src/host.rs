use vstd::prelude::*;

verus! {

/// The number of characters in an id that `fresh_id` hands out.
pub const ID_LENGTH: usize = 36;

/// `uuid::Uuid::new_v4`, written out by its `Display`: a random version-4
/// UUID in the hyphenated lower-case form, which is always 36 characters
/// long. Which id comes out is left open.
#[verifier::external_body]
pub(crate) fn fresh_id() -> (id: String)
    ensures
        id@.len() == ID_LENGTH,
{
    uuid::Uuid::new_v4().to_string()
}

/// `chrono::Utc::now`, written out by `DateTime::to_rfc3339`: the system
/// clock's time as text. Nothing is claimed of the text.
#[verifier::external_body]
pub(crate) fn timestamp_now() -> (now: String) {
    chrono::Utc::now().to_rfc3339()
}

} // verus!
