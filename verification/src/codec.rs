use vstd::prelude::*;

verus! {

/// `serde_json::Value`: a parsed JSON document, carried to the store unread.
#[verifier::external_type_specification]
#[verifier::external_body]
pub struct ExJsonValue(serde_json::Value);

/// `serde_json::Error`: why a text is no JSON. Nothing is read from it.
#[verifier::external_type_specification]
#[verifier::external_body]
pub struct ExJsonError(serde_json::Error);

/// The blob under which a record with the text `data` is cached: what
/// `valence_core::utils::serialize_data` gives for a `String`.
pub uninterp spec fn serialized(data: Seq<char>) -> Seq<char>;

/// The structured value that `serde_json::from_str` reads out of `text`, if
/// `text` is well-formed JSON.
pub uninterp spec fn parsed(text: Seq<char>) -> Option<serde_json::Value>;

/// Whether `serde_json::from_str` reads `blob` as one JSON string.
pub uninterp spec fn decodable(blob: Seq<char>) -> bool;

/// The record that `valence_core::utils::deserialize_data` gives back for a
/// decodable `blob`.
pub uninterp spec fn deserialized(blob: Seq<char>) -> Seq<char>;

/// Calls `valence_core::utils::serialize_data` on a `String`, which writes it
/// as one JSON string with `serde_json::to_string`. The contract claims that
/// the blob is a function of the record's text, and that reading the blob as
/// a JSON string gives that text back: the writer escapes the quote, the
/// backslash and the control characters, and the reader undoes just these.
#[verifier::external_body]
pub(crate) fn serialize_record(data: &String) -> (blob: String)
    ensures
        blob@ == serialized(data@),
        decodable(blob@),
        deserialized(blob@) == data@,
{
    valence_core::utils::serialize_data(data)
}

/// Calls `serde_json::from_str` for a `serde_json::Value`. The contract claims
/// that success and the value read depend on the text alone.
#[verifier::external_body]
pub(crate) fn parse_document(text: &str) -> (res: Result<serde_json::Value, serde_json::Error>)
    ensures
        res matches Ok(value) ==> parsed(text@) == Some(value),
        res is Err ==> parsed(text@) is None,
{
    serde_json::from_str::<serde_json::Value>(text)
}

/// Calls `serde_json::from_str` for a `String` and keeps only whether it
/// succeeded. The contract claims that this depends on the blob alone.
#[verifier::external_body]
pub(crate) fn can_decode(blob: &str) -> (yes: bool)
    ensures
        yes == decodable(blob@),
{
    serde_json::from_str::<String>(blob).is_ok()
}

/// Calls `valence_core::utils::deserialize_data` for a `String`. That function
/// parses the blob as a JSON string and panics where this fails, so the
/// contract admits decodable blobs only, and claims that the record is a
/// function of the blob.
#[verifier::external_body]
pub(crate) fn deserialize_record(blob: String) -> (data: String)
    requires
        decodable(blob@),
    ensures
        data@ == deserialized(blob@),
{
    valence_core::utils::deserialize_data::<String>(blob)
}

} // verus!
