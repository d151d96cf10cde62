use vstd::prelude::*;
use crate::errors::ApiError;
use crate::read::{ReadAction, ReadActionView};
use crate::write::{WriteAction, WriteActionView};
use valence_core::api::errors::ApiErrorType;
use valence_core::api::responses::{json_serialize_embed, CallResponse, JsonReply};

verus! {

/// `valence_core::api::responses::JsonReply`: a response body with its status
/// code, handed to the transport unread.
#[verifier::external_type_specification]
#[verifier::external_body]
pub struct ExJsonReply(valence_core::api::responses::JsonReply);

/// A response: the reply to send, on the side that says whether the request
/// succeeded.
pub type Response = Result<JsonReply, JsonReply>;

/// The reply whose body is `text` written as one JSON string: what
/// `valence_core::api::responses::json_serialize_embed` gives for a `String`.
pub uninterp spec fn embedded(text: Seq<char>) -> JsonReply;

/// The success envelope that `CallResponse::into_ok` builds on `route` around
/// `content`, with `reason` as its message.
pub uninterp spec fn success_envelope(
    route: Seq<char>,
    reason: Seq<char>,
    content: JsonReply,
) -> JsonReply;

/// The error envelope that `CallResponse::into_err_internal` builds on `route`
/// for `error`.
pub uninterp spec fn failure_envelope(
    route: Seq<char>,
    error: ApiError,
) -> JsonReply;

/// Calls `valence_core::api::responses::json_serialize_embed` on a `String`.
/// The contract claims only that the reply is a function of the text.
#[verifier::external_body]
fn embed(text: String) -> (reply: JsonReply)
    ensures
        reply == embedded(text@),
{
    json_serialize_embed(text)
}

/// Calls `CallResponse::into_ok` of `valence_core::api::responses` on a
/// response for `route`. The contract claims that the result is always `Ok`,
/// as the source shows, and that the envelope is a function of the arguments.
#[verifier::external_body]
fn succeed(route: &str, reason: &str, content: JsonReply) -> (res: Response)
    ensures
        res == Response::Ok(success_envelope(route@, reason@, content)),
{
    CallResponse::new(route).into_ok(reason, content)
}

/// Calls `CallResponse::into_err_internal` of `valence_core::api::responses` on
/// a response for `route`, with the error kind of the same name. The contract
/// claims that the result is always `Err`, as the source shows, and that the
/// envelope is a function of the arguments.
#[verifier::external_body]
fn fail(route: &str, error: ApiError) -> (res: Response)
    ensures
        res == Response::Err(failure_envelope(route@, error)),
{
    let kind = match error {
        ApiError::CuckooFilterLookupFailed => ApiErrorType::CuckooFilterLookupFailed,
        ApiError::CuckooFilterInsertionFailed => ApiErrorType::CuckooFilterInsertionFailed,
        ApiError::CacheInsertionFailed => ApiErrorType::CacheInsertionFailed,
        ApiError::DBInsertionFailed => ApiErrorType::DBInsertionFailed,
        ApiError::DataSerializationFailed => ApiErrorType::DataSerializationFailed,
    };
    CallResponse::new(route).into_err_internal(kind)
}

/// The response to a read that ended with `action`; `None` for an action that
/// ends nothing.
pub open spec fn get_data_response(action: ReadActionView) -> Option<Response> {
    match action {
        ReadActionView::Succeed { record } => Some(
            Ok(success_envelope("get_data"@, "Data retrieved successfully"@, embedded(record))),
        ),
        ReadActionView::Fail { error } => Some(Err(failure_envelope("get_data"@, error))),
        _ => None,
    }
}

/// The response to a write that ended with `action`; `None` for an action
/// that ends nothing.
pub open spec fn set_data_response(action: WriteActionView) -> Option<Response> {
    match action {
        WriteActionView::Succeed { payload } => Some(
            Ok(success_envelope("set_data"@, "Data set succcessfully"@, embedded(payload))),
        ),
        WriteActionView::Fail { error } => Some(Err(failure_envelope("set_data"@, error))),
        _ => None,
    }
}

/// Builds the response to a read from the action that ended it.
pub fn get_data_reply(action: ReadAction) -> (res: Option<Response>)
    ensures
        res == get_data_response(action@),
{
    match action {
        ReadAction::Succeed { record } => Some(
            succeed("get_data", "Data retrieved successfully", embed(record)),
        ),
        ReadAction::Fail { error } => Some(fail("get_data", error)),
        _ => None,
    }
}

/// Builds the response to a write from the action that ended it.
pub fn set_data_reply(action: WriteAction) -> (res: Option<Response>)
    ensures
        res == set_data_response(action@),
{
    match action {
        WriteAction::Succeed { payload } => Some(
            succeed("set_data", "Data set succcessfully", embed(payload)),
        ),
        WriteAction::Fail { error } => Some(fail("set_data", error)),
        _ => None,
    }
}

} // verus!
