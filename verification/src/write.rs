use vstd::prelude::*;
use crate::codec::{
    decodable, deserialized, parse_document, parsed, serialize_record, serialized,
};
use crate::errors::ApiError;

verus! {

/// A request to store `data` under `address`.
#[derive(Clone, Debug)]
pub struct SetRequestData {
    pub address: String,
    pub data: String,
}

/// What a `SetRequestData` stands for: the key and the record's text.
pub struct SetRequestView {
    pub address: Seq<char>,
    pub data: Seq<char>,
}

impl View for SetRequestData {
    type V = SetRequestView;

    open spec fn view(&self) -> SetRequestView {
        SetRequestView { address: self.address@, data: self.data@ }
    }
}

/// How far one write has come. Each state but the last two waits for the
/// answer to the one operation that was asked for on entering it.
#[derive(Clone, Copy, Debug, PartialEq, Eq, Structural)]
pub enum WriteState {
    /// Nothing is written yet; the cache write is under way.
    Start,
    /// The cache holds the entry; its expiry is being set.
    CacheWritten,
    /// The expiry was set; the store write is under way.
    ExpirySet,
    /// The expiry could not be set and the entry has none; the store write
    /// is under way all the same.
    ExpirySkipped,
    /// The store holds the record; the filter insert is under way.
    StoreWritten,
    /// The filter knows the key and the caller has its confirmation.
    Done,
    /// The write stopped, for the reason given. Earlier steps stay as they were.
    Failed(ApiError),
}

/// What the caller of the write coordinator is to do next.
#[derive(Debug)]
pub enum WriteAction {
    /// Put `blob` into the cache under `key`.
    WriteCache { key: String, blob: String },
    /// Let the cache entry under `key` expire after `ttl`.
    SetExpiry { key: String, ttl: usize },
    /// Put `value` into the durable store under `key`.
    WriteStore { key: String, value: serde_json::Value },
    /// Add `key` to the existence filter.
    AddToFilter { key: String },
    /// Answer the request with success; the payload is the key.
    Succeed { payload: String },
    /// Answer the request with failure.
    Fail { error: ApiError },
    /// The request was answered before: there is nothing to do.
    Nothing,
}

/// A `WriteAction` with its strings as sequences of characters.
pub enum WriteActionView {
    WriteCache { key: Seq<char>, blob: Seq<char> },
    SetExpiry { key: Seq<char>, ttl: usize },
    WriteStore { key: Seq<char>, value: serde_json::Value },
    AddToFilter { key: Seq<char> },
    Succeed { payload: Seq<char> },
    Fail { error: ApiError },
    Nothing,
}

impl View for WriteAction {
    type V = WriteActionView;

    open spec fn view(&self) -> WriteActionView {
        match *self {
            WriteAction::WriteCache { key, blob } => WriteActionView::WriteCache {
                key: key@,
                blob: blob@,
            },
            WriteAction::SetExpiry { key, ttl } => WriteActionView::SetExpiry { key: key@, ttl },
            WriteAction::WriteStore { key, value } => WriteActionView::WriteStore {
                key: key@,
                value,
            },
            WriteAction::AddToFilter { key } => WriteActionView::AddToFilter { key: key@ },
            WriteAction::Succeed { payload } => WriteActionView::Succeed { payload: payload@ },
            WriteAction::Fail { error } => WriteActionView::Fail { error },
            WriteAction::Nothing => WriteActionView::Nothing,
        }
    }
}

impl WriteState {
    /// Whether the request has been answered.
    pub open spec fn terminal(self) -> bool {
        self is Done || self is Failed
    }

    /// Whether the request has been answered.
    pub fn is_terminal(&self) -> (yes: bool)
        ensures
            yes == self.terminal(),
    {
        match self {
            WriteState::Done => true,
            WriteState::Failed(_) => true,
            _ => false,
        }
    }
}

/// The state a write stops in for `error`, with the answer to give.
pub open spec fn write_failure(error: ApiError) -> (WriteState, WriteActionView) {
    (WriteState::Failed(error), WriteActionView::Fail { error })
}

/// The first action of a write: the cache gets the record in serialised form.
pub open spec fn write_first(req: SetRequestView) -> WriteActionView {
    WriteActionView::WriteCache { key: req.address, blob: serialized(req.data) }
}

/// The step taken once the expiry request was answered with `expiry_ok`,
/// where reading the record as JSON gave `document`. A failed expiry is
/// passed over; a record that is no JSON ends the write before the store is
/// touched.
pub open spec fn after_expiry(
    req: SetRequestView,
    expiry_ok: bool,
    document: Option<serde_json::Value>,
) -> (WriteState, WriteActionView) {
    match document {
        Some(value) => (
            if expiry_ok {
                WriteState::ExpirySet
            } else {
                WriteState::ExpirySkipped
            },
            WriteActionView::WriteStore { key: req.address, value },
        ),
        None => write_failure(ApiError::DataSerializationFailed),
    }
}

/// The write protocol: the state that follows `state` when the operation it
/// waits for was answered with `ok`, and what to do then.
pub open spec fn write_next(req: SetRequestView, ttl: usize, state: WriteState, ok: bool) -> (
    WriteState,
    WriteActionView,
) {
    match state {
        WriteState::Start => if ok {
            (WriteState::CacheWritten, WriteActionView::SetExpiry { key: req.address, ttl })
        } else {
            write_failure(ApiError::CacheInsertionFailed)
        },
        WriteState::CacheWritten => after_expiry(req, ok, parsed(req.data)),
        WriteState::ExpirySet | WriteState::ExpirySkipped => if ok {
            (WriteState::StoreWritten, WriteActionView::AddToFilter { key: req.address })
        } else {
            write_failure(ApiError::DBInsertionFailed)
        },
        WriteState::StoreWritten => if ok {
            (WriteState::Done, WriteActionView::Succeed { payload: req.address })
        } else {
            write_failure(ApiError::CuckooFilterInsertionFailed)
        },
        WriteState::Done | WriteState::Failed(_) => (state, WriteActionView::Nothing),
    }
}

fn fail_write(error: ApiError) -> (res: (WriteState, WriteAction))
    ensures
        res.0 == write_failure(error).0,
        res.1@ == write_failure(error).1,
{
    (WriteState::Failed(error), WriteAction::Fail { error })
}

/// The first step of a write, given the record in serialised form: the state
/// is `WriteState::Start`, and the action puts `blob` into the cache under the
/// request's key.
pub fn cache_entry(req: &SetRequestData, blob: String) -> (res: (WriteState, WriteAction))
    ensures
        res.0 == WriteState::Start,
        res.1@ == (WriteActionView::WriteCache { key: req.address@, blob: blob@ }),
{
    (WriteState::Start, WriteAction::WriteCache { key: req.address.clone(), blob })
}

/// Opens a write: the state is `WriteState::Start`, and the action returned
/// asks for the cache write. The blob that it carries can be decoded, and
/// decoding it gives the record back.
pub fn write_begin(req: &SetRequestData) -> (res: (WriteState, WriteAction))
    ensures
        res.0 == WriteState::Start,
        res.1@ == write_first(req@),
        decodable(serialized(req@.data)),
        deserialized(serialized(req@.data)) == req@.data,
{
    cache_entry(req, serialize_record(&req.data))
}

/// The step after the expiry request, given what reading the record as JSON
/// returned.
pub fn store_or_reject(
    req: &SetRequestData,
    expiry_ok: bool,
    document: Result<serde_json::Value, serde_json::Error>,
) -> (res: (WriteState, WriteAction))
    ensures
        res.0 == after_expiry(req@, expiry_ok, document.ok()).0,
        res.1@ == after_expiry(req@, expiry_ok, document.ok()).1,
{
    match document {
        Ok(value) => {
            let state = if expiry_ok {
                WriteState::ExpirySet
            } else {
                WriteState::ExpirySkipped
            };
            (state, WriteAction::WriteStore { key: req.address.clone(), value })
        },
        Err(_) => fail_write(ApiError::DataSerializationFailed),
    }
}

/// Advances a write by one answer: `ok` says whether the operation that
/// `state` waits for succeeded. A state that waits for nothing stays.
pub fn set_data_handler(
    payload: &SetRequestData,
    cache_ttl: usize,
    state: WriteState,
    ok: bool,
) -> (res: (WriteState, WriteAction))
    ensures
        res.0 == write_next(payload@, cache_ttl, state, ok).0,
        res.1@ == write_next(payload@, cache_ttl, state, ok).1,
{
    match state {
        WriteState::Start => {
            if ok {
                (WriteState::CacheWritten, WriteAction::SetExpiry { key: payload.address.clone(), ttl: cache_ttl })
            } else {
                fail_write(ApiError::CacheInsertionFailed)
            }
        },
        WriteState::CacheWritten => {
            let document = parse_document(payload.data.as_str());
            store_or_reject(payload, ok, document)
        },
        WriteState::ExpirySet | WriteState::ExpirySkipped => {
            if ok {
                (WriteState::StoreWritten, WriteAction::AddToFilter { key: payload.address.clone() })
            } else {
                fail_write(ApiError::DBInsertionFailed)
            }
        },
        WriteState::StoreWritten => {
            if ok {
                (WriteState::Done, WriteAction::Succeed { payload: payload.address.clone() })
            } else {
                fail_write(ApiError::CuckooFilterInsertionFailed)
            }
        },
        WriteState::Done | WriteState::Failed(_) => (state, WriteAction::Nothing),
    }
}

} // verus!
