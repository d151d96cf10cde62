use vstd::prelude::*;
use crate::codec::{can_decode, decodable, deserialize_record, deserialized};
use crate::errors::ApiError;

verus! {

/// What the cache or the durable store answered to a lookup.
#[derive(Clone, Debug)]
pub enum Lookup {
    /// The backend holds this blob under the key.
    Found(String),
    /// The backend answered, and holds no value under the key.
    Empty,
    /// The lookup failed; a key that the backend does not know counts here.
    Failed,
}

/// A `Lookup` with its blob as a sequence of characters.
pub enum LookupView {
    Found(Seq<char>),
    Empty,
    Failed,
}

impl View for Lookup {
    type V = LookupView;

    open spec fn view(&self) -> LookupView {
        match *self {
            Lookup::Found(blob) => LookupView::Found(blob@),
            Lookup::Empty => LookupView::Empty,
            Lookup::Failed => LookupView::Failed,
        }
    }
}

/// An answer handed back to the read coordinator.
#[derive(Clone, Debug)]
pub enum ReadAnswer {
    /// Whether the existence filter contains the key.
    Filter(bool),
    /// What the cache, or the store, found under the key.
    Backend(Lookup),
}

/// A `ReadAnswer` with its blob as a sequence of characters.
pub enum ReadAnswerView {
    Filter(bool),
    Backend(LookupView),
}

impl View for ReadAnswer {
    type V = ReadAnswerView;

    open spec fn view(&self) -> ReadAnswerView {
        match *self {
            ReadAnswer::Filter(contains) => ReadAnswerView::Filter(contains),
            ReadAnswer::Backend(lookup) => ReadAnswerView::Backend(lookup@),
        }
    }
}

/// How far one read has come.
#[derive(Clone, Copy, Debug, PartialEq, Eq, Structural)]
pub enum ReadState {
    /// The filter is being asked.
    Start,
    /// The filter knows the key; the cache is being asked.
    FilterPassed,
    /// The cache gave nothing; the store is being asked.
    CacheMissed,
    /// The record was returned.
    Done,
    /// The read stopped, for the reason given.
    Failed(ApiError),
}

/// What the caller of the read coordinator is to do next.
#[derive(Clone, Debug)]
pub enum ReadAction {
    /// Ask the existence filter whether it contains `key`.
    CheckFilter { key: String },
    /// Look `key` up in the cache.
    QueryCache { key: String },
    /// Look `key` up in the durable store.
    QueryStore { key: String },
    /// Answer the request with `record`.
    Succeed { record: String },
    /// Answer the request with failure.
    Fail { error: ApiError },
    /// The answer was not awaited: there is nothing to do.
    Nothing,
}

/// A `ReadAction` with its strings as sequences of characters.
pub enum ReadActionView {
    CheckFilter { key: Seq<char> },
    QueryCache { key: Seq<char> },
    QueryStore { key: Seq<char> },
    Succeed { record: Seq<char> },
    Fail { error: ApiError },
    Nothing,
}

impl View for ReadAction {
    type V = ReadActionView;

    open spec fn view(&self) -> ReadActionView {
        match *self {
            ReadAction::CheckFilter { key } => ReadActionView::CheckFilter { key: key@ },
            ReadAction::QueryCache { key } => ReadActionView::QueryCache { key: key@ },
            ReadAction::QueryStore { key } => ReadActionView::QueryStore { key: key@ },
            ReadAction::Succeed { record } => ReadActionView::Succeed { record: record@ },
            ReadAction::Fail { error } => ReadActionView::Fail { error },
            ReadAction::Nothing => ReadActionView::Nothing,
        }
    }
}

impl ReadState {
    /// Whether the request has been answered.
    pub open spec fn terminal(self) -> bool {
        self is Done || self is Failed
    }

    /// Whether the request has been answered.
    pub fn is_terminal(&self) -> (yes: bool)
        ensures
            yes == self.terminal(),
    {
        match self {
            ReadState::Done => true,
            ReadState::Failed(_) => true,
            _ => false,
        }
    }
}

/// The state a read stops in for `error`, with the answer to give.
pub open spec fn read_failure(error: ApiError) -> (ReadState, ReadActionView) {
    (ReadState::Failed(error), ReadActionView::Fail { error })
}

/// The state a read ends in when it returns `record`, with the answer to give.
pub open spec fn read_success(record: Seq<char>) -> (ReadState, ReadActionView) {
    (ReadState::Done, ReadActionView::Succeed { record })
}

/// The answers on which a step is defined: a blob that is looked at must be
/// in serialised form, that is, one that can be decoded. Every other answer
/// is admitted.
pub open spec fn read_admits(state: ReadState, answer: ReadAnswerView) -> bool {
    match (state, answer) {
        (ReadState::FilterPassed, ReadAnswerView::Backend(LookupView::Found(blob))) => {
            decodable(blob)
        },
        (ReadState::CacheMissed, ReadAnswerView::Backend(LookupView::Found(blob))) => {
            decodable(blob)
        },
        _ => true,
    }
}

/// The read protocol: the state that follows `state` on `answer`, and what to
/// do then. An empty cache entry is an answer, the empty record. The store is
/// the authority: where it answers that it holds no value, as it may for a key
/// that the filter took for known by mistake, there is no record to return
/// and the read fails with `DBInsertionFailed`, as it does where the store's
/// lookup fails. An answer of the wrong kind for `state` is passed over.
pub open spec fn read_next(key: Seq<char>, state: ReadState, answer: ReadAnswerView) -> (
    ReadState,
    ReadActionView,
) {
    match (state, answer) {
        (ReadState::Start, ReadAnswerView::Filter(contains)) => if contains {
            (ReadState::FilterPassed, ReadActionView::QueryCache { key })
        } else {
            read_failure(ApiError::CuckooFilterLookupFailed)
        },
        (ReadState::FilterPassed, ReadAnswerView::Backend(lookup)) => match lookup {
            LookupView::Found(blob) => read_success(deserialized(blob)),
            LookupView::Empty => read_success(Seq::empty()),
            LookupView::Failed => (ReadState::CacheMissed, ReadActionView::QueryStore { key }),
        },
        (ReadState::CacheMissed, ReadAnswerView::Backend(LookupView::Found(blob))) => {
            read_success(deserialized(blob))
        },
        (ReadState::CacheMissed, ReadAnswerView::Backend(LookupView::Empty))
        | (ReadState::CacheMissed, ReadAnswerView::Backend(LookupView::Failed)) => {
            read_failure(ApiError::DBInsertionFailed)
        },
        _ => (state, ReadActionView::Nothing),
    }
}

fn fail_read(error: ApiError) -> (res: (ReadState, ReadAction))
    ensures
        res.0 == read_failure(error).0,
        res.1@ == read_failure(error).1,
{
    (ReadState::Failed(error), ReadAction::Fail { error })
}

/// Ends a read with the record that was decoded.
pub fn deliver(record: String) -> (res: (ReadState, ReadAction))
    ensures
        res.0 == read_success(record@).0,
        res.1@ == read_success(record@).1,
{
    (ReadState::Done, ReadAction::Succeed { record })
}

/// Opens a read: the state is `ReadState::Start`, and the action returned asks
/// the filter for `key`.
pub fn read_begin(key: &str) -> (res: (ReadState, ReadAction))
    ensures
        res.0 == ReadState::Start,
        res.1@ == (ReadActionView::CheckFilter { key: key@ }),
{
    (ReadState::Start, ReadAction::CheckFilter { key: key.to_owned() })
}

/// Advances a read by one answer that `read_admits`: `answer` is what the
/// layer said that the action before asked.
pub fn get_data_handler(key: &str, state: ReadState, answer: ReadAnswer) -> (res: (ReadState, ReadAction))
    requires
        read_admits(state, answer@),
    ensures
        res.0 == read_next(key@, state, answer@).0,
        res.1@ == read_next(key@, state, answer@).1,
{
    match (state, answer) {
        (ReadState::Start, ReadAnswer::Filter(contains)) => {
            if contains {
                (ReadState::FilterPassed, ReadAction::QueryCache { key: key.to_owned() })
            } else {
                fail_read(ApiError::CuckooFilterLookupFailed)
            }
        },
        (ReadState::FilterPassed, ReadAnswer::Backend(lookup)) => {
            match lookup {
                Lookup::Found(blob) => deliver(deserialize_record(blob)),
                Lookup::Empty => deliver(String::new()),
                Lookup::Failed => (
                    ReadState::CacheMissed,
                    ReadAction::QueryStore { key: key.to_owned() },
                ),
            }
        },
        (ReadState::CacheMissed, ReadAnswer::Backend(Lookup::Found(blob))) => {
            deliver(deserialize_record(blob))
        },
        (ReadState::CacheMissed, ReadAnswer::Backend(Lookup::Empty))
        | (ReadState::CacheMissed, ReadAnswer::Backend(Lookup::Failed)) => {
            fail_read(ApiError::DBInsertionFailed)
        },
        (state, _) => (state, ReadAction::Nothing),
    }
}

/// Whether a step is defined on `answer` in `state`.
pub fn admits(state: ReadState, answer: &ReadAnswer) -> (yes: bool)
    ensures
        yes == read_admits(state, answer@),
{
    match (state, answer) {
        (ReadState::FilterPassed, ReadAnswer::Backend(Lookup::Found(blob))) => {
            can_decode(blob.as_str())
        },
        (ReadState::CacheMissed, ReadAnswer::Backend(Lookup::Found(blob))) => {
            can_decode(blob.as_str())
        },
        _ => true,
    }
}

/// Advances a read by one answer where a step is defined on it, and returns
/// `None` where it is not.
pub fn try_get_data_handler(key: &str, state: ReadState, answer: ReadAnswer) -> (res: Option<(ReadState, ReadAction)>)
    ensures
        res is Some <==> read_admits(state, answer@),
        res matches Some(next) ==> next.0 == read_next(key@, state, answer@).0,
        res matches Some(next) ==> next.1@ == read_next(key@, state, answer@).1,
{
    if admits(state, &answer) {
        Some(get_data_handler(key, state, answer))
    } else {
        None
    }
}

} // verus!
