use vstd::prelude::*;
use crate::codec::{decodable, deserialized, parsed, serialized};
use crate::errors::ApiError;
use crate::read::{
    read_admits, read_next, LookupView, ReadActionView, ReadAnswerView, ReadState,
};
use crate::write::{write_first, write_next, SetRequestView, WriteActionView, WriteState};

verus! {

/// What the three layers hold, as far as a write changes it.
pub struct Layers {
    /// The keys that were added to the existence filter.
    pub filter: Set<Seq<char>>,
    /// The blob that the cache holds under each key.
    pub cache: Map<Seq<char>, Seq<char>>,
    /// The time to live that was last set for each cache entry.
    pub expiry: Map<Seq<char>, usize>,
    /// The value that the durable store holds under each key.
    pub store: Map<Seq<char>, serde_json::Value>,
}

/// Which of the four operations of a write the layers carry out.
pub struct Outcomes {
    pub cache_ok: bool,
    pub expiry_ok: bool,
    pub store_ok: bool,
    pub filter_ok: bool,
}

/// A write under way, or ended: its state, the action last handed out, the
/// layers as they stand, and the operations that were asked of them so far.
pub struct WriteRun {
    pub state: WriteState,
    pub last: WriteActionView,
    pub layers: Layers,
    pub asked: Seq<WriteActionView>,
}

/// Whether the layers carry out the operation that `action` asks for.
pub open spec fn outcome_of(outcomes: Outcomes, action: WriteActionView) -> bool {
    match action {
        WriteActionView::WriteCache { .. } => outcomes.cache_ok,
        WriteActionView::SetExpiry { .. } => outcomes.expiry_ok,
        WriteActionView::WriteStore { .. } => outcomes.store_ok,
        WriteActionView::AddToFilter { .. } => outcomes.filter_ok,
        _ => false,
    }
}

/// The layers after `action` was asked of them: changed as the action says
/// where it was carried out (`ok`), and as they were where it failed.
pub open spec fn perform(layers: Layers, action: WriteActionView, ok: bool) -> Layers {
    if !ok {
        layers
    } else {
        match action {
            WriteActionView::WriteCache { key, blob } => Layers {
                cache: layers.cache.insert(key, blob),
                ..layers
            },
            WriteActionView::SetExpiry { key, ttl } => Layers {
                expiry: layers.expiry.insert(key, ttl),
                ..layers
            },
            WriteActionView::WriteStore { key, value } => Layers {
                store: layers.store.insert(key, value),
                ..layers
            },
            WriteActionView::AddToFilter { key } => Layers {
                filter: layers.filter.insert(key),
                ..layers
            },
            _ => layers,
        }
    }
}

/// One round of a write: the pending action is asked of the layers and the
/// protocol takes its step on the answer. A write that has ended stays.
pub open spec fn write_round(
    req: SetRequestView,
    ttl: usize,
    outcomes: Outcomes,
    run: WriteRun,
) -> WriteRun {
    if run.state.terminal() {
        run
    } else {
        let ok = outcome_of(outcomes, run.last);
        let next = write_next(req, ttl, run.state, ok);
        WriteRun {
            state: next.0,
            last: next.1,
            layers: perform(run.layers, run.last, ok),
            asked: run.asked.push(run.last),
        }
    }
}

/// A write of `req` on `layers` as it begins: the cache write is pending and
/// nothing was asked yet.
pub open spec fn write_opening(req: SetRequestView, layers: Layers) -> WriteRun {
    WriteRun { state: WriteState::Start, last: write_first(req), layers, asked: Seq::empty() }
}

/// A whole write of `req` on `layers`: the opening, then four rounds, which
/// is as many as a write can take.
pub open spec fn write_run(
    req: SetRequestView,
    ttl: usize,
    outcomes: Outcomes,
    layers: Layers,
) -> WriteRun {
    let first = write_round(req, ttl, outcomes, write_opening(req, layers));
    let second = write_round(req, ttl, outcomes, first);
    let third = write_round(req, ttl, outcomes, second);
    write_round(req, ttl, outcomes, third)
}

/// What the three layers answer to a read.
pub struct Sources {
    /// The keys that the existence filter contains.
    pub filter: Set<Seq<char>>,
    /// The cache: a blob, or the mark that there is no value, under each key
    /// that it knows.
    pub cache: Map<Seq<char>, Option<Seq<char>>>,
    /// The durable store, in the same form.
    pub store: Map<Seq<char>, Option<Seq<char>>>,
}

/// The answer of a backend with the entries `entries` to a lookup of `key`. A
/// key that it does not know makes the lookup fail.
pub open spec fn lookup_in(entries: Map<Seq<char>, Option<Seq<char>>>, key: Seq<char>) -> LookupView {
    if entries.contains_key(key) {
        match entries[key] {
            Some(blob) => LookupView::Found(blob),
            None => LookupView::Empty,
        }
    } else {
        LookupView::Failed
    }
}

/// The answer of the layers to what `action` asks.
pub open spec fn answer_to(sources: Sources, action: ReadActionView) -> ReadAnswerView {
    match action {
        ReadActionView::QueryCache { key } => ReadAnswerView::Backend(lookup_in(sources.cache, key)),
        ReadActionView::QueryStore { key } => ReadAnswerView::Backend(lookup_in(sources.store, key)),
        ReadActionView::CheckFilter { key } => ReadAnswerView::Filter(sources.filter.contains(key)),
        _ => ReadAnswerView::Filter(false),
    }
}

/// A read under way, or ended: its state, the action last handed out, and
/// what was asked of the layers so far.
pub struct ReadRun {
    pub state: ReadState,
    pub last: ReadActionView,
    pub asked: Seq<ReadActionView>,
}

/// One round of a read: the pending action is asked of the layers and the
/// protocol takes its step on the answer. A read that has ended stays, and so
/// does one whose answer holds a blob that cannot be decoded: no step is
/// defined on it.
pub open spec fn read_round(key: Seq<char>, sources: Sources, run: ReadRun) -> ReadRun {
    if run.state.terminal() || !read_admits(run.state, answer_to(sources, run.last)) {
        run
    } else {
        let next = read_next(key, run.state, answer_to(sources, run.last));
        ReadRun { state: next.0, last: next.1, asked: run.asked.push(run.last) }
    }
}

/// A read of `key` as it begins: the filter lookup is pending and nothing
/// was asked yet.
pub open spec fn read_opening(key: Seq<char>) -> ReadRun {
    ReadRun {
        state: ReadState::Start,
        last: ReadActionView::CheckFilter { key },
        asked: Seq::empty(),
    }
}

/// A whole read of `key`: the opening, then three rounds, which is as many
/// as a read can take.
pub open spec fn read_run(key: Seq<char>, sources: Sources) -> ReadRun {
    let first = read_round(key, sources, read_opening(key));
    let second = read_round(key, sources, first);
    read_round(key, sources, second)
}

/// A read of a key that the filter does not contain fails with
/// `CuckooFilterLookupFailed`, and the filter is all that was asked: neither
/// the cache nor the store is touched.
pub proof fn lemma_unknown_key_short_circuits(key: Seq<char>, sources: Sources)
    requires
        !sources.filter.contains(key),
    ensures
        read_run(key, sources).state == ReadState::Failed(ApiError::CuckooFilterLookupFailed),
        read_run(key, sources).last == (ReadActionView::Fail {
            error: ApiError::CuckooFilterLookupFailed,
        }),
        read_run(key, sources).asked == seq![ReadActionView::CheckFilter { key }],
{
    assert(read_run(key, sources).asked =~= seq![ReadActionView::CheckFilter { key }]);
}

/// A read of a key that the filter contains and for which the cache holds a
/// blob in serialised form returns the record in that blob, whatever the
/// store holds, and the store is not asked.
pub proof fn lemma_cache_answers_first(key: Seq<char>, sources: Sources, blob: Seq<char>)
    requires
        sources.filter.contains(key),
        lookup_in(sources.cache, key) == LookupView::Found(blob),
        decodable(blob),
    ensures
        read_run(key, sources).state == ReadState::Done,
        read_run(key, sources).last == (ReadActionView::Succeed { record: deserialized(blob) }),
        read_run(key, sources).asked == seq![
            ReadActionView::CheckFilter { key },
            ReadActionView::QueryCache { key },
        ],
{
    assert(read_run(key, sources).asked =~= seq![
        ReadActionView::CheckFilter { key },
        ReadActionView::QueryCache { key },
    ]);
}

/// A cache entry that is marked as holding no value is an answer too: the
/// read returns the empty record and the store is not asked.
pub proof fn lemma_empty_cache_entry_answers(key: Seq<char>, sources: Sources)
    requires
        sources.filter.contains(key),
        lookup_in(sources.cache, key) == LookupView::Empty,
    ensures
        read_run(key, sources).state == ReadState::Done,
        read_run(key, sources).last == (ReadActionView::Succeed { record: Seq::empty() }),
        read_run(key, sources).asked == seq![
            ReadActionView::CheckFilter { key },
            ReadActionView::QueryCache { key },
        ],
{
    assert(read_run(key, sources).asked =~= seq![
        ReadActionView::CheckFilter { key },
        ReadActionView::QueryCache { key },
    ]);
}

/// A read of a key that the filter contains, that the cache fails on and
/// for which the store holds a blob in serialised form returns the record in
/// the store's blob.
pub proof fn lemma_store_answers_on_cache_miss(key: Seq<char>, sources: Sources, blob: Seq<char>)
    requires
        sources.filter.contains(key),
        lookup_in(sources.cache, key) == LookupView::Failed,
        lookup_in(sources.store, key) == LookupView::Found(blob),
        decodable(blob),
    ensures
        read_run(key, sources).state == ReadState::Done,
        read_run(key, sources).last == (ReadActionView::Succeed { record: deserialized(blob) }),
        read_run(key, sources).asked == seq![
            ReadActionView::CheckFilter { key },
            ReadActionView::QueryCache { key },
            ReadActionView::QueryStore { key },
        ],
{
    assert(read_run(key, sources).asked =~= seq![
        ReadActionView::CheckFilter { key },
        ReadActionView::QueryCache { key },
        ReadActionView::QueryStore { key },
    ]);
}

/// A read on which cache and store both fail ends with `DBInsertionFailed`.
pub proof fn lemma_read_fails_with_the_store(key: Seq<char>, sources: Sources)
    requires
        sources.filter.contains(key),
        lookup_in(sources.cache, key) == LookupView::Failed,
        lookup_in(sources.store, key) == LookupView::Failed,
    ensures
        read_run(key, sources).state == ReadState::Failed(ApiError::DBInsertionFailed),
        read_run(key, sources).last == (ReadActionView::Fail { error: ApiError::DBInsertionFailed }),
{
}

/// A read on which the cache fails and the store answers that it holds no
/// value, as for a key that the filter contains by mistake, ends with
/// `DBInsertionFailed` too: no record is made up.
pub proof fn lemma_read_fails_on_empty_store(key: Seq<char>, sources: Sources)
    requires
        sources.filter.contains(key),
        lookup_in(sources.cache, key) == LookupView::Failed,
        lookup_in(sources.store, key) == LookupView::Empty,
    ensures
        read_run(key, sources).state == ReadState::Failed(ApiError::DBInsertionFailed),
        read_run(key, sources).last == (ReadActionView::Fail { error: ApiError::DBInsertionFailed }),
{
}

/// Where the blobs that cache and store hold under a key are in serialised
/// form, a read of the key always comes to an end, with a record or with an
/// error; and it returns a record that is not empty only where the cache or
/// the store held a blob.
pub proof fn lemma_read_always_answers(key: Seq<char>, sources: Sources)
    requires
        lookup_in(sources.cache, key) matches LookupView::Found(blob) ==> decodable(blob),
        lookup_in(sources.store, key) matches LookupView::Found(blob) ==> decodable(blob),
    ensures
        read_run(key, sources).state.terminal(),
        read_run(key, sources).last is Succeed || read_run(key, sources).last is Fail,
        read_run(key, sources).last is Succeed <==> read_run(key, sources).state == ReadState::Done,
        read_run(key, sources).last matches ReadActionView::Succeed { record } ==> record
            == Seq::<char>::empty() || lookup_in(sources.cache, key) is Found || lookup_in(
            sources.store,
            key,
        ) is Found,
{
}

/// A write that fails at the cache changes nothing: the cache, the store and
/// the filter are as before, and only the cache was asked.
pub proof fn lemma_cache_failure_changes_nothing(
    req: SetRequestView,
    ttl: usize,
    outcomes: Outcomes,
    layers: Layers,
)
    requires
        !outcomes.cache_ok,
    ensures
        write_run(req, ttl, outcomes, layers).state == WriteState::Failed(
            ApiError::CacheInsertionFailed,
        ),
        write_run(req, ttl, outcomes, layers).layers == layers,
        write_run(req, ttl, outcomes, layers).asked == seq![write_first(req)],
{
    assert(write_run(req, ttl, outcomes, layers).asked =~= seq![write_first(req)]);
}

/// A write whose record is not well-formed JSON ends with
/// `DataSerializationFailed` after the cache steps: the store and the filter
/// are as before.
pub proof fn lemma_malformed_record_spares_store(
    req: SetRequestView,
    ttl: usize,
    outcomes: Outcomes,
    layers: Layers,
)
    requires
        outcomes.cache_ok,
        parsed(req.data) is None,
    ensures
        write_run(req, ttl, outcomes, layers).state == WriteState::Failed(
            ApiError::DataSerializationFailed,
        ),
        write_run(req, ttl, outcomes, layers).layers.store == layers.store,
        write_run(req, ttl, outcomes, layers).layers.filter == layers.filter,
        write_run(req, ttl, outcomes, layers).layers.cache == layers.cache.insert(
            req.address,
            serialized(req.data),
        ),
{
}

/// A write that fails at the store leaves the filter as it was, and the
/// store too; the cache entry that it wrote stays.
pub proof fn lemma_store_failure_spares_filter(
    req: SetRequestView,
    ttl: usize,
    outcomes: Outcomes,
    layers: Layers,
)
    requires
        outcomes.cache_ok,
        parsed(req.data) is Some,
        !outcomes.store_ok,
    ensures
        write_run(req, ttl, outcomes, layers).state == WriteState::Failed(
            ApiError::DBInsertionFailed,
        ),
        write_run(req, ttl, outcomes, layers).layers.filter == layers.filter,
        write_run(req, ttl, outcomes, layers).layers.store == layers.store,
        write_run(req, ttl, outcomes, layers).layers.cache == layers.cache.insert(
            req.address,
            serialized(req.data),
        ),
{
}

/// A write that fails at the filter reports `CuckooFilterInsertionFailed`
/// though cache and store hold the record.
pub proof fn lemma_filter_failure_is_reported(
    req: SetRequestView,
    ttl: usize,
    outcomes: Outcomes,
    layers: Layers,
)
    requires
        outcomes.cache_ok,
        parsed(req.data) is Some,
        outcomes.store_ok,
        !outcomes.filter_ok,
    ensures
        write_run(req, ttl, outcomes, layers).state == WriteState::Failed(
            ApiError::CuckooFilterInsertionFailed,
        ),
        write_run(req, ttl, outcomes, layers).layers.filter == layers.filter,
        write_run(req, ttl, outcomes, layers).layers.store == layers.store.insert(
            req.address,
            parsed(req.data).unwrap(),
        ),
        write_run(req, ttl, outcomes, layers).layers.cache == layers.cache.insert(
            req.address,
            serialized(req.data),
        ),
{
}

/// A write of a well-formed record on which cache, store and filter do their
/// part succeeds whether or not the expiry could be set: all four operations
/// are asked in order, the confirmation is the key, and the layers hold the
/// record. The expiry is `ttl` where it was set, and as before where not.
pub proof fn lemma_write_succeeds_despite_expiry(
    req: SetRequestView,
    ttl: usize,
    outcomes: Outcomes,
    layers: Layers,
)
    requires
        outcomes.cache_ok,
        parsed(req.data) is Some,
        outcomes.store_ok,
        outcomes.filter_ok,
    ensures
        write_run(req, ttl, outcomes, layers).state == WriteState::Done,
        write_run(req, ttl, outcomes, layers).last == (WriteActionView::Succeed {
            payload: req.address,
        }),
        write_run(req, ttl, outcomes, layers).asked == seq![
            write_first(req),
            WriteActionView::SetExpiry { key: req.address, ttl },
            WriteActionView::WriteStore { key: req.address, value: parsed(req.data).unwrap() },
            WriteActionView::AddToFilter { key: req.address },
        ],
        write_run(req, ttl, outcomes, layers).layers == (Layers {
            filter: layers.filter.insert(req.address),
            cache: layers.cache.insert(req.address, serialized(req.data)),
            expiry: if outcomes.expiry_ok {
                layers.expiry.insert(req.address, ttl)
            } else {
                layers.expiry
            },
            store: layers.store.insert(req.address, parsed(req.data).unwrap()),
        }),
{
    assert(write_run(req, ttl, outcomes, layers).asked =~= seq![
        write_first(req),
        WriteActionView::SetExpiry { key: req.address, ttl },
        WriteActionView::WriteStore { key: req.address, value: parsed(req.data).unwrap() },
        WriteActionView::AddToFilter { key: req.address },
    ]);
}

/// A write succeeds exactly when the cache, the store and the filter do
/// their part and the record is well-formed JSON.
pub proof fn lemma_write_success_condition(
    req: SetRequestView,
    ttl: usize,
    outcomes: Outcomes,
    layers: Layers,
)
    ensures
        write_run(req, ttl, outcomes, layers).state.terminal(),
        write_run(req, ttl, outcomes, layers).state == WriteState::Done <==> outcomes.cache_ok
            && parsed(req.data) is Some && outcomes.store_ok && outcomes.filter_ok,
{
}

/// Writing the same record under the same key a second time, both writes
/// succeeding, leaves the cache, the store and the filter as the first write
/// left them.
pub proof fn lemma_repeated_write_is_idempotent(
    req: SetRequestView,
    ttl: usize,
    first: Outcomes,
    second: Outcomes,
    layers: Layers,
)
    requires
        write_run(req, ttl, first, layers).state == WriteState::Done,
        write_run(req, ttl, second, write_run(req, ttl, first, layers).layers).state
            == WriteState::Done,
    ensures
        write_run(req, ttl, second, write_run(req, ttl, first, layers).layers).layers.cache
            == write_run(req, ttl, first, layers).layers.cache,
        write_run(req, ttl, second, write_run(req, ttl, first, layers).layers).layers.store
            == write_run(req, ttl, first, layers).layers.store,
        write_run(req, ttl, second, write_run(req, ttl, first, layers).layers).layers.filter
            == write_run(req, ttl, first, layers).layers.filter,
        first.expiry_ok == second.expiry_ok ==> write_run(
            req,
            ttl,
            second,
            write_run(req, ttl, first, layers).layers,
        ).layers == write_run(req, ttl, first, layers).layers,
{
    let once = write_run(req, ttl, first, layers).layers;
    lemma_write_success_condition(req, ttl, first, layers);
    lemma_write_success_condition(req, ttl, second, once);
    lemma_write_succeeds_despite_expiry(req, ttl, first, layers);
    lemma_write_succeeds_despite_expiry(req, ttl, second, once);
    let twice = write_run(req, ttl, second, once).layers;
    assert(twice.cache =~= once.cache);
    assert(twice.store =~= once.store);
    assert(twice.filter =~= once.filter);
    if first.expiry_ok == second.expiry_ok {
        assert(twice.expiry =~= once.expiry);
    }
}

/// The filter only grows, and a write adds no key to it but its own, and
/// that one only after the store took the record: a key that a write put
/// into the filter is held by the store, with the value read from the record.
pub proof fn lemma_filter_follows_store(
    req: SetRequestView,
    ttl: usize,
    outcomes: Outcomes,
    layers: Layers,
)
    ensures
        layers.filter.subset_of(write_run(req, ttl, outcomes, layers).layers.filter),
        forall|key: Seq<char>|
            write_run(req, ttl, outcomes, layers).layers.filter.contains(key)
                && !layers.filter.contains(key) ==> key == req.address && parsed(req.data) is Some
                && write_run(req, ttl, outcomes, layers).layers.store.contains_key(key)
                && write_run(req, ttl, outcomes, layers).layers.store[key] == parsed(
                req.data,
            ).unwrap(),
{
}

/// What a read finds where a write has been: the filter and the cache as the
/// write left them, over a store that answers as `store` says.
pub open spec fn sources_after(layers: Layers, store: Map<Seq<char>, Option<Seq<char>>>) -> Sources {
    Sources {
        filter: layers.filter,
        cache: Map::new(
            |key: Seq<char>| layers.cache.contains_key(key),
            |key: Seq<char>| Some(layers.cache[key]),
        ),
        store,
    }
}

/// After a write that succeeded, a read of its key is answered by the cache,
/// with the record decoded from the blob that the write put there, and the
/// store is not asked. That blob can be decoded, and the record decoded from
/// it is the one written: `write::write_begin` ensures both of the request
/// that it opens.
pub proof fn lemma_read_after_write_hits_cache(
    req: SetRequestView,
    ttl: usize,
    outcomes: Outcomes,
    layers: Layers,
    store: Map<Seq<char>, Option<Seq<char>>>,
)
    requires
        write_run(req, ttl, outcomes, layers).state == WriteState::Done,
        decodable(serialized(req.data)),
    ensures
        read_run(
            req.address,
            sources_after(write_run(req, ttl, outcomes, layers).layers, store),
        ).state == ReadState::Done,
        read_run(
            req.address,
            sources_after(write_run(req, ttl, outcomes, layers).layers, store),
        ).last == (ReadActionView::Succeed { record: deserialized(serialized(req.data)) }),
        read_run(
            req.address,
            sources_after(write_run(req, ttl, outcomes, layers).layers, store),
        ).asked == seq![
            ReadActionView::CheckFilter { key: req.address },
            ReadActionView::QueryCache { key: req.address },
        ],
{
    lemma_write_success_condition(req, ttl, outcomes, layers);
    lemma_write_succeeds_despite_expiry(req, ttl, outcomes, layers);
    let sources = sources_after(write_run(req, ttl, outcomes, layers).layers, store);
    lemma_cache_answers_first(req.address, sources, serialized(req.data));
}

} // verus!
