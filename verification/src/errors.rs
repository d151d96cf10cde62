use vstd::prelude::*;

verus! {

/// Why a request could not be served.
#[derive(Clone, Copy, Debug, PartialEq, Eq, Structural)]
pub enum ApiError {
    /// The existence filter does not know the key.
    CuckooFilterLookupFailed,
    /// The key could not be added to the existence filter.
    CuckooFilterInsertionFailed,
    /// The cache refused the entry.
    CacheInsertionFailed,
    /// The durable store failed, on a read or on a write.
    DBInsertionFailed,
    /// The record is not well-formed JSON.
    DataSerializationFailed,
}

} // verus!
