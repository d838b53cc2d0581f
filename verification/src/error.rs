use cacache::Error as CacheError;
use std::path::PathBuf;
use vstd::prelude::*;

verus! {

/// The cache's directory, carried into errors as it was given.
#[verifier::external_type_specification]
#[verifier::external_body]
pub struct ExPathBuf(PathBuf);

/// Error type returned by all `cacache-ttl` API calls.
#[derive(Debug)]
pub enum Error {
    /// Returned when an index entry could not be found, or when it was found
    /// but its TTL has expired.
    EntryNotFoundOrExpired(PathBuf, String),
    /// Error forwarded from the underlying cache.
    Cacache(CacheError),
}

/// The error for a missing or expired entry of `key` in the cache at `cache`.
pub fn entry_not_found(cache: PathBuf, key: String) -> (e: Error)
    ensures
        e == Error::EntryNotFoundOrExpired(cache, key),
{
    Error::EntryNotFoundOrExpired(cache, key)
}

} // verus!
