use crate::entry::Metadata;
use crate::error::{entry_not_found, Error};
use crate::ttl::{expired_at, is_expired_at, recorded_expiry};
use crate::time::{duration_as_millis, epoch_millis, now_millis};
use cacache::Error as CacheError;
use std::path::PathBuf;
use std::time::{Duration, SystemTimeError};
use vstd::prelude::*;

verus! {

/// A read of `key` from the cache at `cache` that honours the entry's expiry
/// time. It begins by looking up the entry's index metadata; the outcome of
/// that lookup goes to `on_metadata`.
pub struct ReadOp {
    pub cache: PathBuf,
    pub key: String,
}

/// What a read does once the entry's metadata has been looked up.
pub enum ReadStep {
    /// The read is over, with this outcome.
    Done(Result<Vec<u8>, Error>),
    /// The entry has expired: remove it from the index and hand the outcome of
    /// the removal to the `ReadRemoval`.
    Remove(ReadRemoval),
    /// The entry is live: read its content and hand the outcome to the
    /// `ReadFetch`.
    Fetch(ReadFetch),
}

/// A read that waits for the removal of an expired entry.
pub struct ReadRemoval {
    pub cache: PathBuf,
    pub key: String,
}

/// A read that waits for the content of a live entry.
pub struct ReadFetch {
    pub key: String,
}

impl ReadOp {
    /// The step that follows the metadata lookup `looked_up` at time `now`: a
    /// lookup error is forwarded, a missing entry is reported as missing, an
    /// expired entry is removed, and a live one is read.
    pub open spec fn next_at(self, looked_up: Result<Option<Metadata>, CacheError>, now: u64) -> ReadStep {
        match looked_up {
            Err(e) => ReadStep::Done(Err(Error::Cacache(e))),
            Ok(None) => ReadStep::Done(Err(Error::EntryNotFoundOrExpired(self.cache, self.key))),
            Ok(Some(m)) => if expired_at(m.metadata, now) {
                ReadStep::Remove(ReadRemoval { cache: self.cache, key: self.key })
            } else {
                ReadStep::Fetch(ReadFetch { key: self.key })
            },
        }
    }

    pub fn new(cache: PathBuf, key: String) -> (op: ReadOp)
        ensures
            op.cache == cache,
            op.key == key,
    {
        ReadOp { cache, key }
    }

    /// Takes the outcome of the metadata lookup, judging expiry at time `now`.
    pub fn on_metadata_at(self, looked_up: Result<Option<Metadata>, CacheError>, now: u64) -> (step: ReadStep)
        ensures
            step == self.next_at(looked_up, now),
    {
        match looked_up {
            Err(e) => ReadStep::Done(Err(Error::Cacache(e))),
            Ok(None) => ReadStep::Done(Err(entry_not_found(self.cache, self.key))),
            Ok(Some(m)) => if is_expired_at(&m, now) {
                ReadStep::Remove(ReadRemoval { cache: self.cache, key: self.key })
            } else {
                ReadStep::Fetch(ReadFetch { key: self.key })
            },
        }
    }

    /// Takes the outcome of the metadata lookup, judging expiry at the system
    /// clock's reading in Unix milliseconds.
    pub fn on_metadata(self, looked_up: Result<Option<Metadata>, CacheError>) -> (step: ReadStep)
        ensures
            exists|elapsed: Result<Duration, SystemTimeError>|
                step == self.next_at(looked_up, #[trigger] epoch_millis(elapsed)),
    {
        let ghost this = self;
        let now = now_millis();
        let step = self.on_metadata_at(looked_up, now);
        proof {
            let elapsed = choose|elapsed: Result<Duration, SystemTimeError>| now == #[trigger] epoch_millis(elapsed);
            assert(step == this.next_at(looked_up, epoch_millis(elapsed)));
        }
        step
    }
}

impl ReadRemoval {
    /// The error a read ends with after removing an expired entry: the entry is
    /// reported missing, unless the removal failed.
    pub open spec fn outcome(self, removed: Result<(), CacheError>) -> Error {
        match removed {
            Ok(()) => Error::EntryNotFoundOrExpired(self.cache, self.key),
            Err(e) => Error::Cacache(e),
        }
    }

    pub fn on_removed(self, removed: Result<(), CacheError>) -> (e: Error)
        ensures
            e == self.outcome(removed),
    {
        match removed {
            Ok(()) => entry_not_found(self.cache, self.key),
            Err(e) => Error::Cacache(e),
        }
    }
}

impl ReadFetch {
    /// What a read of a live entry returns: its content as read, or the error
    /// of the content read.
    pub open spec fn outcome(self, content: Result<Vec<u8>, CacheError>) -> Result<Vec<u8>, Error> {
        match content {
            Ok(data) => Ok(data),
            Err(e) => Err(Error::Cacache(e)),
        }
    }

    pub fn on_content(self, content: Result<Vec<u8>, CacheError>) -> (r: Result<Vec<u8>, Error>)
        ensures
            r == self.outcome(content),
    {
        match content {
            Ok(data) => Ok(data),
            Err(e) => Err(Error::Cacache(e)),
        }
    }
}

/// A read of an entry that is not in the index reports it missing, without
/// removing anything.
pub proof fn law_read_missing(op: ReadOp, now: u64)
    ensures
        op.next_at(Ok(None), now) == ReadStep::Done(Err(Error::EntryNotFoundOrExpired(op.cache, op.key))),
{
}

/// A read of an expired entry asks for its removal from the index; once it is
/// removed the entry is reported missing, and a failed removal is reported by
/// its error.
pub proof fn law_read_expired(op: ReadOp, found: Metadata, now: u64, error: CacheError)
    requires
        expired_at(found.metadata, now),
    ensures
        op.next_at(Ok(Some(found)), now) matches ReadStep::Remove(removal) && removal.outcome(Ok(()))
            == Error::EntryNotFoundOrExpired(op.cache, op.key) && removal.outcome(Err(error))
            == Error::Cacache(error),
{
}

/// A read of a live entry, one that has not expired or has no expiry, asks for
/// its content and returns that content unchanged.
pub proof fn law_read_live(op: ReadOp, found: Metadata, now: u64, content: Vec<u8>, error: CacheError)
    requires
        !expired_at(found.metadata, now),
    ensures
        op.next_at(Ok(Some(found)), now) matches ReadStep::Fetch(fetch) && fetch.outcome(Ok(content))
            == Ok::<Vec<u8>, Error>(content) && fetch.outcome(Err(error)) == Err::<Vec<u8>, Error>(
            Error::Cacache(error),
        ),
{
}

/// A failed lookup ends the read with its error.
pub proof fn law_read_lookup_error(op: ReadOp, error: CacheError, now: u64)
    ensures
        op.next_at(Err(error), now) == ReadStep::Done(Err(Error::Cacache(error))),
{
}

/// A read judges expiry against the time elapsed since the Unix epoch in whole
/// milliseconds: of an entry found with expiry `expires_at`, it asks for the
/// removal exactly when the clock's reading lies past `expires_at`
/// milliseconds after the epoch, and fetches it otherwise, as it does for a
/// clock set before the epoch; an entry without an expiry is fetched whatever
/// the clock reads.
pub proof fn law_read_expiry_in_clock_millis(
    op: ReadOp,
    found: Metadata,
    step: ReadStep,
)
    requires
        exists|elapsed: Result<Duration, SystemTimeError>|
            step == op.next_at(Ok(Some(found)), #[trigger] epoch_millis(elapsed)),
    ensures
        recorded_expiry(found.metadata) is None ==> step is Fetch,
        recorded_expiry(found.metadata) matches Some(expires_at) ==> exists|elapsed: Result<Duration, SystemTimeError>| {
            &&& (step is Remove <==> #[trigger] epoch_millis(elapsed) > expires_at)
            &&& (step is Fetch <==> epoch_millis(elapsed) <= expires_at)
            &&& (elapsed matches Ok(d) ==> (duration_as_millis(d) <= u64::MAX ==> (step is Remove
                <==> duration_as_millis(d) > expires_at)))
            &&& (elapsed is Err ==> step is Fetch)
        },
{
    let elapsed = choose|elapsed: Result<Duration, SystemTimeError>|
        step == op.next_at(Ok(Some(found)), #[trigger] epoch_millis(elapsed));
    if let Some(expires_at) = recorded_expiry(found.metadata) {
        assert(step is Remove <==> epoch_millis(elapsed) > expires_at);
    }
}

} // verus!
