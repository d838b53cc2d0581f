use crate::entry::Metadata;
use crate::error::Error;
use crate::time::{duration_as_millis, epoch_millis, now_millis};
use crate::ttl::{expired_at, is_expired_at, recorded_expiry};
use cacache::Error as CacheError;
use std::time::{Duration, SystemTimeError};
use vstd::prelude::*;

verus! {

/// What a listing of the index does with one listed entry.
pub enum ListStep {
    /// Hand this item to the caller of the listing.
    Yield(Result<Metadata, Error>),
    /// The entry has expired: remove it from the index and hand the outcome of
    /// the removal to the `ListRemoval`.
    Remove(ListRemoval),
}

/// A listing that waits for the removal of an expired entry.
pub struct ListRemoval {
    /// The key of the expired entry.
    pub key: String,
}

/// The step for the listed item `entry` at time `now`: an expired entry is
/// removed, any other entry, with or without an expiry, is passed on
/// unchanged, and a listing error is forwarded.
pub open spec fn list_next_at(entry: Result<Metadata, CacheError>, now: u64) -> ListStep {
    match entry {
        Ok(m) => if expired_at(m.metadata, now) {
            ListStep::Remove(ListRemoval { key: m.key })
        } else {
            ListStep::Yield(Ok(m))
        },
        Err(e) => ListStep::Yield(Err(Error::Cacache(e))),
    }
}

/// Takes one item of the index listing, judging expiry at time `now`.
pub fn list_entry_at(entry: Result<Metadata, CacheError>, now: u64) -> (step: ListStep)
    ensures
        step == list_next_at(entry, now),
{
    match entry {
        Ok(m) => if is_expired_at(&m, now) {
            ListStep::Remove(ListRemoval { key: m.key })
        } else {
            ListStep::Yield(Ok(m))
        },
        Err(e) => ListStep::Yield(Err(Error::Cacache(e))),
    }
}

/// Takes one item of the index listing, judging expiry at the system clock's
/// reading in Unix milliseconds.
pub fn list_entry(entry: Result<Metadata, CacheError>) -> (step: ListStep)
    ensures
        exists|elapsed: Result<Duration, SystemTimeError>|
            step == list_next_at(entry, #[trigger] epoch_millis(elapsed)),
{
    let ghost item = entry;
    let now = now_millis();
    let step = list_entry_at(entry, now);
    proof {
        let elapsed = choose|elapsed: Result<Duration, SystemTimeError>| now == #[trigger] epoch_millis(elapsed);
        assert(step == list_next_at(item, epoch_millis(elapsed)));
    }
    step
}

impl ListRemoval {
    /// What the listing yields after removing an expired entry: nothing, unless
    /// the removal failed, whose error it yields.
    pub open spec fn outcome(self, removed: Result<(), CacheError>) -> Option<Result<Metadata, Error>> {
        match removed {
            Ok(()) => None,
            Err(e) => Some(Err(Error::Cacache(e))),
        }
    }

    pub fn on_removed(self, removed: Result<(), CacheError>) -> (r: Option<Result<Metadata, Error>>)
        ensures
            r == self.outcome(removed),
    {
        match removed {
            Ok(()) => None,
            Err(e) => Some(Err(Error::Cacache(e))),
        }
    }
}

/// A listing removes an expired entry and, once it is removed, yields nothing
/// for it; a failed removal yields its error.
pub proof fn law_list_expired(found: Metadata, now: u64, error: CacheError)
    requires
        expired_at(found.metadata, now),
    ensures
        list_next_at(Ok(found), now) matches ListStep::Remove(removal) && removal.key == found.key
            && removal.outcome(Ok(())) is None && removal.outcome(Err(error)) == Some(
            Err::<Metadata, Error>(Error::Cacache(error)),
        ),
{
}

/// A listing yields a live entry, one that has not expired or has no expiry,
/// unchanged.
pub proof fn law_list_live(found: Metadata, now: u64)
    requires
        !expired_at(found.metadata, now),
    ensures
        list_next_at(Ok(found), now) == ListStep::Yield(Ok(found)),
{
}

/// A listing yields the error of a failed listing item.
pub proof fn law_list_error(error: CacheError, now: u64)
    ensures
        list_next_at(Err(error), now) == ListStep::Yield(Err(Error::Cacache(error))),
{
}

/// A listing judges expiry against the time elapsed since the Unix epoch in
/// whole milliseconds: an entry found with expiry `expires_at` is removed and
/// not yielded exactly when the clock's reading lies past `expires_at`
/// milliseconds after the epoch, and is yielded unchanged otherwise; an entry
/// without an expiry is yielded unchanged whatever the clock reads.
pub proof fn law_list_expiry_in_clock_millis(found: Metadata, step: ListStep)
    requires
        exists|elapsed: Result<Duration, SystemTimeError>|
            step == list_next_at(Ok(found), #[trigger] epoch_millis(elapsed)),
    ensures
        recorded_expiry(found.metadata) is None ==> step == ListStep::Yield(Ok(found)),
        recorded_expiry(found.metadata) matches Some(expires_at) ==> exists|elapsed: Result<Duration, SystemTimeError>| {
            &&& (step is Remove <==> #[trigger] epoch_millis(elapsed) > expires_at)
            &&& (step is Remove ==> step->Remove_0.key == found.key)
            &&& (!(step is Remove) ==> step == ListStep::Yield(Ok(found)))
            &&& (elapsed matches Ok(d) ==> (duration_as_millis(d) <= u64::MAX ==> (step is Remove
                <==> duration_as_millis(d) > expires_at)))
            &&& (elapsed is Err ==> step == ListStep::Yield(Ok(found)))
        },
{
    let elapsed = choose|elapsed: Result<Duration, SystemTimeError>|
        step == list_next_at(Ok(found), #[trigger] epoch_millis(elapsed));
    if let Some(expires_at) = recorded_expiry(found.metadata) {
        assert(step is Remove <==> epoch_millis(elapsed) > expires_at);
    }
}

} // verus!
