use crate::entry::{Metadata, WriteOpts};
use crate::json::{
    distinct_keys, insert_entry, keyed, law_with_entry_distinct, law_with_entry_lookup,
    law_with_entry_overwrite, with_entry, Json, JsonNumber,
};
use crate::time::{
    duration_as_millis, epoch_millis, expires_at_millis, expiry_after, law_expiry_from_clock_reading, now_millis,
    spec_duration_millis,
};
use std::time::{Duration, SystemTimeError};
use vstd::prelude::*;

verus! {

/// The index metadata key under which an entry's expiry time is stored.
pub const EXPIRES_AT_MILLIS: &'static str = "expires_at_millis";

/// The expiry time that JSON metadata records: the value under
/// `expires_at_millis` of an object, where it is a `u64`.
pub open spec fn recorded_expiry(metadata: Json) -> Option<u64> {
    match metadata.lookup(EXPIRES_AT_MILLIS@) {
        Some(v) => v.u64_value(),
        None => None,
    }
}

/// Whether metadata has expired at time `now`: it records an expiry time and
/// `now` lies past it. Metadata without an expiry time never expires.
pub open spec fn expired_at(metadata: Json, now: u64) -> bool {
    match recorded_expiry(metadata) {
        Some(expires_at) => now > expires_at,
        None => false,
    }
}

/// The JSON value that records expiry time `expires_at`.
pub open spec fn expiry_value(expires_at: u64) -> Json {
    Json::Number(JsonNumber::PosInt(expires_at))
}

/// The entries that existing JSON metadata keeps when an expiry is added:
/// those of an object, and none of any other value or of no metadata.
pub open spec fn kept_entries(existing: Option<Json>) -> Seq<(Seq<char>, Json)> {
    match existing {
        Some(j) => j.entries(),
        None => Seq::empty(),
    }
}

/// The entries of the metadata that records expiry time `expires_at` over
/// `existing`.
pub open spec fn ttl_entries(existing: Option<Json>, expires_at: u64) -> Seq<(Seq<char>, Json)> {
    with_entry(kept_entries(existing), EXPIRES_AT_MILLIS@, expiry_value(expires_at))
}

/// The JSON metadata of an entry, if there is an entry.
pub open spec fn metadata_of(existing: Option<Metadata>) -> Option<Json> {
    match existing {
        Some(e) => Some(e.metadata),
        None => None,
    }
}

/// The raw metadata of an entry, if there is an entry and it has some.
pub open spec fn raw_metadata_of(existing: Option<Metadata>) -> Option<Vec<u8>> {
    match existing {
        Some(e) => e.raw_metadata,
        None => None,
    }
}

/// The expiry time recorded in `metadata`, if any.
pub fn recorded_expiry_of(metadata: &Json) -> (r: Option<u64>)
    ensures
        r == recorded_expiry(*metadata),
{
    match metadata.get(EXPIRES_AT_MILLIS) {
        Some(v) => v.as_u64(),
        None => None,
    }
}

/// Whether the entry has expired at time `now`, in Unix milliseconds.
pub fn is_expired_at(metadata: &Metadata, now: u64) -> (b: bool)
    ensures
        b == expired_at(metadata.metadata, now),
{
    match recorded_expiry_of(&metadata.metadata) {
        Some(expires_at) => now > expires_at,
        None => false,
    }
}

/// Whether the entry has expired by the system clock: whether the clock's
/// reading in Unix milliseconds lies past the recorded expiry time. Only an
/// entry that records an expiry time can have expired.
pub fn is_expired(metadata: &Metadata) -> (b: bool)
    ensures
        exists|elapsed: Result<Duration, SystemTimeError>|
            b == expired_at(metadata.metadata, #[trigger] epoch_millis(elapsed)),
        recorded_expiry(metadata.metadata) is None ==> !b,
{
    let now = now_millis();
    let b = is_expired_at(metadata, now);
    proof {
        let elapsed = choose|elapsed: Result<Duration, SystemTimeError>| now == #[trigger] epoch_millis(elapsed);
        assert(b == expired_at(metadata.metadata, epoch_millis(elapsed)));
    }
    b
}

/// An empty JSON object.
pub fn empty_metadata() -> (j: Json)
    ensures
        j is Object,
        j.entries() == Seq::<(Seq<char>, Json)>::empty(),
{
    let entries: Vec<(String, Json)> = Vec::new();
    assert(keyed(entries@) =~= Seq::<(Seq<char>, Json)>::empty());
    Json::Object(entries)
}

/// The metadata `existing` with expiry time `expires_at` recorded: an object
/// keeps all its entries and gets the expiry stored under its key; any other
/// value, or none, gives way to an object that holds only the expiry.
pub fn metadata_with_expiry(existing: Option<Json>, expires_at: u64) -> (j: Json)
    ensures
        j is Object,
        j.entries() == ttl_entries(existing, expires_at),
{
    let mut metadata = match existing {
        Some(m) => m,
        None => empty_metadata(),
    };
    if !metadata.is_object() {
        metadata = empty_metadata();
    }
    match metadata {
        Json::Object(mut entries) => {
            insert_entry(&mut entries, EXPIRES_AT_MILLIS.to_owned(), Json::Number(JsonNumber::PosInt(expires_at)));
            Json::Object(entries)
        },
        other => other,
    }
}

/// The metadata `existing` with the expiry of a time-to-live `ttl` that starts
/// now recorded: the clock's reading in Unix milliseconds plus `ttl`.
pub fn metadata_with_ttl(existing: Option<Json>, ttl: Duration) -> (j: Json)
    ensures
        j is Object,
        exists|elapsed: Result<Duration, SystemTimeError>|
            j.entries() == ttl_entries(existing, expiry_after(#[trigger] epoch_millis(elapsed), spec_duration_millis(ttl))),
{
    let expires_at = expires_at_millis(ttl);
    let ghost kept = existing;
    let j = metadata_with_expiry(existing, expires_at);
    proof {
        let elapsed = choose|elapsed: Result<Duration, SystemTimeError>|
            expires_at == expiry_after(#[trigger] epoch_millis(elapsed), spec_duration_millis(ttl));
        assert(j.entries() == ttl_entries(kept, expiry_after(epoch_millis(elapsed), spec_duration_millis(ttl))));
    }
    j
}

/// `opts` asks the index to record for `current` the integrity and size of
/// `current`, the JSON metadata of `previous` with expiry time `expires_at`,
/// and the raw metadata of `previous`.
pub open spec fn index_options(opts: WriteOpts, current: Metadata, previous: Option<Metadata>, expires_at: u64) -> bool {
    &&& opts.integrity == current.integrity
    &&& opts.size == current.size
    &&& opts.metadata is Object
    &&& opts.metadata.entries() == ttl_entries(metadata_of(previous), expires_at)
    &&& opts.raw_metadata == raw_metadata_of(previous)
}

/// The options of the index insertion that gives the entry `current` expiry
/// time `expires_at`: its integrity and size, the JSON metadata of `existing`
/// with the expiry recorded, and the raw metadata of `existing` where it has
/// some.
pub fn write_opts_at(current: Metadata, expires_at: u64, existing: Option<Metadata>) -> (opts: WriteOpts)
    ensures
        index_options(opts, current, existing, expires_at),
{
    let (metadata, raw_metadata) = match existing {
        Some(e) => (Some(e.metadata), e.raw_metadata),
        None => (None, None),
    };
    WriteOpts {
        integrity: current.integrity,
        size: current.size,
        metadata: metadata_with_expiry(metadata, expires_at),
        raw_metadata,
    }
}

/// The options of the index insertion that gives the entry `current` a
/// time-to-live `ttl` starting now: at the clock's reading in Unix
/// milliseconds.
pub fn write_opts(current: Metadata, ttl: Duration, existing: Option<Metadata>) -> (opts: WriteOpts)
    ensures
        exists|elapsed: Result<Duration, SystemTimeError>|
            index_options(opts, current, existing, expiry_after(#[trigger] epoch_millis(elapsed), spec_duration_millis(ttl))),
{
    let (metadata, raw_metadata) = match existing {
        Some(e) => (Some(e.metadata), e.raw_metadata),
        None => (None, None),
    };
    let ghost kept = metadata;
    let opts = WriteOpts {
        integrity: current.integrity,
        size: current.size,
        metadata: metadata_with_ttl(metadata, ttl),
        raw_metadata,
    };
    proof {
        let elapsed = choose|elapsed: Result<Duration, SystemTimeError>|
            opts.metadata.entries() == ttl_entries(kept, expiry_after(#[trigger] epoch_millis(elapsed), spec_duration_millis(ttl)));
        assert(index_options(opts, current, existing, expiry_after(epoch_millis(elapsed), spec_duration_millis(ttl))));
    }
    opts
}

/// Metadata that records expiry time `expires_at` over `existing` is read
/// back as recording that time, so it has expired exactly at the times past
/// it.
pub proof fn law_recorded_expiry_read_back(existing: Option<Json>, expires_at: u64, written: Json, now: u64)
    requires
        written is Object,
        written.entries() == ttl_entries(existing, expires_at),
    ensures
        recorded_expiry(written) == Some(expires_at),
        expired_at(written, now) <==> now > expires_at,
{
    law_with_entry_lookup(kept_entries(existing), EXPIRES_AT_MILLIS@, expiry_value(expires_at), EXPIRES_AT_MILLIS@);
}

/// Recording an expiry keeps every other key of existing object metadata as it
/// was; metadata that was no object, or none, keeps nothing else.
pub proof fn law_other_metadata_kept(existing: Option<Json>, expires_at: u64, written: Json, key: Seq<char>)
    requires
        written is Object,
        written.entries() == ttl_entries(existing, expires_at),
        key != EXPIRES_AT_MILLIS@,
    ensures
        written.lookup(key) == match existing {
            Some(j) => j.lookup(key),
            None => None,
        },
{
    law_with_entry_lookup(kept_entries(existing), EXPIRES_AT_MILLIS@, expiry_value(expires_at), key);
}

/// Recording an expiry keeps the keys of object metadata distinct.
pub proof fn law_recorded_metadata_distinct(existing: Option<Json>, expires_at: u64)
    requires
        distinct_keys(kept_entries(existing)),
    ensures
        distinct_keys(ttl_entries(existing, expires_at)),
{
    law_with_entry_distinct(kept_entries(existing), EXPIRES_AT_MILLIS@, expiry_value(expires_at));
}

/// Recording a second expiry over metadata that already records one replaces
/// it and leaves the rest as the first recording left it.
pub proof fn law_expiry_rewritten(existing: Option<Json>, first: u64, written: Json, second: u64)
    requires
        written is Object,
        written.entries() == ttl_entries(existing, first),
    ensures
        ttl_entries(Some(written), second) == ttl_entries(existing, second),
{
    law_with_entry_overwrite(kept_entries(existing), EXPIRES_AT_MILLIS@, expiry_value(first), expiry_value(second));
}

/// Metadata without an expiry time never expires.
pub proof fn law_no_expiry_never_expires(metadata: Json, now: u64)
    requires
        recorded_expiry(metadata) is None,
    ensures
        !expired_at(metadata, now),
{
}

/// Once expired, metadata stays expired.
pub proof fn law_expiry_is_final(metadata: Json, earlier: u64, later: u64)
    requires
        expired_at(metadata, earlier),
        earlier <= later,
    ensures
        expired_at(metadata, later),
{
}

/// The expiry of a time-to-live lies no earlier than its start, nor earlier
/// than its length after the epoch; so metadata given a time-to-live at `now`
/// has not expired at `now`.
pub proof fn law_fresh_when_written(existing: Option<Json>, now: u64, ttl_millis: u64, written: Json)
    requires
        written is Object,
        written.entries() == ttl_entries(existing, expiry_after(now, ttl_millis)),
    ensures
        expiry_after(now, ttl_millis) >= now,
        expiry_after(now, ttl_millis) >= ttl_millis,
        !expired_at(written, now),
{
    law_recorded_expiry_read_back(existing, expiry_after(now, ttl_millis), written, now);
}

/// Metadata given a time-to-live `ttl` records as its expiry the clock's
/// reading plus `ttl`: where nothing saturates, the whole milliseconds from
/// the Unix epoch to the reading plus those of `ttl`, and the milliseconds of
/// `ttl` alone for a clock set before the epoch; every other key of existing
/// object metadata is kept.
pub proof fn law_ttl_metadata_expiry(existing: Option<Json>, ttl: Duration, j: Json, key: Seq<char>)
    requires
        j is Object,
        exists|elapsed: Result<Duration, SystemTimeError>|
            j.entries() == ttl_entries(existing, expiry_after(#[trigger] epoch_millis(elapsed), spec_duration_millis(ttl))),
    ensures
        exists|elapsed: Result<Duration, SystemTimeError>| {
            &&& recorded_expiry(j) == Some(expiry_after(#[trigger] epoch_millis(elapsed), spec_duration_millis(ttl)))
            &&& (elapsed matches Ok(d) ==> (duration_as_millis(d) + duration_as_millis(ttl) <= u64::MAX
                ==> recorded_expiry(j) == Some((duration_as_millis(d) + duration_as_millis(ttl)) as u64)))
            &&& (elapsed is Err ==> recorded_expiry(j) == Some(spec_duration_millis(ttl)))
        },
        recorded_expiry(j) matches Some(expires_at) && expires_at >= spec_duration_millis(ttl),
        key != EXPIRES_AT_MILLIS@ ==> j.lookup(key) == match existing {
            Some(x) => x.lookup(key),
            None => None,
        },
{
    let elapsed = choose|elapsed: Result<Duration, SystemTimeError>|
        j.entries() == ttl_entries(existing, expiry_after(#[trigger] epoch_millis(elapsed), spec_duration_millis(ttl)));
    let e = expiry_after(epoch_millis(elapsed), spec_duration_millis(ttl));
    law_recorded_expiry_read_back(existing, e, j, 0);
    law_expiry_from_clock_reading(elapsed, ttl);
    if key != EXPIRES_AT_MILLIS@ {
        law_other_metadata_kept(existing, e, j, key);
    }
}

/// The index insertion that `write_opts` prepares records the integrity and
/// size of the current entry, the raw metadata of the existing one, every
/// other key of its object metadata, and as expiry the clock's reading plus
/// `ttl`, in Unix milliseconds.
pub proof fn law_write_opts_expiry(current: Metadata, ttl: Duration, existing: Option<Metadata>, opts: WriteOpts, key: Seq<char>)
    requires
        exists|elapsed: Result<Duration, SystemTimeError>|
            index_options(opts, current, existing, expiry_after(#[trigger] epoch_millis(elapsed), spec_duration_millis(ttl))),
    ensures
        opts.integrity == current.integrity,
        opts.size == current.size,
        opts.raw_metadata == raw_metadata_of(existing),
        exists|elapsed: Result<Duration, SystemTimeError>| {
            &&& recorded_expiry(opts.metadata) == Some(expiry_after(#[trigger] epoch_millis(elapsed), spec_duration_millis(ttl)))
            &&& (elapsed matches Ok(d) ==> (duration_as_millis(d) + duration_as_millis(ttl) <= u64::MAX
                ==> recorded_expiry(opts.metadata) == Some((duration_as_millis(d) + duration_as_millis(ttl)) as u64)))
            &&& (elapsed is Err ==> recorded_expiry(opts.metadata) == Some(spec_duration_millis(ttl)))
        },
        key != EXPIRES_AT_MILLIS@ ==> opts.metadata.lookup(key) == match metadata_of(existing) {
            Some(x) => x.lookup(key),
            None => None,
        },
{
    let elapsed = choose|elapsed: Result<Duration, SystemTimeError>|
        index_options(opts, current, existing, expiry_after(#[trigger] epoch_millis(elapsed), spec_duration_millis(ttl)));
    assert(opts.metadata.entries() == ttl_entries(metadata_of(existing), expiry_after(epoch_millis(elapsed), spec_duration_millis(ttl))));
    law_ttl_metadata_expiry(metadata_of(existing), ttl, opts.metadata, key);
}

} // verus!
