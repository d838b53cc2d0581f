use crate::entry::{Metadata, WriteOpts};
use crate::error::{entry_not_found, Error};
use crate::time::{duration_as_millis, epoch_millis, expiry_after, expiry_from, spec_duration_millis};
use crate::ttl::{
    index_options, law_other_metadata_kept, law_recorded_expiry_read_back, law_write_opts_expiry, metadata_of,
    raw_metadata_of, recorded_expiry, write_opts, write_opts_at, EXPIRES_AT_MILLIS,
};
use cacache::Error as CacheError;
use cacache::Integrity;
use std::path::PathBuf;
use std::time::{Duration, SystemTimeError};
use vstd::prelude::*;

verus! {

/// A write of content under `key` into the cache at `cache` that gives the
/// entry a time-to-live `ttl`. It begins by looking up the entry's present
/// index metadata, whose outcome goes to `on_previous`; then the content is
/// written, the new index metadata is looked up, and the index entry is
/// rewritten with the expiry added to the metadata the entry had before.
pub struct WriteOp {
    pub cache: PathBuf,
    pub key: String,
    pub ttl: Duration,
}

/// A write that waits for the content to be written.
pub struct WriteContent {
    pub cache: PathBuf,
    pub key: String,
    pub ttl: Duration,
    /// The entry's index metadata before the write.
    pub previous: Option<Metadata>,
}

/// A write whose content is stored, waiting for the entry's new index
/// metadata.
pub struct WriteCurrent {
    pub cache: PathBuf,
    pub key: String,
    pub ttl: Duration,
    pub previous: Option<Metadata>,
    /// The integrity hash of the written content.
    pub integrity: Integrity,
}

/// A write that waits for the index insertion of the entry with its expiry.
pub struct WriteIndex {
    pub integrity: Integrity,
}

impl WriteOp {
    pub fn new(cache: PathBuf, key: String, ttl: Duration) -> (op: WriteOp)
        ensures
            op.cache == cache,
            op.key == key,
            op.ttl == ttl,
    {
        WriteOp { cache, key, ttl }
    }

    /// The step after looking up the entry's present metadata: an error ends
    /// the write; otherwise the metadata found, if any, is kept for later.
    pub open spec fn next(self, looked_up: Result<Option<Metadata>, CacheError>) -> Result<WriteContent, Error> {
        match looked_up {
            Err(e) => Err(Error::Cacache(e)),
            Ok(previous) => Ok(WriteContent { cache: self.cache, key: self.key, ttl: self.ttl, previous }),
        }
    }

    pub fn on_previous(self, looked_up: Result<Option<Metadata>, CacheError>) -> (r: Result<WriteContent, Error>)
        ensures
            r == self.next(looked_up),
    {
        match looked_up {
            Err(e) => Err(Error::Cacache(e)),
            Ok(previous) => Ok(WriteContent { cache: self.cache, key: self.key, ttl: self.ttl, previous }),
        }
    }
}

impl WriteContent {
    /// The step after writing the content: an error ends the write; otherwise
    /// the content's integrity hash is kept for the result.
    pub open spec fn next(self, written: Result<Integrity, CacheError>) -> Result<WriteCurrent, Error> {
        match written {
            Err(e) => Err(Error::Cacache(e)),
            Ok(integrity) => Ok(
                WriteCurrent {
                    cache: self.cache,
                    key: self.key,
                    ttl: self.ttl,
                    previous: self.previous,
                    integrity,
                },
            ),
        }
    }

    pub fn on_written(self, written: Result<Integrity, CacheError>) -> (r: Result<WriteCurrent, Error>)
        ensures
            r == self.next(written),
    {
        match written {
            Err(e) => Err(Error::Cacache(e)),
            Ok(integrity) => Ok(
                WriteCurrent {
                    cache: self.cache,
                    key: self.key,
                    ttl: self.ttl,
                    previous: self.previous,
                    integrity,
                },
            ),
        }
    }
}

impl WriteCurrent {
    /// `r` is the step after looking up the new metadata at time `now`: an
    /// error ends the write, as does a missing entry, reported missing; with
    /// the entry found, the index is to record it with the expiry of `ttl`
    /// from `now` added to the metadata it had before the write.
    pub open spec fn next_at(
        self,
        looked_up: Result<Option<Metadata>, CacheError>,
        now: u64,
        r: Result<(WriteOpts, WriteIndex), Error>,
    ) -> bool {
        match looked_up {
            Err(e) => r == Err::<(WriteOpts, WriteIndex), Error>(Error::Cacache(e)),
            Ok(None) => r == Err::<(WriteOpts, WriteIndex), Error>(
                Error::EntryNotFoundOrExpired(self.cache, self.key),
            ),
            Ok(Some(current)) => match r {
                Ok((opts, index)) => {
                    &&& index_options(
                        opts,
                        current,
                        self.previous,
                        expiry_after(now, spec_duration_millis(self.ttl)),
                    )
                    &&& index.integrity == self.integrity
                },
                Err(_) => false,
            },
        }
    }

    /// Takes the outcome of the lookup of the new metadata, starting the
    /// time-to-live at `now`.
    pub fn on_current_at(self, looked_up: Result<Option<Metadata>, CacheError>, now: u64) -> (r: Result<
        (WriteOpts, WriteIndex),
        Error,
    >)
        ensures
            self.next_at(looked_up, now, r),
    {
        match looked_up {
            Err(e) => Err(Error::Cacache(e)),
            Ok(None) => Err(entry_not_found(self.cache, self.key)),
            Ok(Some(current)) => {
                let expires_at = expiry_from(now, self.ttl);
                let opts = write_opts_at(current, expires_at, self.previous);
                Ok((opts, WriteIndex { integrity: self.integrity }))
            },
        }
    }

    /// Takes the outcome of the lookup of the new metadata, starting the
    /// time-to-live at the system clock's reading in Unix milliseconds.
    pub fn on_current(self, looked_up: Result<Option<Metadata>, CacheError>) -> (r: Result<
        (WriteOpts, WriteIndex),
        Error,
    >)
        ensures
            exists|elapsed: Result<Duration, SystemTimeError>|
                self.next_at(looked_up, #[trigger] epoch_millis(elapsed), r),
    {
        let ghost this = self;
        let ghost any_reading: Result<Duration, SystemTimeError> = arbitrary();
        match looked_up {
            Err(e) => {
                let r = Err(Error::Cacache(e));
                assert(this.next_at(looked_up, epoch_millis(any_reading), r));
                r
            },
            Ok(None) => {
                let r = Err(entry_not_found(self.cache, self.key));
                assert(this.next_at(looked_up, epoch_millis(any_reading), r));
                r
            },
            Ok(Some(current)) => {
                let ghost cur = current;
                let opts = write_opts(current, self.ttl, self.previous);
                let r = Ok((opts, WriteIndex { integrity: self.integrity }));
                proof {
                    let elapsed = choose|elapsed: Result<Duration, SystemTimeError>|
                        index_options(opts, cur, this.previous, expiry_after(#[trigger] epoch_millis(elapsed), spec_duration_millis(this.ttl)));
                    assert(this.next_at(looked_up, epoch_millis(elapsed), r));
                }
                r
            },
        }
    }
}

impl WriteIndex {
    /// The outcome of the write: the content's integrity hash once the index
    /// insertion succeeded, else its error.
    pub open spec fn outcome(self, inserted: Result<Integrity, CacheError>) -> Result<Integrity, Error> {
        match inserted {
            Ok(_) => Ok(self.integrity),
            Err(e) => Err(Error::Cacache(e)),
        }
    }

    pub fn on_inserted(self, inserted: Result<Integrity, CacheError>) -> (r: Result<Integrity, Error>)
        ensures
            r == self.outcome(inserted),
    {
        match inserted {
            Ok(_) => Ok(self.integrity),
            Err(e) => Err(Error::Cacache(e)),
        }
    }
}

/// A write whose steps all succeed returns the integrity hash of the written
/// content.
pub proof fn law_write_returns_content_integrity(content: WriteContent, integrity: Integrity, inserted: Integrity)
    ensures
        content.next(Ok(integrity)) matches Ok(current) && (WriteIndex {
            integrity: current.integrity,
        }).outcome(Ok(inserted)) == Ok::<Integrity, Error>(integrity),
{
}

/// Each step of a write forwards the error of its cache operation, and a
/// content write whose entry is then not found reports it missing.
pub proof fn law_write_errors(
    op: WriteOp,
    content: WriteContent,
    current: WriteCurrent,
    index: WriteIndex,
    error: CacheError,
    now: u64,
)
    ensures
        op.next(Err(error)) == Err::<WriteContent, Error>(Error::Cacache(error)),
        content.next(Err(error)) == Err::<WriteCurrent, Error>(Error::Cacache(error)),
        current.next_at(Err(error), now, Err(Error::Cacache(error))),
        current.next_at(Ok(None), now, Err(Error::EntryNotFoundOrExpired(current.cache, current.key))),
        index.outcome(Err(error)) == Err::<Integrity, Error>(Error::Cacache(error)),
{
}

/// The index insertion of a write records the expiry of `ttl` from the time it
/// is judged at, keeps every other key of the JSON metadata the entry had
/// before the write, and keeps its raw metadata.
pub proof fn law_write_keeps_previous_metadata(
    step: WriteCurrent,
    current: Metadata,
    now: u64,
    r: Result<(WriteOpts, WriteIndex), Error>,
    key: Seq<char>,
)
    requires
        step.next_at(Ok(Some(current)), now, r),
        key != EXPIRES_AT_MILLIS@,
    ensures
        r matches Ok((opts, index)) && {
            &&& recorded_expiry(opts.metadata) == Some(expiry_after(now, spec_duration_millis(step.ttl)))
            &&& opts.metadata.lookup(key) == match step.previous {
                Some(p) => p.metadata.lookup(key),
                None => None,
            }
            &&& opts.raw_metadata == match step.previous {
                Some(p) => p.raw_metadata,
                None => None,
            }
            &&& opts.integrity == current.integrity
            &&& index.integrity == step.integrity
        },
{
    let (opts, index) = r.unwrap();
    let e = expiry_after(now, spec_duration_millis(step.ttl));
    law_recorded_expiry_read_back(metadata_of(step.previous), e, opts.metadata, now);
    law_other_metadata_kept(metadata_of(step.previous), e, opts.metadata, key);
}

/// The index insertion that a write asks for, once the entry is found after
/// its content was written, records the integrity and size of that entry and
/// the integrity the write returns, keeps every other key of the entry's
/// previous object metadata and its raw metadata, and records as expiry the
/// clock's reading plus `ttl`, in Unix milliseconds: where nothing saturates,
/// the whole milliseconds from the epoch to the reading plus those of `ttl`.
pub proof fn law_write_expiry_in_clock_millis(
    step: WriteCurrent,
    current: Metadata,
    r: Result<(WriteOpts, WriteIndex), Error>,
    key: Seq<char>,
)
    requires
        exists|elapsed: Result<Duration, SystemTimeError>|
            step.next_at(Ok(Some(current)), #[trigger] epoch_millis(elapsed), r),
    ensures
        r matches Ok((opts, index)) && {
            &&& opts.integrity == current.integrity
            &&& opts.size == current.size
            &&& index.integrity == step.integrity
            &&& opts.raw_metadata == raw_metadata_of(step.previous)
            &&& (key != EXPIRES_AT_MILLIS@ ==> opts.metadata.lookup(key) == match metadata_of(step.previous) {
                Some(x) => x.lookup(key),
                None => None,
            })
            &&& exists|elapsed: Result<Duration, SystemTimeError>| {
                &&& recorded_expiry(opts.metadata) == Some(
                    expiry_after(#[trigger] epoch_millis(elapsed), spec_duration_millis(step.ttl)),
                )
                &&& (elapsed matches Ok(d) ==> (duration_as_millis(d) + duration_as_millis(step.ttl) <= u64::MAX
                    ==> recorded_expiry(opts.metadata) == Some(
                    (duration_as_millis(d) + duration_as_millis(step.ttl)) as u64,
                )))
                &&& (elapsed is Err ==> recorded_expiry(opts.metadata) == Some(spec_duration_millis(step.ttl)))
            }
        },
{
    let elapsed = choose|elapsed: Result<Duration, SystemTimeError>|
        step.next_at(Ok(Some(current)), #[trigger] epoch_millis(elapsed), r);
    let (opts, index) = r.unwrap();
    assert(index_options(opts, current, step.previous, expiry_after(epoch_millis(elapsed), spec_duration_millis(step.ttl))));
    law_write_opts_expiry(current, step.ttl, step.previous, opts, key);
}

} // verus!
