use crate::entry::{Metadata, WriteOpts};
use crate::error::Error;
use crate::read::{ReadOp, ReadStep};
use crate::time::{expiry_after, spec_duration_millis};
use crate::ttl::{law_recorded_expiry_read_back, metadata_of};
use crate::write::{WriteCurrent, WriteIndex};
use vstd::prelude::*;

verus! {

/// An entry written with a time-to-live is read back live until its expiry
/// and as expired after it: a read that finds the JSON metadata that the
/// write's index insertion recorded fetches the content at any time up to the
/// expiry of the time-to-live from the write, its start included, and asks for
/// the entry's removal at any later time.
pub proof fn law_written_entry_live_until_expiry(
    write: WriteCurrent,
    current: Metadata,
    written_at: u64,
    r: Result<(WriteOpts, WriteIndex), Error>,
    read: ReadOp,
    found: Metadata,
    read_at: u64,
)
    requires
        write.next_at(Ok(Some(current)), written_at, r),
        r matches Ok((opts, _)) && found.metadata == opts.metadata,
    ensures
        read.next_at(Ok(Some(found)), read_at) is Fetch <==> read_at <= expiry_after(
            written_at,
            spec_duration_millis(write.ttl),
        ),
        read.next_at(Ok(Some(found)), read_at) is Remove <==> read_at > expiry_after(
            written_at,
            spec_duration_millis(write.ttl),
        ),
        read_at == written_at ==> read.next_at(Ok(Some(found)), read_at) is Fetch,
{
    let (opts, _) = r.unwrap();
    let e = expiry_after(written_at, spec_duration_millis(write.ttl));
    law_recorded_expiry_read_back(metadata_of(write.previous), e, opts.metadata, read_at);
}

} // verus!
