//! Per-entry time-to-live on top of a content-addressed disk cache.
//!
//! The index metadata of an entry may carry an expiry time, in Unix
//! milliseconds, under the key `expires_at_millis`. Reads treat an entry whose
//! expiry lies in the past as missing and ask for its removal from the index;
//! listings leave such entries out and ask for their removal too; writes keep
//! whatever JSON and raw metadata the entry already had and add or update the
//! expiry.
//!
//! The library holds the decisions. The disk work is done by the caller, which
//! performs the cache operation each step asks for and hands its outcome to
//! that step:
//!
//! - `read`: the index lookup goes to `ReadOp::on_metadata`; an expired entry
//!   is removed (`ReadRemoval::on_removed`), a live one is read
//!   (`ReadFetch::on_content`).
//! - `write`: the lookup of the present metadata goes to
//!   `WriteOp::on_previous`, the content write to `WriteContent::on_written`,
//!   the lookup of the new metadata to `WriteCurrent::on_current`, which gives
//!   the index insertion to make, and its outcome to `WriteIndex::on_inserted`.
//! - `list`: each listed item goes to `list_entry`; an expired entry is
//!   removed (`ListRemoval::on_removed`).

mod cache_error;
pub mod entry;
pub mod error;
pub mod json;
pub mod laws;
pub mod list;
pub mod read;
pub mod time;
pub mod ttl;
pub mod write;

pub use entry::{Metadata, WriteOpts};
pub use error::Error;
pub use json::{Json, JsonNumber};
pub use list::{list_entry, list_entry_at, ListRemoval, ListStep};
pub use read::{ReadFetch, ReadOp, ReadRemoval, ReadStep};
pub use time::{duration_millis, expires_at_millis, expiry_from, millis_since_epoch, now_millis};
pub use ttl::{is_expired, is_expired_at, metadata_with_expiry, EXPIRES_AT_MILLIS};
pub use write::{WriteContent, WriteCurrent, WriteIndex, WriteOp};
