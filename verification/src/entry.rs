use crate::json::Json;
use cacache::Integrity;
use vstd::prelude::*;

verus! {

/// The integrity hash of stored content, carried through unchanged.
#[verifier::external_type_specification]
#[verifier::external_body]
pub struct ExIntegrity(Integrity);

/// An index entry of the cache, as a lookup or a listing returns it.
#[derive(Debug)]
pub struct Metadata {
    /// Key this entry is stored under.
    pub key: String,
    /// Integrity hash for the stored data.
    pub integrity: Integrity,
    /// Timestamp in unix milliseconds when this entry was written.
    pub time: u128,
    /// Size of data associated with this entry.
    pub size: usize,
    /// Arbitrary JSON associated with this entry.
    pub metadata: Json,
    /// Raw metadata in binary form.
    pub raw_metadata: Option<Vec<u8>>,
}

/// What an index insertion is asked to record for a key.
#[derive(Debug)]
pub struct WriteOpts {
    pub integrity: Integrity,
    pub size: usize,
    pub metadata: Json,
    /// Recorded only where present.
    pub raw_metadata: Option<Vec<u8>>,
}

} // verus!
