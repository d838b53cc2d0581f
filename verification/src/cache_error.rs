use vstd::prelude::*;

use cacache::Error as CacheError;

verus! {

/// An error of the underlying cache, carried through unchanged.
#[verifier::external_type_specification]
#[verifier::external_body]
pub struct ExCacheError(CacheError);

} // verus!
