//! Names of the asynchronous copy macros of the kernel header.

use vstd::prelude::*;

verus! {

/// Copy of 16-byte pieces to shared memory, past the first-level cache. Takes
/// the destination, the source, the number of bytes, and a predicate.
pub const CP_ASYNC_CG_16: &'static str = "ATOMR_CP_ASYNC_CG_16";

/// Copy of 4-byte pieces to shared memory, through all the caches.
pub const CP_ASYNC_CA_4: &'static str = "ATOMR_CP_ASYNC_CA_4";

/// Close of a group of copies.
pub const CP_ASYNC_COMMIT_GROUP: &'static str = "ATOMR_CP_ASYNC_COMMIT_GROUP";

/// Wait for all but the last groups of copies.
pub const CP_ASYNC_WAIT_GROUP: &'static str = "ATOMR_CP_ASYNC_WAIT_GROUP";

/// Bulk copy to the shared memory of a cluster.
pub const CP_ASYNC_BULK: &'static str = "ATOMR_CP_ASYNC_BULK";

} // verus!
