//! A verified core for a local game-library cache.
//!
//! The library keeps a persistent, keyed cache of a user's owned titles,
//! combining an inventory service (owned titles with playtime metadata) and a
//! compatibility-rating service (one categorical tier per title).  The
//! decoding rules, the reconciliation of both sources into one record, the
//! upsert semantics of the store, and the run's state machine live here, each
//! with a contract.  Network calls and the command line stay outside.

use vstd::prelude::*;

pub mod decode;
pub mod json;
pub mod records;
pub mod store;
pub mod sync;
pub mod tier;
pub mod titles;

verus! {

/// The kinds of failure a sync run can surface: a transport or non-success
/// outcome of the inventory fetch, a payload that does not have the expected
/// shape, or a failure of the local store.
#[derive(Clone, Copy, Debug, PartialEq, Eq, Structural)]
pub enum SyncError {
    Network,
    Decode,
    Storage,
}

} // verus!
