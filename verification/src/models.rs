//! The rows of the data model and what is computed from them.
//!
//! Storage itself is someone else's: every function here works on rows that
//! were read before the call and says which rows are to be written after it.

use vstd::prelude::*;

pub mod completion;
pub mod group;
pub mod task;
pub mod user;

verus! {

/// Why a read or write of the storage failed.
#[derive(Clone, Copy, Debug, PartialEq, Eq, Structural)]
pub enum StoreError {
    /// The write broke a uniqueness rule: what it would store is there
    /// already.
    Conflict,
    /// Anything else: the failure is not of the caller's making.
    Failed,
}

} // verus!
