//! Failures of repository operations.
use vstd::prelude::*;

use crate::domain::StatusTransitionError;

verus! {

/// A failure of the snapshot store.
#[derive(Clone, Debug, PartialEq)]
pub enum StoreError {
    /// The store could not be read or written.
    Io(String),
    /// What the store holds is not a snapshot.
    Parse(String),
}

/// Why a repository operation failed. None of them is retried.
#[derive(Clone, Debug, PartialEq)]
pub enum DaoError {
    /// No epic has this id.
    EpicNotFound(u32),
    /// No story has this id.
    StoryNotFound(u32),
    /// The story exists but the epic does not list it.
    StoryNotInEpic { epic_id: u32, story_id: u32 },
    /// The status lifecycle rejected the change.
    Transition(StatusTransitionError),
    /// Every id that fits in a `u32` has been handed out.
    IdsExhausted,
    /// The snapshot store failed.
    Store(StoreError),
}

} // verus!
