//! The repository: each operation reads the whole snapshot from a store,
//! changes it, and writes it back only when the change succeeded.
use vstd::prelude::*;

use crate::error::{DaoError, StoreError};
use crate::models::{DBState, Epic, Snapshot, Status, Story};
use crate::snapshot::{
    create_epic_outcome, create_story_outcome, delete_epic_outcome, delete_story_outcome,
    update_epic_status_outcome, update_story_status_outcome,
};

verus! {

/// A store that holds one snapshot, read and written whole.
pub trait Database {
    /// The snapshot that the store holds.
    spec fn stored(&self) -> Snapshot;

    /// The store cannot fail: every read and write succeeds.
    spec fn reliable(&self) -> bool;

    /// Reads the snapshot.
    fn retrieve(&self) -> (r: Result<DBState, StoreError>)
        ensures
            r matches Ok(state) ==> state@ == self.stored(),
            self.reliable() ==> r is Ok,
    ;

    /// Writes `state`; once this succeeds, the store holds it.
    fn persist(&mut self, state: &DBState) -> (r: Result<(), StoreError>)
        ensures
            r is Ok ==> final(self).stored() == state@,
            old(self).reliable() ==> r is Ok && final(self).reliable(),
    ;
}

/// A store that keeps the last snapshot written in memory. A program that
/// keeps its snapshot elsewhere loads it into one of these and saves what it
/// holds after each change.
pub struct MockDB {
    last_written_state: DBState,
}

impl MockDB {
    /// A store that holds the empty snapshot.
    pub fn new() -> (r: Self)
        ensures
            r.stored() == Snapshot::empty(),
            r.reliable(),
    {
        Self { last_written_state: DBState::empty() }
    }

    /// A store that holds `state`.
    pub fn with_state(state: DBState) -> (r: Self)
        ensures
            r.stored() == state@,
            r.reliable(),
    {
        Self { last_written_state: state }
    }

    /// The snapshot that the store holds.
    pub fn state(&self) -> (r: &DBState)
        ensures
            r@ == self.stored(),
    {
        &self.last_written_state
    }
}

impl Database for MockDB {
    closed spec fn stored(&self) -> Snapshot {
        self.last_written_state@
    }

    open spec fn reliable(&self) -> bool {
        true
    }

    fn retrieve(&self) -> (r: Result<DBState, StoreError>)
        ensures
            r matches Ok(state) && state@ == self.stored(),
    {
        Ok(self.last_written_state.copy())
    }

    fn persist(&mut self, state: &DBState) -> (r: Result<(), StoreError>)
        ensures
            r is Ok && final(self).stored() == state@,
    {
        self.last_written_state = state.copy();
        Ok(())
    }
}

/// The repository over a snapshot store.
pub struct JiraDAO<D: Database> {
    database: D,
}

impl<D: Database> View for JiraDAO<D> {
    type V = Snapshot;

    /// The snapshot that the store holds.
    closed spec fn view(&self) -> Snapshot {
        self.database.stored()
    }
}

impl<D: Database> JiraDAO<D> {
    /// The store cannot fail.
    pub closed spec fn reliable(&self) -> bool {
        self.database.reliable()
    }

    pub fn new(database: D) -> (r: Self)
        ensures
            r@ == database.stored(),
            r.reliable() == database.reliable(),
    {
        JiraDAO { database }
    }

    /// Reads the current snapshot.
    pub fn read_db(&self) -> (r: Result<DBState, StoreError>)
        ensures
            r matches Ok(state) ==> state@ == self@,
            self.reliable() ==> r is Ok,
    {
        self.database.retrieve()
    }

    /// The epic `epic_id`, if there is one.
    pub fn get_epic(&self, epic_id: u32) -> (r: Result<Option<Epic>, StoreError>)
        ensures
            r matches Ok(found) ==> match found {
                Some(e) => self@.epics.contains_key(epic_id) && e@ == self@.epics[epic_id],
                None => !self@.epics.contains_key(epic_id),
            },
            self.reliable() ==> r is Ok,
    {
        let mut state = self.database.retrieve()?;
        Ok(state.epics.remove(&epic_id))
    }

    /// The story `story_id`, if there is one.
    pub fn get_story(&self, story_id: u32) -> (r: Result<Option<Story>, StoreError>)
        ensures
            r matches Ok(found) ==> match found {
                Some(s) => self@.stories.contains_key(story_id) && s@ == self@.stories[story_id],
                None => !self@.stories.contains_key(story_id),
            },
            self.reliable() ==> r is Ok,
    {
        let mut state = self.database.retrieve()?;
        Ok(state.stories.remove(&story_id))
    }

    /// Writes `state` once `result` says the change succeeded.
    fn commit<T>(&mut self, state: &DBState, result: Result<T, DaoError>) -> (r: Result<T, DaoError>)
        requires
            !(result matches Err(DaoError::Store(_))),
        ensures
            r matches Err(DaoError::Store(_)) || (r == result && (result is Ok ==> final(self)@ == state@)
                && (result is Err ==> final(self)@ == old(self)@)),
            old(self).reliable() ==> final(self).reliable() && !(r matches Err(DaoError::Store(_))),
    {
        match result {
            Ok(v) => match self.database.persist(state) {
                Ok(()) => Ok(v),
                Err(e) => Err(DaoError::Store(e)),
            },
            Err(e) => Err(e),
        }
    }

    /// Adds an epic under the next id and returns that id; see
    /// [`DBState::create_epic`].
    pub fn create_epic(&mut self, epic: Epic) -> (r: Result<u32, DaoError>)
        ensures
            r matches Err(DaoError::Store(_)) || ({
                let (res, next) = create_epic_outcome(old(self)@, epic@);
                r == res && final(self)@ == next
            }),
            old(self).reliable() ==> final(self).reliable() && !(r matches Err(DaoError::Store(_))),
    {
        let mut state = match self.database.retrieve() {
            Ok(s) => s,
            Err(e) => {
                return Err(DaoError::Store(e));
            },
        };
        let result = state.create_epic(epic);
        self.commit(&state, result)
    }

    /// Adds a story to the epic `epic_id` under the next id and returns that
    /// id; see [`DBState::create_story`].
    pub fn create_story(&mut self, story: Story, epic_id: u32) -> (r: Result<u32, DaoError>)
        ensures
            r matches Err(DaoError::Store(_)) || ({
                let (res, next) = create_story_outcome(old(self)@, story@, epic_id);
                r == res && final(self)@ == next
            }),
            old(self).reliable() ==> final(self).reliable() && !(r matches Err(DaoError::Store(_))),
    {
        let mut state = match self.database.retrieve() {
            Ok(s) => s,
            Err(e) => {
                return Err(DaoError::Store(e));
            },
        };
        let result = state.create_story(story, epic_id);
        self.commit(&state, result)
    }

    /// Removes an epic and its stories; see [`DBState::delete_epic`].
    pub fn delete_epic(&mut self, epic_id: u32) -> (r: Result<(), DaoError>)
        ensures
            r matches Err(DaoError::Store(_)) || ({
                let (res, next) = delete_epic_outcome(old(self)@, epic_id);
                r == res && final(self)@ == next
            }),
            old(self).reliable() ==> final(self).reliable() && !(r matches Err(DaoError::Store(_))),
    {
        let mut state = match self.database.retrieve() {
            Ok(s) => s,
            Err(e) => {
                return Err(DaoError::Store(e));
            },
        };
        let result = state.delete_epic(epic_id);
        self.commit(&state, result)
    }

    /// Removes a story that the epic `epic_id` lists; see
    /// [`DBState::delete_story`].
    pub fn delete_story(&mut self, epic_id: u32, story_id: u32) -> (r: Result<(), DaoError>)
        ensures
            r matches Err(DaoError::Store(_)) || ({
                let (res, next) = delete_story_outcome(old(self)@, epic_id, story_id);
                r == res && final(self)@ == next
            }),
            old(self).reliable() ==> final(self).reliable() && !(r matches Err(DaoError::Store(_))),
    {
        let mut state = match self.database.retrieve() {
            Ok(s) => s,
            Err(e) => {
                return Err(DaoError::Store(e));
            },
        };
        let result = state.delete_story(epic_id, story_id);
        self.commit(&state, result)
    }

    /// Moves an epic toward `status` through the lifecycle; see
    /// [`DBState::update_epic_status`].
    pub fn update_epic_status(&mut self, epic_id: u32, status: Status) -> (r: Result<(), DaoError>)
        ensures
            r matches Err(DaoError::Store(_)) || ({
                let (res, next) = update_epic_status_outcome(old(self)@, epic_id, status);
                r == res && final(self)@ == next
            }),
            old(self).reliable() ==> final(self).reliable() && !(r matches Err(DaoError::Store(_))),
    {
        let mut state = match self.database.retrieve() {
            Ok(s) => s,
            Err(e) => {
                return Err(DaoError::Store(e));
            },
        };
        let result = state.update_epic_status(epic_id, status);
        self.commit(&state, result)
    }

    /// Moves a story toward `status` through the lifecycle; see
    /// [`DBState::update_story_status`].
    pub fn update_story_status(&mut self, story_id: u32, status: Status) -> (r: Result<(), DaoError>)
        ensures
            r matches Err(DaoError::Store(_)) || ({
                let (res, next) = update_story_status_outcome(old(self)@, story_id, status);
                r == res && final(self)@ == next
            }),
            old(self).reliable() ==> final(self).reliable() && !(r matches Err(DaoError::Store(_))),
    {
        let mut state = match self.database.retrieve() {
            Ok(s) => s,
            Err(e) => {
                return Err(DaoError::Store(e));
            },
        };
        let result = state.update_story_status(story_id, status);
        self.commit(&state, result)
    }
}

} // verus!
