//! The repository operations on one snapshot. Each either fails and leaves
//! the snapshot as it was, or applies its whole change.
use std::collections::HashMap;

use itertools::Itertools;
use vstd::prelude::*;

use crate::domain::state::{apply_operation, transition_result};
use crate::domain::Operation;
use crate::error::DaoError;
use crate::models::{DBState, Epic, EpicView, Snapshot, Status, Story, StoryView};

verus! {

/// `ids` with `id` appended, unless it is already there.
pub open spec fn with_id(ids: Seq<u32>, id: u32) -> Seq<u32> {
    if ids.contains(id) {
        ids
    } else {
        ids.push(id)
    }
}

/// `ids` with every occurrence of `id` taken out, the rest in order.
pub open spec fn without_id(ids: Seq<u32>, id: u32) -> Seq<u32>
    decreases ids.len(),
{
    if ids.len() == 0 {
        ids
    } else if ids.last() == id {
        without_id(ids.drop_last(), id)
    } else {
        without_id(ids.drop_last(), id).push(ids.last())
    }
}

/// `ids` is in strictly ascending order.
pub open spec fn ascending(ids: Seq<u32>) -> bool {
    forall|i: int, j: int| 0 <= i < j < ids.len() ==> ids[i] < ids[j]
}

/// Relies on `HashMap::keys`, which yields each key once, and on
/// `Itertools::sorted`, which returns the items it is given in ascending
/// order.
#[verifier::external_body]
pub(crate) fn sorted_keys<V>(m: &HashMap<u32, V>) -> (r: Vec<u32>)
    ensures
        ascending(r@),
        forall|k: u32| r@.contains(k) <==> m@.contains_key(k),
{
    m.keys().copied().sorted().collect()
}

/// What `create_epic` returns on `s`, and the snapshot after it.
pub open spec fn create_epic_outcome(s: Snapshot, epic: EpicView) -> (Result<u32, DaoError>, Snapshot) {
    if s.last_item_id == u32::MAX {
        (Err(DaoError::IdsExhausted), s)
    } else {
        let id = (s.last_item_id + 1) as u32;
        let stored = EpicView {
            name: epic.name,
            description: epic.description,
            status: Status::Open,
            stories: seq![],
        };
        (Ok(id), Snapshot { last_item_id: id, epics: s.epics.insert(id, stored), stories: s.stories })
    }
}

/// What `create_story` returns on `s`, and the snapshot after it.
pub open spec fn create_story_outcome(s: Snapshot, story: StoryView, epic_id: u32) -> (
    Result<u32, DaoError>,
    Snapshot,
) {
    if !s.epics.contains_key(epic_id) {
        (Err(DaoError::EpicNotFound(epic_id)), s)
    } else if s.last_item_id == u32::MAX {
        (Err(DaoError::IdsExhausted), s)
    } else {
        let id = (s.last_item_id + 1) as u32;
        let epic = s.epics[epic_id];
        let stored = StoryView { name: story.name, description: story.description, status: Status::Open };
        (
            Ok(id),
            Snapshot {
                last_item_id: id,
                epics: s.epics.insert(epic_id, EpicView { stories: with_id(epic.stories, id), ..epic }),
                stories: s.stories.insert(id, stored),
            },
        )
    }
}

/// What `delete_epic` returns on `s`, and the snapshot after it.
pub open spec fn delete_epic_outcome(s: Snapshot, epic_id: u32) -> (Result<(), DaoError>, Snapshot) {
    if !s.epics.contains_key(epic_id) {
        (Err(DaoError::EpicNotFound(epic_id)), s)
    } else {
        (
            Ok(()),
            Snapshot {
                last_item_id: s.last_item_id,
                epics: s.epics.remove(epic_id),
                stories: s.stories.remove_keys(s.epics[epic_id].stories.to_set()),
            },
        )
    }
}

/// What `delete_story` returns on `s`, and the snapshot after it.
pub open spec fn delete_story_outcome(s: Snapshot, epic_id: u32, story_id: u32) -> (
    Result<(), DaoError>,
    Snapshot,
) {
    if !s.epics.contains_key(epic_id) {
        (Err(DaoError::EpicNotFound(epic_id)), s)
    } else if !s.stories.contains_key(story_id) {
        (Err(DaoError::StoryNotFound(story_id)), s)
    } else if !s.epics[epic_id].stories.contains(story_id) {
        (Err(DaoError::StoryNotInEpic { epic_id, story_id }), s)
    } else {
        let epic = s.epics[epic_id];
        (
            Ok(()),
            Snapshot {
                last_item_id: s.last_item_id,
                epics: s.epics.insert(epic_id, EpicView { stories: without_id(epic.stories, story_id), ..epic }),
                stories: s.stories.remove(story_id),
            },
        )
    }
}

/// What `update_epic_status` returns on `s`, and the snapshot after it: the
/// lifecycle operation that leads to `status` is applied to the epic.
pub open spec fn update_epic_status_outcome(s: Snapshot, epic_id: u32, status: Status) -> (
    Result<(), DaoError>,
    Snapshot,
) {
    if !s.epics.contains_key(epic_id) {
        (Err(DaoError::EpicNotFound(epic_id)), s)
    } else {
        let epic = s.epics[epic_id];
        match transition_result(epic.status, Operation::spec_toward(status)) {
            Ok(next) => (
                Ok(()),
                Snapshot { epics: s.epics.insert(epic_id, EpicView { status: next, ..epic }), ..s },
            ),
            Err(e) => (Err(DaoError::Transition(e)), s),
        }
    }
}

/// What `update_story_status` returns on `s`, and the snapshot after it: the
/// lifecycle operation that leads to `status` is applied to the story.
pub open spec fn update_story_status_outcome(s: Snapshot, story_id: u32, status: Status) -> (
    Result<(), DaoError>,
    Snapshot,
) {
    if !s.stories.contains_key(story_id) {
        (Err(DaoError::StoryNotFound(story_id)), s)
    } else {
        let story = s.stories[story_id];
        match transition_result(story.status, Operation::spec_toward(status)) {
            Ok(next) => (
                Ok(()),
                Snapshot { stories: s.stories.insert(story_id, StoryView { status: next, ..story }), ..s },
            ),
            Err(e) => (Err(DaoError::Transition(e)), s),
        }
    }
}

/// Whether `ids` holds `id`.
pub fn contains_id(ids: &Vec<u32>, id: u32) -> (r: bool)
    ensures
        r == ids@.contains(id),
{
    let mut i: usize = 0;
    while i < ids.len()
        invariant
            i <= ids.len(),
            forall|j: int| 0 <= j < i ==> ids@[j] != id,
        decreases ids.len() - i,
    {
        if ids[i] == id {
            return true;
        }
        i = i + 1;
    }
    false
}

/// Appends `id` to `ids` unless it is already there.
pub fn add_id(ids: &mut Vec<u32>, id: u32)
    ensures
        final(ids)@ == with_id(old(ids)@, id),
{
    if !contains_id(ids, id) {
        ids.push(id);
    }
}

/// A copy of `ids` without any occurrence of `id`.
pub fn remove_id(ids: &Vec<u32>, id: u32) -> (r: Vec<u32>)
    ensures
        r@ == without_id(ids@, id),
{
    let mut r: Vec<u32> = Vec::new();
    let mut i: usize = 0;
    while i < ids.len()
        invariant
            i <= ids.len(),
            r@ == without_id(ids@.subrange(0, i as int), id),
        decreases ids.len() - i,
    {
        assert(ids@.subrange(0, i + 1).drop_last() =~= ids@.subrange(0, i as int));
        if ids[i] != id {
            r.push(ids[i]);
        }
        i = i + 1;
    }
    assert(ids@.subrange(0, ids.len() as int) =~= ids@);
    r
}

impl DBState {
    /// Adds an epic under the next id and returns that id. Only the name and
    /// description of `epic` are kept: a new epic is open and has no stories.
    pub fn create_epic(&mut self, epic: Epic) -> (r: Result<u32, DaoError>)
        ensures
            ({
                let (res, next) = create_epic_outcome(old(self)@, epic@);
                r == res && final(self)@ == next
            }),
    {
        if self.last_item_id == u32::MAX {
            return Err(DaoError::IdsExhausted);
        }
        let id = self.last_item_id + 1;
        let stored = Epic::new(epic.name, epic.description);
        self.epics.insert(id, stored);
        self.last_item_id = id;
        proof {
            let next = create_epic_outcome(old(self)@, epic@).1;
            assert(self@.epics =~= next.epics);
            assert(self@.stories =~= next.stories);
        }
        Ok(id)
    }
    /// Adds a story under the next id to the epic `epic_id` and returns that
    /// id. Only the name and description of `story` are kept: a new story is
    /// open. The epic lists the new id once, after its earlier stories.
    pub fn create_story(&mut self, story: Story, epic_id: u32) -> (r: Result<u32, DaoError>)
        ensures
            ({
                let (res, next) = create_story_outcome(old(self)@, story@, epic_id);
                r == res && final(self)@ == next
            }),
    {
        if !self.epics.contains_key(&epic_id) {
            return Err(DaoError::EpicNotFound(epic_id));
        }
        if self.last_item_id == u32::MAX {
            return Err(DaoError::IdsExhausted);
        }
        let id = self.last_item_id + 1;
        let ghost before = self@;
        let mut epic = match self.epics.remove(&epic_id) {
            Some(e) => e,
            None => {
                return Err(DaoError::EpicNotFound(epic_id));
            },
        };
        add_id(&mut epic.stories, id);
        self.epics.insert(epic_id, epic);
        self.stories.insert(id, Story::new(story.name, story.description));
        self.last_item_id = id;
        proof {
            let next = create_story_outcome(before, story@, epic_id).1;
            assert(self@.epics =~= next.epics);
            assert(self@.stories =~= next.stories);
        }
        Ok(id)
    }

    /// Removes the epic `epic_id` and every story it lists.
    pub fn delete_epic(&mut self, epic_id: u32) -> (r: Result<(), DaoError>)
        ensures
            ({
                let (res, next) = delete_epic_outcome(old(self)@, epic_id);
                r == res && final(self)@ == next
            }),
    {
        let ghost before = self@;
        let epic = match self.epics.remove(&epic_id) {
            Some(e) => e,
            None => {
                proof {
                    assert(self@ =~= before);
                }
                return Err(DaoError::EpicNotFound(epic_id));
            },
        };
        let ghost stories0 = self.stories@;
        let ghost epics0 = self.epics@;
        let mut i: usize = 0;
        while i < epic.stories.len()
            invariant
                i <= epic.stories.len(),
                self.epics@ == epics0,
                self.last_item_id == before.last_item_id,
                forall|k: u32|
                    #[trigger] self.stories@.contains_key(k) <==> (stories0.contains_key(k)
                        && !epic.stories@.subrange(0, i as int).contains(k)),
                forall|k: u32| #[trigger] self.stories@.contains_key(k) ==> self.stories@[k] == stories0[k],
            decreases epic.stories.len() - i,
        {
            let sid = epic.stories[i];
            self.stories.remove(&sid);
            proof {
                let done = epic.stories@.subrange(0, i as int);
                let now = epic.stories@.subrange(0, i + 1);
                assert forall|k: u32| now.contains(k) <==> (done.contains(k) || k == sid) by {
                    if now.contains(k) {
                        let j = choose|j: int| 0 <= j < now.len() && now[j] == k;
                        if j < i {
                            assert(done[j] == k);
                        }
                    }
                    if done.contains(k) {
                        let j = choose|j: int| 0 <= j < done.len() && done[j] == k;
                        assert(now[j] == k);
                    }
                    if k == sid {
                        assert(now[i as int] == k);
                    }
                }
            }
            i = i + 1;
        }
        proof {
            assert(epic.stories@.subrange(0, epic.stories@.len() as int) =~= epic.stories@);
            let next = delete_epic_outcome(before, epic_id).1;
            assert(self@.epics =~= next.epics);
            assert(self@.stories =~= next.stories);
        }
        Ok(())
    }

    /// Removes the story `story_id` from the epic `epic_id`, which must list
    /// it, and from the stories.
    pub fn delete_story(&mut self, epic_id: u32, story_id: u32) -> (r: Result<(), DaoError>)
        ensures
            ({
                let (res, next) = delete_story_outcome(old(self)@, epic_id, story_id);
                r == res && final(self)@ == next
            }),
    {
        if !self.epics.contains_key(&epic_id) {
            return Err(DaoError::EpicNotFound(epic_id));
        }
        if !self.stories.contains_key(&story_id) {
            return Err(DaoError::StoryNotFound(story_id));
        }
        let ghost before = self@;
        let mut epic = match self.epics.remove(&epic_id) {
            Some(e) => e,
            None => {
                return Err(DaoError::EpicNotFound(epic_id));
            },
        };
        if !contains_id(&epic.stories, story_id) {
            self.epics.insert(epic_id, epic);
            proof {
                assert(self@ =~= before);
            }
            return Err(DaoError::StoryNotInEpic { epic_id, story_id });
        }
        epic.stories = remove_id(&epic.stories, story_id);
        self.epics.insert(epic_id, epic);
        self.stories.remove(&story_id);
        proof {
            let next = delete_story_outcome(before, epic_id, story_id).1;
            assert(self@.epics =~= next.epics);
            assert(self@.stories =~= next.stories);
        }
        Ok(())
    }

    /// Applies to the epic `epic_id` the lifecycle operation that leads to
    /// `status`; a rejected operation changes nothing.
    pub fn update_epic_status(&mut self, epic_id: u32, status: Status) -> (r: Result<(), DaoError>)
        ensures
            ({
                let (res, next) = update_epic_status_outcome(old(self)@, epic_id, status);
                r == res && final(self)@ == next
            }),
    {
        let ghost before = self@;
        let mut epic = match self.epics.remove(&epic_id) {
            Some(e) => e,
            None => {
                proof {
                    assert(self@ =~= before);
                }
                return Err(DaoError::EpicNotFound(epic_id));
            },
        };
        match apply_operation(epic.status, Operation::toward(status)) {
            Ok(next_status) => {
                epic.status = next_status;
                self.epics.insert(epic_id, epic);
                proof {
                    let next = update_epic_status_outcome(before, epic_id, status).1;
                    assert(self@.epics =~= next.epics);
                }
                Ok(())
            },
            Err(e) => {
                self.epics.insert(epic_id, epic);
                proof {
                    assert(self@.epics =~= before.epics);
                }
                Err(DaoError::Transition(e))
            },
        }
    }

    /// Applies to the story `story_id` the lifecycle operation that leads to
    /// `status`; a rejected operation changes nothing.
    pub fn update_story_status(&mut self, story_id: u32, status: Status) -> (r: Result<(), DaoError>)
        ensures
            ({
                let (res, next) = update_story_status_outcome(old(self)@, story_id, status);
                r == res && final(self)@ == next
            }),
    {
        let ghost before = self@;
        let mut story = match self.stories.remove(&story_id) {
            Some(s) => s,
            None => {
                proof {
                    assert(self@ =~= before);
                }
                return Err(DaoError::StoryNotFound(story_id));
            },
        };
        match apply_operation(story.status, Operation::toward(status)) {
            Ok(next_status) => {
                story.status = next_status;
                self.stories.insert(story_id, story);
                proof {
                    let next = update_story_status_outcome(before, story_id, status).1;
                    assert(self@.stories =~= next.stories);
                }
                Ok(())
            },
            Err(e) => {
                self.stories.insert(story_id, story);
                proof {
                    assert(self@.stories =~= before.stories);
                }
                Err(DaoError::Transition(e))
            },
        }
    }
}

} // verus!
