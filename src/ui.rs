//! The screens: which action the user's input asks for on each of them.
use vstd::prelude::*;

use crate::dao::{Database, JiraDAO};
use crate::error::{DaoError, StoreError};
use crate::models::{Action, DBState, Snapshot, Story};
use crate::snapshot::{ascending, contains_id, sorted_keys};
use crate::text::{parse_id, same_text, spec_parse_id};

verus! {

/// The list of epics.
#[derive(Clone, Copy, Debug, PartialEq, Eq, Structural)]
pub struct HomePage {}

/// One epic and its stories.
#[derive(Clone, Copy, Debug, PartialEq, Eq, Structural)]
pub struct EpicDetail {
    pub epic_id: u32,
}

/// One story.
#[derive(Clone, Copy, Debug, PartialEq, Eq, Structural)]
pub struct StoryDetail {
    pub epic_id: u32,
    pub story_id: u32,
}

/// A screen on the navigator's stack.
#[derive(Clone, Copy, Debug, PartialEq, Eq, Structural)]
pub enum Page {
    Home(HomePage),
    EpicDetail(EpicDetail),
    StoryDetail(StoryDetail),
}

/// What `input` asks for on the list of epics: quit, create an epic, or open
/// an epic that exists.
pub open spec fn home_action(s: Snapshot, input: Seq<char>) -> Option<Action> {
    if input == "q"@ {
        Some(Action::Exit)
    } else if input == "c"@ {
        Some(Action::CreateEpic)
    } else {
        match spec_parse_id(input) {
            Some(id) => if s.epics.contains_key(id) {
                Some(Action::NavigateToEpicDetail { epic_id: id })
            } else {
                None
            },
            None => None,
        }
    }
}

/// What `input` asks for on the page of epic `epic_id`: go back, update or
/// delete the epic, create a story in it, or open a story that exists.
pub open spec fn epic_detail_action(epic_id: u32, s: Snapshot, input: Seq<char>) -> Option<Action> {
    if input == "p"@ {
        Some(Action::NavigateToPreviousPage)
    } else if input == "u"@ {
        Some(Action::UpdateEpicStatus { epic_id })
    } else if input == "d"@ {
        Some(Action::DeleteEpic { epic_id })
    } else if input == "c"@ {
        Some(Action::CreateStory { epic_id })
    } else {
        match spec_parse_id(input) {
            Some(id) => if s.stories.contains_key(id) {
                Some(Action::NavigateToStoryDetail { epic_id, story_id: id })
            } else {
                None
            },
            None => None,
        }
    }
}

/// What `input` asks for on the page of a story: go back, update or delete
/// the story.
pub open spec fn story_detail_action(epic_id: u32, story_id: u32, input: Seq<char>) -> Option<Action> {
    if input == "p"@ {
        Some(Action::NavigateToPreviousPage)
    } else if input == "u"@ {
        Some(Action::UpdateStoryStatus { story_id })
    } else if input == "d"@ {
        Some(Action::DeleteStory { epic_id, story_id })
    } else {
        None
    }
}


impl HomePage {
    /// The ids of the epics to list, in ascending order.
    pub fn rows(&self, state: &DBState) -> (r: Vec<u32>)
        ensures
            ascending(r@),
            forall|k: u32| r@.contains(k) <==> state@.epics.contains_key(k),
    {
        sorted_keys(&state.epics)
    }

    /// The action that `input` asks for, given the current snapshot.
    pub fn action_for(&self, state: &DBState, input: &str) -> (r: Option<Action>)
        ensures
            r == home_action(state@, input@),
    {
        if same_text(input, "q") {
            Some(Action::Exit)
        } else if same_text(input, "c") {
            Some(Action::CreateEpic)
        } else {
            match parse_id(input) {
                Some(id) => if state.epics.contains_key(&id) {
                    Some(Action::NavigateToEpicDetail { epic_id: id })
                } else {
                    None
                },
                None => None,
            }
        }
    }

    /// Reads the snapshot and returns the action that `input` asks for.
    pub fn handle_input<D: Database>(&self, dao: &JiraDAO<D>, input: &str) -> (r: Result<
        Option<Action>,
        StoreError,
    >)
        ensures
            r matches Ok(a) ==> a == home_action(dao@, input@),
    {
        let state = dao.read_db()?;
        Ok(self.action_for(&state, input))
    }
}

impl EpicDetail {
    /// The ids of the epic's stories to list, in ascending order; fails when
    /// the epic does not exist.
    pub fn rows(&self, state: &DBState) -> (r: Result<Vec<u32>, DaoError>)
        ensures
            !state@.epics.contains_key(self.epic_id) ==> r == Err::<Vec<u32>, _>(
                DaoError::EpicNotFound(self.epic_id),
            ),
            state@.epics.contains_key(self.epic_id) ==> (r matches Ok(ids) && ascending(ids@) && forall|
                k: u32,
            | ids@.contains(k) <==> state@.stories.contains_key(k) && state@.epics[self.epic_id].stories.contains(
                k,
            )),
    {
        let epic = match state.epics.get(&self.epic_id) {
            Some(e) => e,
            None => {
                return Err(DaoError::EpicNotFound(self.epic_id));
            },
        };
        let all = sorted_keys(&state.stories);
        let mut ids: Vec<u32> = Vec::new();
        let mut i: usize = 0;
        while i < all.len()
            invariant
                i <= all.len(),
                ascending(all@),
                ascending(ids@),
                forall|j: int| 0 <= j < ids@.len() ==> exists|m: int| 0 <= m < i && all@[m] == #[trigger] ids@[j],
                forall|k: u32|
                    #[trigger] ids@.contains(k) <==> all@.subrange(0, i as int).contains(k) && epic.stories@.contains(k),
            decreases all.len() - i,
        {
            let id = all[i];
            let ghost kept = ids@;
            if contains_id(&epic.stories, id) {
                proof {
                    assert forall|j: int| 0 <= j < kept.len() implies kept[j] < id by {
                        let m = choose|m: int| 0 <= m < i && all@[m] == #[trigger] kept[j];
                        assert(all@[m] < all@[i as int]);
                    }
                }
                ids.push(id);
                proof {
                    assert forall|k: u32| #[trigger] ids@.contains(k) <==> kept.contains(k) || k == id by {
                        if ids@.contains(k) {
                            let j = choose|j: int| 0 <= j < ids@.len() && ids@[j] == k;
                            if j < kept.len() {
                                assert(kept[j] == k);
                            }
                        }
                        if kept.contains(k) {
                            let j = choose|j: int| 0 <= j < kept.len() && kept[j] == k;
                            assert(ids@[j] == k);
                        }
                        if k == id {
                            assert(ids@[kept.len() as int] == k);
                        }
                    }
                    assert forall|j: int| 0 <= j < ids@.len() implies exists|m: int|
                        0 <= m < i + 1 && all@[m] == #[trigger] ids@[j] by {
                        if j < kept.len() {
                            assert(ids@[j] == kept[j]);
                            let m = choose|m: int| 0 <= m < i && all@[m] == #[trigger] kept[j];
                            assert(all@[m] == ids@[j]);
                        } else {
                            assert(all@[i as int] == ids@[j]);
                        }
                    }
                }
            }
            proof {
                let before = all@.subrange(0, i as int);
                let now = all@.subrange(0, i + 1);
                assert forall|k: u32| now.contains(k) <==> before.contains(k) || k == id by {
                    if now.contains(k) {
                        let j = choose|j: int| 0 <= j < now.len() && now[j] == k;
                        if j < i {
                            assert(before[j] == k);
                        }
                    }
                    if before.contains(k) {
                        let j = choose|j: int| 0 <= j < before.len() && before[j] == k;
                        assert(now[j] == k);
                    }
                    if k == id {
                        assert(now[i as int] == k);
                    }
                }
            }
            i = i + 1;
        }
        proof {
            assert(all@.subrange(0, all@.len() as int) =~= all@);
        }
        Ok(ids)
    }

    /// The action that `input` asks for, given the current snapshot.
    pub fn action_for(&self, state: &DBState, input: &str) -> (r: Option<Action>)
        ensures
            r == epic_detail_action(self.epic_id, state@, input@),
    {
        if same_text(input, "p") {
            Some(Action::NavigateToPreviousPage)
        } else if same_text(input, "u") {
            Some(Action::UpdateEpicStatus { epic_id: self.epic_id })
        } else if same_text(input, "d") {
            Some(Action::DeleteEpic { epic_id: self.epic_id })
        } else if same_text(input, "c") {
            Some(Action::CreateStory { epic_id: self.epic_id })
        } else {
            match parse_id(input) {
                Some(id) => if state.stories.contains_key(&id) {
                    Some(Action::NavigateToStoryDetail { epic_id: self.epic_id, story_id: id })
                } else {
                    None
                },
                None => None,
            }
        }
    }

    /// Reads the snapshot and returns the action that `input` asks for.
    pub fn handle_input<D: Database>(&self, dao: &JiraDAO<D>, input: &str) -> (r: Result<
        Option<Action>,
        StoreError,
    >)
        ensures
            r matches Ok(a) ==> a == epic_detail_action(self.epic_id, dao@, input@),
    {
        let state = dao.read_db()?;
        Ok(self.action_for(&state, input))
    }
}

impl StoryDetail {
    /// The story to show; fails when it does not exist.
    pub fn story<'a>(&self, state: &'a DBState) -> (r: Result<&'a Story, DaoError>)
        ensures
            !state@.stories.contains_key(self.story_id) ==> r == Err::<&Story, _>(
                DaoError::StoryNotFound(self.story_id),
            ),
            state@.stories.contains_key(self.story_id) ==> (r matches Ok(st) && st@
                == state@.stories[self.story_id]),
    {
        match state.stories.get(&self.story_id) {
            Some(st) => Ok(st),
            None => Err(DaoError::StoryNotFound(self.story_id)),
        }
    }

    /// Returns the action that `input` asks for.
    pub fn handle_input(&self, input: &str) -> (r: Result<Option<Action>, StoreError>)
        ensures
            r == Ok::<_, StoreError>(story_detail_action(self.epic_id, self.story_id, input@)),
    {
        if same_text(input, "p") {
            Ok(Some(Action::NavigateToPreviousPage))
        } else if same_text(input, "u") {
            Ok(Some(Action::UpdateStoryStatus { story_id: self.story_id }))
        } else if same_text(input, "d") {
            Ok(Some(Action::DeleteStory { epic_id: self.epic_id, story_id: self.story_id }))
        } else {
            Ok(None)
        }
    }
}

impl Page {
    /// The action that `input` asks for on this screen, given the snapshot.
    pub open spec fn spec_action(self, s: Snapshot, input: Seq<char>) -> Option<Action> {
        match self {
            Page::Home(_) => home_action(s, input),
            Page::EpicDetail(p) => epic_detail_action(p.epic_id, s, input),
            Page::StoryDetail(p) => story_detail_action(p.epic_id, p.story_id, input),
        }
    }

    /// Returns the action that `input` asks for on this screen.
    pub fn handle_input<D: Database>(&self, dao: &JiraDAO<D>, input: &str) -> (r: Result<
        Option<Action>,
        StoreError,
    >)
        ensures
            r matches Ok(a) ==> a == self.spec_action(dao@, input@),
    {
        match self {
            Page::Home(p) => p.handle_input(dao, input),
            Page::EpicDetail(p) => p.handle_input(dao, input),
            Page::StoryDetail(p) => p.handle_input(input),
        }
    }
}

} // verus!
