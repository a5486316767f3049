//! The records of the persisted snapshot, their views, and the actions a
//! screen can ask for.
use std::collections::HashMap;

use vstd::prelude::*;

verus! {

/// The lifecycle status of an epic or a story.
#[derive(Clone, Copy, Debug, PartialEq, Eq, Structural)]
pub enum Status {
    Open,
    InProgress,
    Closed,
    Resolved,
}

impl Status {
    /// The label under which a status is shown to the user.
    pub open spec fn spec_label(self) -> Seq<char> {
        match self {
            Status::Open => "OPEN"@,
            Status::InProgress => "IN PROGRESS"@,
            Status::Resolved => "RESOLVED"@,
            Status::Closed => "CLOSED"@,
        }
    }

    pub fn label(&self) -> (r: &'static str)
        ensures
            r@ == self.spec_label(),
    {
        match self {
            Status::Open => "OPEN",
            Status::InProgress => "IN PROGRESS",
            Status::Resolved => "RESOLVED",
            Status::Closed => "CLOSED",
        }
    }
}

/// An epic as it is stored: the ids of its stories, in the order they were
/// added.
#[derive(Clone, Debug, PartialEq)]
pub struct Epic {
    pub name: String,
    pub description: String,
    pub status: Status,
    pub stories: Vec<u32>,
}

/// The mathematical value of an [`Epic`].
pub struct EpicView {
    pub name: Seq<char>,
    pub description: Seq<char>,
    pub status: Status,
    pub stories: Seq<u32>,
}

impl View for Epic {
    type V = EpicView;

    open spec fn view(&self) -> EpicView {
        EpicView {
            name: self.name@,
            description: self.description@,
            status: self.status,
            stories: self.stories@,
        }
    }
}

impl Epic {
    /// A new epic: open, with no stories.
    pub fn new(name: String, description: String) -> (r: Self)
        ensures
            r@ == (EpicView { name: name@, description: description@, status: Status::Open, stories: seq![] }),
    {
        Self { name, description, status: Status::Open, stories: Vec::new() }
    }
}

/// A story as it is stored. The epic that owns it is the one whose list
/// holds its id.
#[derive(Clone, Debug, PartialEq)]
pub struct Story {
    pub name: String,
    pub description: String,
    pub status: Status,
}

/// The mathematical value of a [`Story`].
pub struct StoryView {
    pub name: Seq<char>,
    pub description: Seq<char>,
    pub status: Status,
}

impl View for Story {
    type V = StoryView;

    open spec fn view(&self) -> StoryView {
        StoryView { name: self.name@, description: self.description@, status: self.status }
    }
}

impl Story {
    /// A new story: open.
    pub fn new(name: String, description: String) -> (r: Self)
        ensures
            r@ == (StoryView { name: name@, description: description@, status: Status::Open }),
    {
        Self { name, description, status: Status::Open }
    }
}

/// The whole persisted state: the last id handed out, and every epic and
/// story by id.
#[derive(Clone, Debug, PartialEq)]
pub struct DBState {
    pub last_item_id: u32,
    pub epics: HashMap<u32, Epic>,
    pub stories: HashMap<u32, Story>,
}

/// The mathematical value of a [`DBState`].
#[verifier::ext_equal]
pub struct Snapshot {
    pub last_item_id: u32,
    pub epics: Map<u32, EpicView>,
    pub stories: Map<u32, StoryView>,
}

impl View for DBState {
    type V = Snapshot;

    open spec fn view(&self) -> Snapshot {
        Snapshot {
            last_item_id: self.last_item_id,
            epics: self.epics@.map_values(|e: Epic| e@),
            stories: self.stories@.map_values(|s: Story| s@),
        }
    }
}

impl Snapshot {
    /// The snapshot of a store that was never written to.
    pub open spec fn empty() -> Snapshot {
        Snapshot { last_item_id: 0, epics: Map::empty(), stories: Map::empty() }
    }

    /// `epic_id` names an epic whose list holds `story_id`.
    pub open spec fn links(self, epic_id: u32, story_id: u32) -> bool {
        self.epics.contains_key(epic_id) && self.epics[epic_id].stories.contains(story_id)
    }

    /// Every id in use is at most `last_item_id`.
    pub open spec fn ids_bounded(self) -> bool {
        &&& forall|id: u32| #[trigger] self.epics.contains_key(id) ==> id <= self.last_item_id
        &&& forall|id: u32| #[trigger] self.stories.contains_key(id) ==> id <= self.last_item_id
    }

    /// The referential integrity of epics and stories: each story listed by
    /// an epic exists and is listed by that epic alone, once; each story is
    /// listed by some epic; no id names both an epic and a story; and no id
    /// is above `last_item_id`.
    pub open spec fn well_formed(self) -> bool {
        &&& self.ids_bounded()
        &&& forall|id: u32| #[trigger] self.epics.contains_key(id) ==> !self.stories.contains_key(id)
        &&& forall|e: u32| #[trigger] self.epics.contains_key(e) ==> self.epics[e].stories.no_duplicates()
        &&& forall|e: u32, s: u32| #[trigger] self.links(e, s) ==> self.stories.contains_key(s)
        &&& forall|e1: u32, e2: u32, s: u32|
            #[trigger] self.links(e1, s) && #[trigger] self.links(e2, s) ==> e1 == e2
        &&& forall|s: u32| #[trigger] self.stories.contains_key(s) ==> exists|e: u32| self.links(e, s)
    }
}

impl DBState {
    /// An empty state: no epics, no stories, no id handed out yet.
    pub fn empty() -> (r: Self)
        ensures
            r@ == Snapshot::empty(),
            r@.well_formed(),
    {
        let r = DBState { last_item_id: 0, epics: HashMap::new(), stories: HashMap::new() };
        assert(r@ =~= Snapshot::empty());
        r
    }

    /// A copy of the state.
    pub fn copy(&self) -> (r: Self)
        ensures
            r@ == self@,
    {
        DBState {
            last_item_id: self.last_item_id,
            epics: self.epics.clone(),
            stories: self.stories.clone(),
        }
    }
}

/// What the user asked for on the current screen.
#[derive(Clone, Copy, Debug, PartialEq, Eq, Structural)]
pub enum Action {
    NavigateToEpicDetail { epic_id: u32 },
    NavigateToStoryDetail { epic_id: u32, story_id: u32 },
    NavigateToPreviousPage,
    CreateEpic,
    UpdateEpicStatus { epic_id: u32 },
    DeleteEpic { epic_id: u32 },
    CreateStory { epic_id: u32 },
    UpdateStoryStatus { story_id: u32 },
    DeleteStory { epic_id: u32, story_id: u32 },
    Exit,
}

} // verus!
