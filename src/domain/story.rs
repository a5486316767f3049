//! A story with its id, the id of its epic, and its lifecycle state.
use vstd::prelude::*;

use crate::domain::StatusState;
use crate::models::{Status, StoryView};

verus! {

/// A story of the epic `epic_id`.
pub struct Story {
    pub id: u32,
    pub epic_id: u32,
    pub name: String,
    pub description: String,
    pub state: StatusState,
}

impl View for Story {
    type V = StoryView;

    open spec fn view(&self) -> StoryView {
        StoryView { name: self.name@, description: self.description@, status: self.state@ }
    }
}

impl Story {
    /// A new story: open.
    pub fn new(id: u32, epic_id: u32, name: String, description: String) -> (r: Self)
        ensures
            r.id == id,
            r.epic_id == epic_id,
            r@ == (StoryView { name: name@, description: description@, status: Status::Open }),
    {
        Self { id, epic_id, name, description, state: StatusState::new(Status::Open) }
    }
}

/// Builds stories in a chosen state.
pub struct StoryBuilder {
    story: Story,
}

impl View for StoryBuilder {
    type V = (u32, u32, StoryView);

    closed spec fn view(&self) -> (u32, u32, StoryView) {
        (self.story.id, self.story.epic_id, self.story@)
    }
}

impl StoryBuilder {
    /// Starts from a new open story.
    pub fn new(id: u32, epic_id: u32, name: String, description: String) -> (r: Self)
        ensures
            r@ == (id, epic_id, StoryView { name: name@, description: description@, status: Status::Open }),
    {
        Self { story: Story::new(id, epic_id, name, description) }
    }

    /// Moves the story to the epic `epic_id`.
    pub fn with_epic_id(self, epic_id: u32) -> (r: Self)
        ensures
            r@ == (self@.0, epic_id, self@.2),
    {
        let mut b = self;
        b.story.epic_id = epic_id;
        b
    }

    pub fn build(self) -> (r: Story)
        ensures
            (r.id, r.epic_id, r@) == self@,
    {
        self.story
    }
}

} // verus!
