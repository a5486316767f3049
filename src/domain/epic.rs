//! An epic with its id, its lifecycle state and the stories it owns.
use vstd::prelude::*;

use crate::domain::StatusState;
use crate::models::{EpicView, Status};
use crate::snapshot::{add_id, remove_id, with_id, without_id};

verus! {

/// An epic: the ids of its stories are kept unique, in the order they were
/// added.
pub struct Epic {
    pub id: u32,
    pub name: String,
    pub description: String,
    pub state: StatusState,
    stories: Vec<u32>,
}

impl View for Epic {
    /// The id, and the value of the epic.
    type V = (u32, EpicView);

    closed spec fn view(&self) -> (u32, EpicView) {
        (
            self.id,
            EpicView {
                name: self.name@,
                description: self.description@,
                status: self.state@,
                stories: self.stories@,
            },
        )
    }
}

impl Epic {
    /// A new epic: open, with no stories.
    pub fn new(id: u32, name: String, description: String) -> (r: Self)
        ensures
            r@ == (id, EpicView { name: name@, description: description@, status: Status::Open, stories: seq![] }),
    {
        Self { id, name, description, state: StatusState::new(Status::Open), stories: Vec::new() }
    }

    /// Adds `story_id` after the other stories, unless the epic has it.
    pub fn add_story(&mut self, story_id: u32)
        ensures
            final(self)@ == (old(self)@.0, EpicView { stories: with_id(old(self)@.1.stories, story_id), ..old(self)@.1 }),
    {
        add_id(&mut self.stories, story_id);
    }

    /// Takes `story_id` out of the epic's stories, if it is there.
    pub fn remove_story(&mut self, story_id: u32)
        ensures
            final(self)@ == (old(self)@.0, EpicView { stories: without_id(old(self)@.1.stories, story_id), ..old(self)@.1 }),
    {
        self.stories = remove_id(&self.stories, story_id);
    }

    /// The ids of the epic's stories, in order.
    pub fn get_stories(&self) -> (r: Vec<u32>)
        ensures
            r@ == self@.1.stories,
    {
        let mut r: Vec<u32> = Vec::new();
        let mut i: usize = 0;
        while i < self.stories.len()
            invariant
                i <= self.stories.len(),
                r@ == self.stories@.subrange(0, i as int),
            decreases self.stories.len() - i,
        {
            r.push(self.stories[i]);
            i = i + 1;
        }
        r
    }
}

/// Builds epics in a chosen state.
pub struct EpicBuilder {
    epic: Epic,
}

impl View for EpicBuilder {
    type V = (u32, EpicView);

    closed spec fn view(&self) -> (u32, EpicView) {
        self.epic@
    }
}

impl EpicBuilder {
    /// Starts from a new open epic with no stories.
    pub fn new(id: u32, name: String, description: String) -> (r: Self)
        ensures
            r@ == (id, EpicView { name: name@, description: description@, status: Status::Open, stories: seq![] }),
    {
        Self { epic: Epic::new(id, name, description) }
    }

    /// Gives the epic these stories, as they are.
    pub fn with_stories(self, stories: Vec<u32>) -> (r: Self)
        ensures
            r@ == (self@.0, EpicView { stories: stories@, ..self@.1 }),
    {
        let mut b = self;
        b.epic.stories = stories;
        b
    }

    pub fn build(self) -> (r: Epic)
        ensures
            r@ == self@,
    {
        self.epic
    }
}

} // verus!
