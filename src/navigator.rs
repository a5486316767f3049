//! The page-stack navigator: turns the user's actions into repository calls
//! and moves between screens.
use vstd::prelude::*;

use crate::dao::{Database, JiraDAO};
use crate::error::DaoError;
use crate::models::{Action, Epic, EpicView, Snapshot, Status, Story, StoryView};
use crate::snapshot::{
    create_epic_outcome, create_story_outcome, delete_epic_outcome, delete_story_outcome,
    update_epic_status_outcome, update_story_status_outcome,
};
use crate::ui::{EpicDetail, HomePage, Page, StoryDetail};

verus! {

/// Asks the user for what an action needs. Each answer may be anything the
/// user gives; `None` and `false` mean that the user gave up.
pub trait Prompter {
    /// The name and description of a new epic.
    fn create_epic(&self) -> Epic;

    /// The name and description of a new story.
    fn create_story(&self) -> Story;

    /// Whether the user confirms deleting an epic.
    fn delete_epic(&self) -> bool;

    /// Whether the user confirms deleting a story.
    fn delete_story(&self) -> bool;

    /// The status the user asks for, if any.
    fn update_status(&self) -> Option<Status>;
}

/// `stack` without its top screen; an empty stack stays empty.
pub open spec fn pop_page(stack: Seq<Page>) -> Seq<Page> {
    if stack.len() == 0 {
        stack
    } else {
        stack.drop_last()
    }
}

/// A creation's outcome without the new id.
pub open spec fn drop_new_id(outcome: (Result<u32, DaoError>, Snapshot)) -> (Result<(), DaoError>, Snapshot) {
    let r = match outcome.0 {
        Ok(_) => Ok(()),
        Err(e) => Err(e),
    };
    (r, outcome.1)
}

/// `r` and `after` are what a repository call gave on `before`, or the call
/// failed in the store.
pub open spec fn repository_step<T>(
    r: Result<T, DaoError>,
    outcome: (Result<T, DaoError>, Snapshot),
    after: Snapshot,
) -> bool {
    r matches Err(DaoError::Store(_)) || (r == outcome.0 && after == outcome.1)
}

/// The screens, topmost last, and the repository they show.
pub struct Navigator<D: Database, P: Prompter> {
    pages: Vec<Page>,
    prompts: P,
    dao: JiraDAO<D>,
}

impl<D: Database, P: Prompter> Navigator<D, P> {
    /// The screens, topmost last.
    pub closed spec fn pages(&self) -> Seq<Page> {
        self.pages@
    }

    /// The snapshot that the repository's store holds.
    pub closed spec fn stored(&self) -> Snapshot {
        self.dao@
    }

    /// The repository's store cannot fail.
    pub closed spec fn reliable(&self) -> bool {
        self.dao.reliable()
    }

    /// A navigator on the home screen.
    pub fn new(dao: JiraDAO<D>, prompts: P) -> (r: Self)
        ensures
            r.pages() == seq![Page::Home(HomePage {})],
            r.stored() == dao@,
            r.reliable() == dao.reliable(),
    {
        let mut pages: Vec<Page> = Vec::new();
        pages.push(Page::Home(HomePage {}));
        Self { pages, prompts, dao }
    }

    /// The topmost screen, if the stack is not empty.
    pub fn get_current_page(&self) -> (r: Option<&Page>)
        ensures
            self.pages().len() == 0 ==> r is None,
            self.pages().len() > 0 ==> r == Some(&self.pages().last()),
    {
        let n = self.pages.len();
        if n == 0 {
            None
        } else {
            Some(&self.pages[n - 1])
        }
    }

    /// How many screens are on the stack.
    pub fn get_page_count(&self) -> (r: usize)
        ensures
            r == self.pages().len(),
    {
        self.pages.len()
    }

    /// Replaces the prompts.
    pub fn set_prompts(&mut self, prompts: P)
        ensures
            final(self).pages() == old(self).pages(),
            final(self).stored() == old(self).stored(),
            final(self).reliable() == old(self).reliable(),
    {
        self.prompts = prompts;
    }

    /// The repository.
    pub fn dao(&self) -> (r: &JiraDAO<D>)
        ensures
            r@ == self.stored(),
            r.reliable() == self.reliable(),
    {
        &self.dao
    }

    fn pop(&mut self)
        ensures
            final(self).pages() == pop_page(old(self).pages()),
            final(self).stored() == old(self).stored(),
            final(self).reliable() == old(self).reliable(),
    {
        if self.pages.len() > 0 {
            self.pages.pop();
        }
    }

    /// Creates the epic that the user described; the stack stays as it is.
    pub fn create_epic(&mut self, epic: Epic) -> (r: Result<(), DaoError>)
        ensures
            final(self).pages() == old(self).pages(),
            repository_step(r, drop_new_id(create_epic_outcome(old(self).stored(), epic@)), final(self).stored()),
            old(self).reliable() ==> final(self).reliable() && !(r matches Err(DaoError::Store(_))),
    {
        match self.dao.create_epic(epic) {
            Ok(_) => Ok(()),
            Err(err) => Err(err),
        }
    }

    /// Creates, in the epic `epic_id`, the story that the user described;
    /// the stack stays as it is.
    pub fn create_story(&mut self, epic_id: u32, story: Story) -> (r: Result<(), DaoError>)
        ensures
            final(self).pages() == old(self).pages(),
            repository_step(
                r,
                drop_new_id(create_story_outcome(old(self).stored(), story@, epic_id)),
                final(self).stored(),
            ),
            old(self).reliable() ==> final(self).reliable() && !(r matches Err(DaoError::Store(_))),
    {
        match self.dao.create_story(story, epic_id) {
            Ok(_) => Ok(()),
            Err(err) => Err(err),
        }
    }

    /// Moves the epic `epic_id` toward the status the user picked; when the
    /// user picked none, nothing happens. The stack stays as it is.
    pub fn update_epic_status(&mut self, epic_id: u32, status: Option<Status>) -> (r: Result<(), DaoError>)
        ensures
            final(self).pages() == old(self).pages(),
            match status {
                Some(st) => repository_step(
                    r,
                    update_epic_status_outcome(old(self).stored(), epic_id, st),
                    final(self).stored(),
                ),
                None => r is Ok && final(self).stored() == old(self).stored(),
            },
            old(self).reliable() ==> final(self).reliable() && !(r matches Err(DaoError::Store(_))),
    {
        match status {
            Some(st) => self.dao.update_epic_status(epic_id, st),
            None => Ok(()),
        }
    }

    /// Moves the story `story_id` toward the status the user picked; when
    /// the user picked none, nothing happens. The stack stays as it is.
    pub fn update_story_status(&mut self, story_id: u32, status: Option<Status>) -> (r: Result<(), DaoError>)
        ensures
            final(self).pages() == old(self).pages(),
            match status {
                Some(st) => repository_step(
                    r,
                    update_story_status_outcome(old(self).stored(), story_id, st),
                    final(self).stored(),
                ),
                None => r is Ok && final(self).stored() == old(self).stored(),
            },
            old(self).reliable() ==> final(self).reliable() && !(r matches Err(DaoError::Store(_))),
    {
        match status {
            Some(st) => self.dao.update_story_status(story_id, st),
            None => Ok(()),
        }
    }

    /// Deletes the epic `epic_id` when the user confirmed, and then leaves
    /// its screen; without confirmation nothing happens. A failed deletion
    /// leaves the stack as it was.
    pub fn delete_epic(&mut self, epic_id: u32, confirmed: bool) -> (r: Result<(), DaoError>)
        ensures
            confirmed ==> repository_step(r, delete_epic_outcome(old(self).stored(), epic_id), final(self).stored())
                && final(self).pages() == (if r is Ok {
                pop_page(old(self).pages())
            } else {
                old(self).pages()
            }),
            !confirmed ==> r is Ok && final(self).pages() == old(self).pages() && final(self).stored() == old(
                self,
            ).stored(),
            old(self).reliable() ==> final(self).reliable() && !(r matches Err(DaoError::Store(_))),
    {
        if confirmed {
            self.dao.delete_epic(epic_id)?;
            self.pop();
        }
        Ok(())
    }

    /// Deletes the story `story_id` of the epic `epic_id` when the user
    /// confirmed, and then leaves its screen; without confirmation nothing
    /// happens. A failed deletion leaves the stack as it was.
    pub fn delete_story(&mut self, epic_id: u32, story_id: u32, confirmed: bool) -> (r: Result<(), DaoError>)
        ensures
            confirmed ==> repository_step(
                r,
                delete_story_outcome(old(self).stored(), epic_id, story_id),
                final(self).stored(),
            ) && final(self).pages() == (if r is Ok {
                pop_page(old(self).pages())
            } else {
                old(self).pages()
            }),
            !confirmed ==> r is Ok && final(self).pages() == old(self).pages() && final(self).stored() == old(
                self,
            ).stored(),
            old(self).reliable() ==> final(self).reliable() && !(r matches Err(DaoError::Store(_))),
    {
        if confirmed {
            self.dao.delete_story(epic_id, story_id)?;
            self.pop();
        }
        Ok(())
    }

    /// Carries out `action`. Navigation changes only the stack. The other
    /// actions ask the prompts for what they need and hand the answer to
    /// [`Self::create_epic`], [`Self::create_story`],
    /// [`Self::update_epic_status`], [`Self::update_story_status`],
    /// [`Self::delete_epic`] or [`Self::delete_story`], whose contracts say
    /// what happens for each answer.
    pub fn handle_action(&mut self, action: Action) -> (r: Result<(), DaoError>)
        ensures
            r is Err ==> final(self).pages() == old(self).pages(),
            old(self).reliable() ==> final(self).reliable() && !(r matches Err(DaoError::Store(_))),
            match action {
                Action::NavigateToEpicDetail { epic_id } => r is Ok && final(self).pages() == old(
                    self,
                ).pages().push(Page::EpicDetail(EpicDetail { epic_id }))
                    && final(self).stored() == old(self).stored(),
                Action::NavigateToStoryDetail { epic_id, story_id } => r is Ok && final(self).pages()
                    == old(self).pages().push(Page::StoryDetail(StoryDetail { epic_id, story_id }))
                    && final(self).stored() == old(self).stored(),
                Action::NavigateToPreviousPage => r is Ok && final(self).pages() == pop_page(
                    old(self).pages(),
                ) && final(self).stored() == old(self).stored(),
                Action::Exit => r is Ok && final(self).pages() == Seq::<Page>::empty()
                    && final(self).stored() == old(self).stored(),
                Action::CreateEpic => final(self).pages() == old(self).pages() && exists|e: EpicView|
                    repository_step(
                        r,
                        drop_new_id(#[trigger] create_epic_outcome(old(self).stored(), e)),
                        final(self).stored(),
                    ),
                Action::CreateStory { epic_id } => final(self).pages() == old(self).pages() && exists|
                    st: StoryView,
                | repository_step(
                    r,
                    drop_new_id(#[trigger] create_story_outcome(old(self).stored(), st, epic_id)),
                    final(self).stored(),
                ),
                Action::UpdateEpicStatus { epic_id } => final(self).pages() == old(self).pages() && ((r
                    is Ok && final(self).stored() == old(self).stored()) || exists|st: Status|
                    repository_step(
                        r,
                        #[trigger] update_epic_status_outcome(old(self).stored(), epic_id, st),
                        final(self).stored(),
                    )),
                Action::UpdateStoryStatus { story_id } => final(self).pages() == old(self).pages() && ((r
                    is Ok && final(self).stored() == old(self).stored()) || exists|st: Status|
                    repository_step(
                        r,
                        #[trigger] update_story_status_outcome(old(self).stored(), story_id, st),
                        final(self).stored(),
                    )),
                Action::DeleteEpic { epic_id } => (r is Ok && final(self).pages() == old(self).pages()
                    && final(self).stored() == old(self).stored()) || (repository_step(
                    r,
                    delete_epic_outcome(old(self).stored(), epic_id),
                    final(self).stored(),
                ) && (r is Ok ==> final(self).pages() == pop_page(old(self).pages()))),
                Action::DeleteStory { epic_id, story_id } => (r is Ok && final(self).pages() == old(
                    self,
                ).pages() && final(self).stored() == old(self).stored()) || (repository_step(
                    r,
                    delete_story_outcome(old(self).stored(), epic_id, story_id),
                    final(self).stored(),
                ) && (r is Ok ==> final(self).pages() == pop_page(old(self).pages()))),
            },
    {
        match action {
            Action::NavigateToEpicDetail { epic_id } => {
                self.pages.push(Page::EpicDetail(EpicDetail { epic_id }));
                Ok(())
            },
            Action::NavigateToStoryDetail { epic_id, story_id } => {
                self.pages.push(Page::StoryDetail(StoryDetail { epic_id, story_id }));
                Ok(())
            },
            Action::NavigateToPreviousPage => {
                self.pop();
                Ok(())
            },
            Action::CreateEpic => {
                let epic = self.prompts.create_epic();
                let ghost e = epic@;
                let r = self.create_epic(epic);
                // Names the outcome for the epic the user gave: the witness of
                // the contract's `exists`.
                proof {
                    let _ = create_epic_outcome(old(self).stored(), e);
                }
                r
            },
            Action::CreateStory { epic_id } => {
                let story = self.prompts.create_story();
                let ghost st = story@;
                let r = self.create_story(epic_id, story);
                // Names the outcome for the story the user gave: the witness of
                // the contract's `exists`.
                proof {
                    let _ = create_story_outcome(old(self).stored(), st, epic_id);
                }
                r
            },
            Action::UpdateEpicStatus { epic_id } => {
                let status = self.prompts.update_status();
                self.update_epic_status(epic_id, status)
            },
            Action::UpdateStoryStatus { story_id } => {
                let status = self.prompts.update_status();
                self.update_story_status(story_id, status)
            },
            Action::DeleteEpic { epic_id } => {
                let confirmed = self.prompts.delete_epic();
                self.delete_epic(epic_id, confirmed)
            },
            Action::DeleteStory { epic_id, story_id } => {
                let confirmed = self.prompts.delete_story();
                self.delete_story(epic_id, story_id, confirmed)
            },
            Action::Exit => {
                self.pages.clear();
                Ok(())
            },
        }
    }
}

} // verus!
