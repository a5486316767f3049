//! Ready-made repositories for exercising the screens and the navigator.
use vstd::prelude::*;

use crate::dao::{JiraDAO, MockDB};
use crate::error::DaoError;
use crate::models::{Epic, EpicView, Snapshot, Status, Story, StoryView};
use crate::snapshot::{create_epic_outcome, create_story_outcome};

verus! {

/// A repository over an empty in-memory store.
pub fn make_dao() -> (r: JiraDAO<MockDB>)
    ensures
        r@ == Snapshot::empty(),
        r.reliable(),
{
    JiraDAO::new(MockDB::new())
}

/// Creates an epic with an empty name and description, then a story in it,
/// and returns their ids.
pub fn create_epic_and_story(dao: &mut JiraDAO<MockDB>) -> (r: Result<(u32, u32), DaoError>)
    ensures
        old(dao).reliable() && old(dao)@.last_item_id < u32::MAX - 1 ==> r is Ok && final(dao).reliable(),
        r matches Ok((epic_id, story_id)) ==> {
            let (er, mid) = create_epic_outcome(
                old(dao)@,
                EpicView { name: seq![], description: seq![], status: Status::Open, stories: seq![] },
            );
            let (sr, next) = create_story_outcome(
                mid,
                StoryView { name: seq![], description: seq![], status: Status::Open },
                epic_id,
            );
            er == Ok::<u32, DaoError>(epic_id) && sr == Ok::<u32, DaoError>(story_id) && final(dao)@ == next
        },
{
    let epic_id = dao.create_epic(Epic::new(String::new(), String::new()))?;
    let story_id = dao.create_story(Story::new(String::new(), String::new()), epic_id)?;
    Ok((epic_id, story_id))
}

} // verus!
