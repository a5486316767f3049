use std::collections::HashMap;

use jira_tracker::dao::{JiraDAO, MockDB};
use jira_tracker::domain::{Operation, StatusTransitionError};
use jira_tracker::error::DaoError;
use jira_tracker::models::{DBState, Epic, Status, Story};

fn make_sut() -> JiraDAO<MockDB> {
    JiraDAO::new(MockDB::new())
}

fn epic(name: &str) -> Epic {
    Epic::new(name.to_owned(), "".to_owned())
}

fn story(name: &str) -> Story {
    Story::new(name.to_owned(), "".to_owned())
}

#[test]
fn end_to_end_epic_story_lifecycle() {
    let mut db = make_sut();
    assert_eq!(db.create_epic(epic("A")), Ok(1));
    assert_eq!(db.create_story(story("S"), 1), Ok(2));
    assert_eq!(db.update_story_status(2, Status::InProgress), Ok(()));
    assert_eq!(db.read_db().unwrap().stories.get(&2).unwrap().status, Status::InProgress);
    assert_eq!(db.delete_epic(1), Ok(()));
    let state = db.read_db().unwrap();
    assert_eq!(state.epics.get(&1), None);
    assert_eq!(state.stories.get(&2), None);
}

#[test]
fn created_epic_is_open_and_empty() {
    let mut db = make_sut();
    let mut given = epic("E");
    given.status = Status::Closed;
    given.stories = vec![5, 6];
    let id = db.create_epic(given).unwrap();
    let state = db.read_db().unwrap();
    let stored = state.epics.get(&id).unwrap();
    assert_eq!(stored.status, Status::Open);
    assert_eq!(stored.stories, Vec::<u32>::new());
    assert_eq!(stored.name, "E".to_owned());
}

#[test]
fn created_story_is_listed_once_by_its_epic() {
    let mut db = make_sut();
    let e1 = db.create_epic(epic("E1")).unwrap();
    let e2 = db.create_epic(epic("E2")).unwrap();
    let s = db.create_story(story("S"), e1).unwrap();
    assert_eq!(s, 3);
    let state = db.read_db().unwrap();
    assert_eq!(state.epics.get(&e1).unwrap().stories, vec![s]);
    assert_eq!(state.epics.get(&e2).unwrap().stories, Vec::<u32>::new());
    assert_eq!(state.stories.get(&s).unwrap().status, Status::Open);
    assert_eq!(state.epic_of(s), Some(e1));
    assert_eq!(state.epic_of(e2), None);
}

#[test]
fn create_story_under_missing_epic_changes_nothing() {
    let mut db = make_sut();
    db.create_epic(epic("E")).unwrap();
    assert_eq!(db.create_story(story("S"), 42), Err(DaoError::EpicNotFound(42)));
    let state = db.read_db().unwrap();
    assert_eq!(state.last_item_id, 1);
    assert_eq!(state.stories.len(), 0);
}

#[test]
fn delete_epic_cascades_and_keeps_last_id() {
    let mut db = make_sut();
    let e1 = db.create_epic(epic("E1")).unwrap();
    let e2 = db.create_epic(epic("E2")).unwrap();
    let s1 = db.create_story(story("S1"), e1).unwrap();
    let s2 = db.create_story(story("S2"), e1).unwrap();
    let s3 = db.create_story(story("S3"), e2).unwrap();
    assert_eq!(db.delete_epic(e1), Ok(()));
    let state = db.read_db().unwrap();
    assert_eq!(state.last_item_id, 5);
    assert_eq!(state.stories.get(&s1), None);
    assert_eq!(state.stories.get(&s2), None);
    assert_eq!(state.stories.contains_key(&s3), true);
    assert_eq!(state.epics.contains_key(&e2), true);
    assert_eq!(db.create_epic(epic("E3")), Ok(6));
}

#[test]
fn delete_story_of_another_epic_is_a_linkage_error() {
    let mut db = make_sut();
    let e1 = db.create_epic(epic("E1")).unwrap();
    let e2 = db.create_epic(epic("E2")).unwrap();
    let s = db.create_story(story("S"), e2).unwrap();
    let before = db.read_db().unwrap();
    assert_eq!(
        db.delete_story(e1, s),
        Err(DaoError::StoryNotInEpic { epic_id: e1, story_id: s })
    );
    assert_eq!(db.read_db().unwrap(), before);
}

#[test]
fn delete_story_errors_name_what_is_missing() {
    let mut db = make_sut();
    let e = db.create_epic(epic("E")).unwrap();
    let s = db.create_story(story("S"), e).unwrap();
    assert_eq!(db.delete_story(999, s), Err(DaoError::EpicNotFound(999)));
    assert_eq!(db.delete_story(e, 999), Err(DaoError::StoryNotFound(999)));
}

#[test]
fn delete_story_keeps_the_other_stories_in_order() {
    let mut db = make_sut();
    let e = db.create_epic(epic("E")).unwrap();
    let s1 = db.create_story(story("S1"), e).unwrap();
    let s2 = db.create_story(story("S2"), e).unwrap();
    let s3 = db.create_story(story("S3"), e).unwrap();
    assert_eq!(db.delete_story(e, s2), Ok(()));
    let state = db.read_db().unwrap();
    assert_eq!(state.epics.get(&e).unwrap().stories, vec![s1, s3]);
}

#[test]
fn rejected_transition_leaves_the_store_untouched() {
    let mut db = make_sut();
    let e = db.create_epic(epic("E")).unwrap();
    assert_eq!(db.update_epic_status(e, Status::Resolved), Ok(()));
    let before = db.read_db().unwrap();
    assert_eq!(
        db.update_epic_status(e, Status::InProgress),
        Err(DaoError::Transition(StatusTransitionError {
            from: Status::Resolved,
            operation: Operation::Start
        }))
    );
    assert_eq!(db.read_db().unwrap(), before);
    assert_eq!(db.update_epic_status(e, Status::Open), Ok(()));
    assert_eq!(db.read_db().unwrap().epics.get(&e).unwrap().status, Status::Open);
}

#[test]
fn story_status_follows_the_lifecycle() {
    let mut db = make_sut();
    let e = db.create_epic(epic("E")).unwrap();
    let s = db.create_story(story("S"), e).unwrap();
    assert_eq!(db.update_story_status(s, Status::Closed), Ok(()));
    assert_eq!(
        db.update_story_status(s, Status::Resolved),
        Err(DaoError::Transition(StatusTransitionError {
            from: Status::Closed,
            operation: Operation::Resolve
        }))
    );
    assert_eq!(db.update_story_status(999, Status::Closed), Err(DaoError::StoryNotFound(999)));
}

#[test]
fn ids_run_out_at_the_largest_u32() {
    let mut state = DBState {
        last_item_id: u32::MAX,
        epics: HashMap::new(),
        stories: HashMap::new(),
    };
    assert_eq!(state.create_epic(epic("E")), Err(DaoError::IdsExhausted));
    assert_eq!(state.last_item_id, u32::MAX);
    assert_eq!(state.epics.len(), 0);
}

#[test]
fn last_id_below_the_largest_u32_is_still_usable() {
    let mut state = DBState {
        last_item_id: u32::MAX - 1,
        epics: HashMap::new(),
        stories: HashMap::new(),
    };
    assert_eq!(state.create_epic(epic("E")), Ok(u32::MAX));
    assert_eq!(state.create_story(story("S"), u32::MAX), Err(DaoError::IdsExhausted));
}

#[test]
fn empty_state_and_copy() {
    let state = DBState::empty();
    assert_eq!(state.last_item_id, 0);
    assert_eq!(state.epics.len(), 0);
    let mut other = state.copy();
    other.create_epic(epic("E")).unwrap();
    assert_eq!(other.copy(), other);
    assert_eq!(state.epics.len(), 0);
}
