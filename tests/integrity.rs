use std::collections::HashMap;

use jira_tracker::fixtures::{create_epic_and_story, make_dao};
use jira_tracker::models::{DBState, Epic, Status, Story};

fn epic_listing(stories: Vec<u32>) -> Epic {
    Epic {
        name: "e".to_owned(),
        description: "".to_owned(),
        status: Status::Open,
        stories,
    }
}

fn story() -> Story {
    Story::new("s".to_owned(), "".to_owned())
}

fn state(last: u32, epics: Vec<(u32, Epic)>, stories: Vec<u32>) -> DBState {
    let mut s = DBState {
        last_item_id: last,
        epics: HashMap::new(),
        stories: HashMap::new(),
    };
    for (id, e) in epics {
        s.epics.insert(id, e);
    }
    for id in stories {
        s.stories.insert(id, story());
    }
    s
}

#[test]
fn states_built_by_the_repository_are_well_formed() {
    let mut dao = make_dao();
    assert_eq!(dao.read_db().unwrap().is_well_formed(), true);
    create_epic_and_story(&mut dao).unwrap();
    create_epic_and_story(&mut dao).unwrap();
    dao.delete_story(1, 2).unwrap();
    assert_eq!(dao.read_db().unwrap().is_well_formed(), true);
    assert_eq!(DBState::empty().is_well_formed(), true);
}

#[test]
fn well_formed_by_hand() {
    let s = state(4, vec![(1, epic_listing(vec![2, 3])), (4, epic_listing(vec![]))], vec![2, 3]);
    assert_eq!(s.is_well_formed(), true);
}

#[test]
fn listed_story_must_exist() {
    let s = state(3, vec![(1, epic_listing(vec![2, 3]))], vec![2]);
    assert_eq!(s.is_well_formed(), false);
}

#[test]
fn story_must_be_listed() {
    let s = state(3, vec![(1, epic_listing(vec![2]))], vec![2, 3]);
    assert_eq!(s.is_well_formed(), false);
}

#[test]
fn story_listed_twice_by_one_epic_is_refused() {
    let s = state(2, vec![(1, epic_listing(vec![2, 2]))], vec![2]);
    assert_eq!(s.is_well_formed(), false);
}

#[test]
fn story_listed_by_two_epics_is_refused() {
    let s = state(3, vec![(1, epic_listing(vec![3])), (2, epic_listing(vec![3]))], vec![3]);
    assert_eq!(s.is_well_formed(), false);
}

#[test]
fn ids_above_last_item_id_are_refused() {
    let s = state(1, vec![(1, epic_listing(vec![2]))], vec![2]);
    assert_eq!(s.is_well_formed(), false);
    let s = state(1, vec![(5, epic_listing(vec![]))], vec![]);
    assert_eq!(s.is_well_formed(), false);
}

#[test]
fn id_of_both_an_epic_and_a_story_is_refused() {
    let s = state(2, vec![(1, epic_listing(vec![1]))], vec![1]);
    assert_eq!(s.is_well_formed(), false);
}
