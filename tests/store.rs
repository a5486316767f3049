use jira_tracker::fixtures::make_dao;
use jira_tracker::models::{Epic, Status, Story};
use jira_tracker::text::{confirms, parse_id, same_text, status_choice};

#[test]
fn get_epic_and_get_story_read_the_snapshot() {
    let mut dao = make_dao();
    let e = dao.create_epic(Epic::new("A".to_owned(), "d".to_owned())).unwrap();
    let s = dao.create_story(Story::new("S".to_owned(), "t".to_owned()), e).unwrap();
    let epic = dao.get_epic(e).unwrap().unwrap();
    assert_eq!(epic.name, "A".to_owned());
    assert_eq!(epic.stories, vec![s]);
    assert_eq!(epic.status, Status::Open);
    let story = dao.get_story(s).unwrap().unwrap();
    assert_eq!(story.name, "S".to_owned());
    assert_eq!(dao.get_epic(s).unwrap(), None);
    assert_eq!(dao.get_story(e).unwrap(), None);
    dao.delete_epic(e).unwrap();
    assert_eq!(dao.get_epic(e).unwrap(), None);
    assert_eq!(dao.get_story(s).unwrap(), None);
}

#[test]
fn status_choices() {
    assert_eq!(status_choice("1"), Some(Status::Open));
    assert_eq!(status_choice("2"), Some(Status::InProgress));
    assert_eq!(status_choice("3"), Some(Status::Resolved));
    assert_eq!(status_choice("4"), Some(Status::Closed));
    assert_eq!(status_choice("5"), None);
    assert_eq!(status_choice("x"), None);
    assert_eq!(status_choice(""), None);
}

#[test]
fn confirmation_is_exactly_capital_y() {
    assert_eq!(confirms("Y"), true);
    assert_eq!(confirms("y"), false);
    assert_eq!(confirms("Yes"), false);
    assert_eq!(confirms(""), false);
}

#[test]
fn parse_id_reads_decimal_ids() {
    assert_eq!(parse_id("42"), Some(42));
    assert_eq!(parse_id("+7"), Some(7));
    assert_eq!(parse_id("007"), Some(7));
    assert_eq!(parse_id("4294967295"), Some(u32::MAX));
    assert_eq!(parse_id("4294967296"), None);
    assert_eq!(parse_id("99999999999999999999"), None);
    assert_eq!(parse_id(""), None);
    assert_eq!(parse_id("+"), None);
    assert_eq!(parse_id("-0"), None);
    assert_eq!(parse_id(" 1"), None);
    assert_eq!(parse_id("1x"), None);
    assert_eq!(parse_id("١"), None);
}

#[test]
fn same_text_compares_characters() {
    assert_eq!(same_text("q", "q"), true);
    assert_eq!(same_text("q", "q\n"), false);
    assert_eq!(same_text("", ""), true);
    assert_eq!(same_text("é", "e"), false);
    assert_eq!(same_text("ab", "ba"), false);
}
