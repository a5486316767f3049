use jira_tracker::dao::{JiraDAO, MockDB};
use jira_tracker::fixtures::make_dao;
use jira_tracker::models::{Action, Epic, Status, Story};
use jira_tracker::navigator::{Navigator, Prompter};
use jira_tracker::ui::Page;

struct TestPrompts {
    epic: (String, String),
    story: (String, String),
    confirm_epic: bool,
    confirm_story: bool,
    status: Option<Status>,
}

impl TestPrompts {
    fn new() -> Self {
        TestPrompts {
            epic: (String::new(), String::new()),
            story: (String::new(), String::new()),
            confirm_epic: false,
            confirm_story: false,
            status: None,
        }
    }
}

impl Prompter for TestPrompts {
    fn create_epic(&self) -> Epic {
        Epic::new(self.epic.0.clone(), self.epic.1.clone())
    }

    fn create_story(&self) -> Story {
        Story::new(self.story.0.clone(), self.story.1.clone())
    }

    fn delete_epic(&self) -> bool {
        self.confirm_epic
    }

    fn delete_story(&self) -> bool {
        self.confirm_story
    }

    fn update_status(&self) -> Option<Status> {
        self.status
    }
}

fn make_sut() -> Navigator<MockDB, TestPrompts> {
    Navigator::new(make_dao(), TestPrompts::new())
}

fn navigator_over(dao: JiraDAO<MockDB>) -> Navigator<MockDB, TestPrompts> {
    Navigator::new(dao, TestPrompts::new())
}

#[test]
fn should_start_on_home_page() {
    let sut = make_sut();
    let current_page = sut.get_current_page().unwrap();
    assert_eq!(sut.get_page_count(), 1);
    assert_eq!(matches!(current_page, Page::Home(_)), true);
}

#[test]
fn handle_action_should_navigate_pages() {
    let mut sut = make_sut();

    sut.handle_action(Action::NavigateToEpicDetail { epic_id: 1 })
        .unwrap();
    assert_eq!(sut.get_page_count(), 2);

    let current_page = sut.get_current_page().unwrap();
    assert_eq!(matches!(current_page, Page::EpicDetail(_)), true);

    sut.handle_action(Action::NavigateToStoryDetail {
        epic_id: 1,
        story_id: 2,
    })
    .unwrap();
    assert_eq!(sut.get_page_count(), 3);

    let current_page = sut.get_current_page().unwrap();
    assert_eq!(matches!(current_page, Page::StoryDetail(_)), true);

    sut.handle_action(Action::NavigateToPreviousPage).unwrap();
    assert_eq!(sut.get_page_count(), 2);

    let current_page = sut.get_current_page().unwrap();
    assert_eq!(matches!(current_page, Page::EpicDetail(_)), true);

    sut.handle_action(Action::NavigateToPreviousPage).unwrap();
    assert_eq!(sut.get_page_count(), 1);

    let current_page = sut.get_current_page().unwrap();
    assert_eq!(matches!(current_page, Page::Home(_)), true);

    sut.handle_action(Action::NavigateToPreviousPage).unwrap();
    assert_eq!(sut.get_page_count(), 0);

    sut.handle_action(Action::NavigateToPreviousPage).unwrap();
    assert_eq!(sut.get_page_count(), 0);
}

#[test]
fn handle_action_should_clear_pages_on_exit() {
    let mut sut = make_sut();
    sut.handle_action(Action::Exit).unwrap();
    assert_eq!(sut.get_page_count(), 0);
}

#[test]
fn handle_action_should_handle_create_epic() {
    let mut sut = navigator_over(make_dao());
    let mut prompts = TestPrompts::new();
    prompts.epic = ("name".to_owned(), "description".to_owned());
    sut.set_prompts(prompts);

    sut.handle_action(Action::CreateEpic).unwrap();

    let db_state = sut.dao().read_db().unwrap();
    assert_eq!(db_state.epics.len(), 1);
    let epic = db_state.epics.into_iter().next().unwrap().1;
    assert_eq!(epic.name, "name".to_owned());
    assert_eq!(epic.description, "description".to_owned());
}

#[test]
fn handle_action_should_handle_update_epic() {
    let mut dao = make_dao();
    let epic_id = dao
        .create_epic(Epic::new("".to_owned(), "".to_owned()))
        .unwrap();
    let mut sut = navigator_over(dao);
    let mut prompts = TestPrompts::new();
    prompts.status = Some(Status::InProgress);
    sut.set_prompts(prompts);

    sut.handle_action(Action::UpdateEpicStatus { epic_id })
        .unwrap();

    let db_state = sut.dao().read_db().unwrap();
    assert_eq!(
        db_state.epics.get(&epic_id).unwrap().status,
        Status::InProgress
    );
}

#[test]
fn handle_action_should_handle_delete_epic() {
    let mut dao = make_dao();
    let epic_id = dao
        .create_epic(Epic::new("".to_owned(), "".to_owned()))
        .unwrap();
    let mut sut = navigator_over(dao);
    let mut prompts = TestPrompts::new();
    prompts.confirm_epic = true;
    sut.set_prompts(prompts);

    sut.handle_action(Action::DeleteEpic { epic_id }).unwrap();

    let db_state = sut.dao().read_db().unwrap();
    assert_eq!(db_state.epics.len(), 0);
}

#[test]
fn handle_action_should_handle_create_story() {
    let mut dao = make_dao();
    let epic_id = dao
        .create_epic(Epic::new("".to_owned(), "".to_owned()))
        .unwrap();
    let mut sut = navigator_over(dao);
    let mut prompts = TestPrompts::new();
    prompts.story = ("name".to_owned(), "description".to_owned());
    sut.set_prompts(prompts);

    sut.handle_action(Action::CreateStory { epic_id }).unwrap();

    let db_state = sut.dao().read_db().unwrap();
    assert_eq!(db_state.stories.len(), 1);

    let story = db_state.stories.into_iter().next().unwrap().1;
    assert_eq!(story.name, "name".to_owned());
    assert_eq!(story.description, "description".to_owned());
}

#[test]
fn handle_action_should_handle_update_story() {
    let mut dao = make_dao();
    let epic_id = dao
        .create_epic(Epic::new("".to_owned(), "".to_owned()))
        .unwrap();
    let story_id = dao
        .create_story(Story::new("".to_owned(), "".to_owned()), epic_id)
        .unwrap();
    let mut sut = navigator_over(dao);
    let mut prompts = TestPrompts::new();
    prompts.status = Some(Status::InProgress);
    sut.set_prompts(prompts);
    sut.handle_action(Action::UpdateStoryStatus { story_id })
        .unwrap();
    let db_state = sut.dao().read_db().unwrap();
    assert_eq!(
        db_state.stories.get(&story_id).unwrap().status,
        Status::InProgress
    );
}

#[test]
fn handle_action_should_handle_delete_story() {
    let mut dao = make_dao();
    let epic_id = dao
        .create_epic(Epic::new("".to_owned(), "".to_owned()))
        .unwrap();
    let story_id = dao
        .create_story(Story::new("".to_owned(), "".to_owned()), epic_id)
        .unwrap();
    let mut sut = navigator_over(dao);
    let mut prompts = TestPrompts::new();
    prompts.confirm_story = true;
    sut.set_prompts(prompts);
    sut.handle_action(Action::DeleteStory { epic_id, story_id })
        .unwrap();
    let db_state = sut.dao().read_db().unwrap();
    assert_eq!(db_state.stories.len(), 0);
}

#[test]
fn navigator_stack_depths() {
    let mut sut = make_sut();
    assert_eq!(sut.get_page_count(), 1);
    sut.handle_action(Action::NavigateToEpicDetail { epic_id: 1 }).unwrap();
    sut.handle_action(Action::NavigateToStoryDetail { epic_id: 1, story_id: 2 }).unwrap();
    assert_eq!(sut.get_page_count(), 3);
    sut.handle_action(Action::NavigateToPreviousPage).unwrap();
    sut.handle_action(Action::NavigateToPreviousPage).unwrap();
    assert_eq!(sut.get_page_count(), 1);
    sut.handle_action(Action::Exit).unwrap();
    assert_eq!(sut.get_page_count(), 0);
    sut.handle_action(Action::NavigateToPreviousPage).unwrap();
    assert_eq!(sut.get_page_count(), 0);
    assert_eq!(sut.get_current_page().is_none(), true);
}

#[test]
fn exit_clears_a_deep_stack() {
    let mut sut = make_sut();
    sut.handle_action(Action::NavigateToEpicDetail { epic_id: 1 }).unwrap();
    sut.handle_action(Action::NavigateToEpicDetail { epic_id: 1 }).unwrap();
    sut.handle_action(Action::NavigateToStoryDetail { epic_id: 1, story_id: 2 }).unwrap();
    sut.handle_action(Action::Exit).unwrap();
    assert_eq!(sut.get_page_count(), 0);
}

#[test]
fn confirmed_delete_pops_the_page() {
    let mut dao = make_dao();
    let epic_id = dao.create_epic(Epic::new("".to_owned(), "".to_owned())).unwrap();
    let mut sut = navigator_over(dao);
    let mut prompts = TestPrompts::new();
    prompts.confirm_epic = true;
    sut.set_prompts(prompts);
    sut.handle_action(Action::NavigateToEpicDetail { epic_id }).unwrap();
    assert_eq!(sut.get_page_count(), 2);
    sut.handle_action(Action::DeleteEpic { epic_id }).unwrap();
    assert_eq!(sut.get_page_count(), 1);
}

#[test]
fn declined_delete_changes_nothing() {
    let mut dao = make_dao();
    let epic_id = dao.create_epic(Epic::new("".to_owned(), "".to_owned())).unwrap();
    let mut sut = navigator_over(dao);
    sut.handle_action(Action::NavigateToEpicDetail { epic_id }).unwrap();
    sut.handle_action(Action::DeleteEpic { epic_id }).unwrap();
    assert_eq!(sut.get_page_count(), 2);
    assert_eq!(sut.dao().read_db().unwrap().epics.len(), 1);
}

#[test]
fn failed_delete_keeps_the_page() {
    let mut sut = make_sut();
    let mut prompts = TestPrompts::new();
    prompts.confirm_epic = true;
    sut.set_prompts(prompts);
    sut.handle_action(Action::NavigateToEpicDetail { epic_id: 5 }).unwrap();
    let r = sut.handle_action(Action::DeleteEpic { epic_id: 5 });
    assert_eq!(r, Err(jira_tracker::error::DaoError::EpicNotFound(5)));
    assert_eq!(sut.get_page_count(), 2);
}

#[test]
fn rejected_status_update_is_reported() {
    let mut dao = make_dao();
    let epic_id = dao.create_epic(Epic::new("".to_owned(), "".to_owned())).unwrap();
    let mut sut = navigator_over(dao);
    let mut prompts = TestPrompts::new();
    prompts.status = Some(Status::Open);
    sut.set_prompts(prompts);
    let r = sut.handle_action(Action::UpdateEpicStatus { epic_id });
    assert_eq!(r.is_err(), true);
    assert_eq!(sut.dao().read_db().unwrap().epics.get(&epic_id).unwrap().status, Status::Open);
}

#[test]
fn update_with_a_status_applies_it_and_without_one_does_nothing() {
    let mut dao = make_dao();
    let epic_id = dao.create_epic(Epic::new("".to_owned(), "".to_owned())).unwrap();
    let story_id = dao.create_story(Story::new("".to_owned(), "".to_owned()), epic_id).unwrap();
    let mut sut = navigator_over(dao);
    assert_eq!(sut.update_epic_status(epic_id, None), Ok(()));
    assert_eq!(sut.dao().read_db().unwrap().epics.get(&epic_id).unwrap().status, Status::Open);
    assert_eq!(sut.update_epic_status(epic_id, Some(Status::Closed)), Ok(()));
    assert_eq!(sut.dao().read_db().unwrap().epics.get(&epic_id).unwrap().status, Status::Closed);
    assert_eq!(sut.update_story_status(story_id, None), Ok(()));
    assert_eq!(sut.update_story_status(story_id, Some(Status::Resolved)), Ok(()));
    assert_eq!(sut.dao().read_db().unwrap().stories.get(&story_id).unwrap().status, Status::Resolved);
    assert_eq!(sut.get_page_count(), 1);
}

#[test]
fn delete_only_on_confirmation() {
    let mut dao = make_dao();
    let epic_id = dao.create_epic(Epic::new("".to_owned(), "".to_owned())).unwrap();
    let story_id = dao.create_story(Story::new("".to_owned(), "".to_owned()), epic_id).unwrap();
    let mut sut = navigator_over(dao);
    sut.handle_action(Action::NavigateToEpicDetail { epic_id }).unwrap();
    sut.handle_action(Action::NavigateToStoryDetail { epic_id, story_id }).unwrap();
    assert_eq!(sut.delete_story(epic_id, story_id, false), Ok(()));
    assert_eq!(sut.get_page_count(), 3);
    assert_eq!(sut.dao().read_db().unwrap().stories.len(), 1);
    assert_eq!(sut.delete_story(epic_id, story_id, true), Ok(()));
    assert_eq!(sut.get_page_count(), 2);
    assert_eq!(sut.dao().read_db().unwrap().stories.len(), 0);
    assert_eq!(sut.delete_epic(epic_id, false), Ok(()));
    assert_eq!(sut.dao().read_db().unwrap().epics.len(), 1);
    assert_eq!(sut.delete_epic(epic_id, true), Ok(()));
    assert_eq!(sut.get_page_count(), 1);
    assert_eq!(sut.dao().read_db().unwrap().epics.len(), 0);
}

#[test]
fn create_with_the_given_answers() {
    let mut sut = make_sut();
    assert_eq!(sut.create_epic(Epic::new("E".to_owned(), "d".to_owned())), Ok(()));
    assert_eq!(sut.create_story(1, Story::new("S".to_owned(), "t".to_owned())), Ok(()));
    assert_eq!(
        sut.create_story(9, Story::new("S".to_owned(), "t".to_owned())),
        Err(jira_tracker::error::DaoError::EpicNotFound(9))
    );
    let state = sut.dao().read_db().unwrap();
    assert_eq!(state.epics.get(&1).unwrap().name, "E".to_owned());
    assert_eq!(state.epics.get(&1).unwrap().stories, vec![2]);
    assert_eq!(state.stories.get(&2).unwrap().name, "S".to_owned());
    assert_eq!(sut.get_page_count(), 1);
}
