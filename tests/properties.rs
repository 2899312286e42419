use std::collections::HashMap;

use jira_cli::db::{DataBase, JiraDataBase, MockDB};
use jira_cli::errors::{DbError, ItemKind, Operation};
use jira_cli::model::{Action, Epic, ItemDetail, ItemId, ItemStatus, ItemType, DB};
use jira_cli::navigators::{ActionError, Navigator, Reply};
use jira_cli::pages::{read_id, Page};
use jira_cli::prompts::{status_from_choice, Prompts};

fn mock_store() -> JiraDataBase<MockDB> {
    JiraDataBase { database: MockDB::new() }
}

fn snapshot(db: &JiraDataBase<MockDB>) -> DB {
    db.read_db().unwrap()
}

#[test]
fn login_scenario() {
    let mut db = mock_store();
    let epic = db.create_epic("Login".to_owned(), "".to_owned()).unwrap();
    assert_eq!(epic, ItemId(0));
    let story = db.create_story("Add form".to_owned(), "".to_owned(), Some(ItemId(0))).unwrap();
    assert_eq!(story, ItemId(0));
    assert!(db.delete_story(ItemId(0), Some(ItemId(0))).is_ok());
    assert!(snapshot(&db).epics.get(&0).unwrap().stories.is_empty());
    assert!(db.delete_epic(ItemId(0)).is_ok());
    let state = snapshot(&db);
    assert!(state.epics.is_empty());
    assert!(state.stories.is_empty());
    assert_eq!(state.last_item, ItemType::Empty);
}

#[test]
fn ids_follow_the_largest_key() {
    let mut db = mock_store();
    for expected in 0..3 {
        assert_eq!(db.create_epic("e".to_owned(), "".to_owned()).unwrap(), ItemId(expected));
    }
    db.delete_epic(ItemId(1)).unwrap();
    assert_eq!(db.create_epic("e".to_owned(), "".to_owned()).unwrap(), ItemId(3));
    db.delete_epic(ItemId(3)).unwrap();
    assert_eq!(db.create_epic("e".to_owned(), "".to_owned()).unwrap(), ItemId(3));
    for id in [0, 2, 3] {
        db.delete_epic(ItemId(id)).unwrap();
    }
    assert_eq!(db.create_epic("e".to_owned(), "".to_owned()).unwrap(), ItemId(0));
    assert_eq!(db.create_story("s".to_owned(), "".to_owned(), None).unwrap(), ItemId(0));
    assert_eq!(db.create_story("s".to_owned(), "".to_owned(), None).unwrap(), ItemId(1));
}

#[test]
fn story_is_listed_once_by_its_epic() {
    let mut db = mock_store();
    let epic = db.create_epic("e".to_owned(), "".to_owned()).unwrap();
    db.create_story("a".to_owned(), "".to_owned(), None).unwrap();
    let story = db.create_story("b".to_owned(), "d".to_owned(), Some(epic)).unwrap();
    assert_eq!(story, ItemId(1));
    let state = snapshot(&db);
    let listed = &state.epics.get(&epic.0).unwrap().stories;
    assert_eq!(listed.iter().filter(|id| **id == story).count(), 1);
    let stored = state.stories.get(&story.0).unwrap();
    assert_eq!(stored.detail.name, "b");
    assert_eq!(stored.detail.description, "d");
    assert_eq!(stored.detail.status, ItemStatus::Open);
}

#[test]
fn deleting_an_epic_deletes_its_stories() {
    let mut db = mock_store();
    let epic = db.create_epic("e".to_owned(), "".to_owned()).unwrap();
    let other = db.create_epic("f".to_owned(), "".to_owned()).unwrap();
    let s1 = db.create_story("1".to_owned(), "".to_owned(), Some(epic)).unwrap();
    let s2 = db.create_story("2".to_owned(), "".to_owned(), Some(epic)).unwrap();
    let kept = db.create_story("3".to_owned(), "".to_owned(), Some(other)).unwrap();
    db.delete_epic(epic).unwrap();
    let state = snapshot(&db);
    assert!(state.epics.get(&epic.0).is_none());
    assert!(state.stories.get(&s1.0).is_none());
    assert!(state.stories.get(&s2.0).is_none());
    assert!(state.stories.get(&kept.0).is_some());
    assert_eq!(state.last_item, ItemType::Story { id: kept });
    for epic in state.epics.values() {
        for id in &epic.stories {
            assert!(state.stories.contains_key(&id.0));
        }
    }
}

#[test]
fn unknown_ids_are_reported_and_change_nothing() {
    let mut db = mock_store();
    let epic = db.create_epic("e".to_owned(), "".to_owned()).unwrap();
    db.create_story("s".to_owned(), "".to_owned(), Some(epic)).unwrap();
    let before = snapshot(&db);
    let missing = ItemId(7);
    let not_found = |kind, op| DbError::NotFound { kind, id: missing, op };

    let created = db.create_story("x".to_owned(), "".to_owned(), Some(missing));
    assert_eq!(created, Err(not_found(ItemKind::Epic, Operation::Create)));
    assert_eq!(db.delete_epic(missing), Err(not_found(ItemKind::Epic, Operation::Delete)));
    assert_eq!(db.delete_story(missing, None), Err(not_found(ItemKind::Story, Operation::Delete)));
    assert_eq!(
        db.update_epic_status(missing, ItemStatus::Closed),
        Err(not_found(ItemKind::Epic, Operation::Update))
    );
    assert_eq!(
        db.update_story_status(missing, ItemStatus::Closed),
        Err(not_found(ItemKind::Story, Operation::Update))
    );
    assert_eq!(snapshot(&db), before);
}

#[test]
fn story_not_listed_by_the_named_epic_is_refused() {
    let mut db = mock_store();
    let epic = db.create_epic("e".to_owned(), "".to_owned()).unwrap();
    let story = db.create_story("s".to_owned(), "".to_owned(), None).unwrap();
    let before = snapshot(&db);
    let mut nav = Navigator::new(db, Prompts::new());
    nav.handle_action(Action::NavigateToEpicDetail { epic_id: epic.0 }).unwrap();
    let action = Action::DeleteStory { epic_id: epic.0, story_id: story.0 };
    let err = nav.dispatch(action, Reply::Confirm(true)).unwrap_err();
    assert_eq!(err.cause, DbError::NotInEpic { epic_id: epic, story_id: story });
    assert_eq!(
        err.message(),
        "Failed to delete story: Story ID: ItemId(0) is not listed in Epic ID: ItemId(0)"
    );
    assert_eq!(nav.get_page_count(), 1);
    assert_eq!(nav.database().read_db().unwrap(), before);
}

#[test]
fn canned_prompts_answer_what_they_hold() {
    let mut prompts = Prompts::new();
    prompts.delete_story = true;
    prompts.update_status = Some(ItemStatus::Closed);
    let mut db = mock_store();
    let epic = db.create_epic("e".to_owned(), "".to_owned()).unwrap();
    let story = db.create_story("s".to_owned(), "".to_owned(), Some(epic)).unwrap();
    let mut nav = Navigator::new(db, prompts);
    nav.handle_action(Action::UpdateStoryStatus { story_id: story.0 }).unwrap();
    let state = nav.database().read_db().unwrap();
    assert_eq!(state.stories.get(&story.0).unwrap().detail.status, ItemStatus::Closed);
    nav.handle_action(Action::DeleteStory { epic_id: epic.0, story_id: story.0 }).unwrap();
    let state = nav.database().read_db().unwrap();
    assert!(state.stories.is_empty());
    assert!(state.epics.get(&epic.0).unwrap().stories.is_empty());
}

#[test]
fn status_menu_choices() {
    assert_eq!(status_from_choice(1), Some(ItemStatus::Open));
    assert_eq!(status_from_choice(2), Some(ItemStatus::InProgress));
    assert_eq!(status_from_choice(3), Some(ItemStatus::Resolved));
    assert_eq!(status_from_choice(4), Some(ItemStatus::Closed));
    assert_eq!(status_from_choice(0), None);
    assert_eq!(status_from_choice(5), None);
}

#[test]
fn full_id_space_is_refused() {
    let mut db = mock_store();
    let mut epics = HashMap::new();
    let detail = ItemDetail {
        description: "".to_owned(),
        id: ItemId(u32::MAX),
        name: "last".to_owned(),
        status: ItemStatus::Open,
    };
    epics.insert(u32::MAX, Epic::new(detail, Vec::new()));
    let doc = DB { last_item: ItemType::Empty, epics, stories: HashMap::new() };
    db.database.write_db(&doc).unwrap();
    let err = db.create_epic("e".to_owned(), "".to_owned()).unwrap_err();
    assert_eq!(err, DbError::NoFreeId { kind: ItemKind::Epic });
    assert_eq!(err.message(), "No free Epic ID is left");
    assert_eq!(snapshot(&db), doc);
    assert_eq!(db.create_story("s".to_owned(), "".to_owned(), None).unwrap(), ItemId(0));
}

#[test]
fn last_item_follows_creation_and_deletion() {
    let mut db = mock_store();
    let epic = db.create_epic("e".to_owned(), "".to_owned()).unwrap();
    assert_eq!(snapshot(&db).last_item, ItemType::Epic { id: epic });
    let story = db.create_story("s".to_owned(), "".to_owned(), Some(epic)).unwrap();
    assert_eq!(snapshot(&db).last_item, ItemType::Story { id: story });
    db.delete_story(story, Some(epic)).unwrap();
    assert_eq!(snapshot(&db).last_item, ItemType::Empty);
    let other = db.create_epic("f".to_owned(), "".to_owned()).unwrap();
    db.delete_epic(epic).unwrap();
    assert_eq!(snapshot(&db).last_item, ItemType::Epic { id: other });
    db.delete_epic(other).unwrap();
    assert_eq!(snapshot(&db).last_item, ItemType::Empty);
}

#[test]
fn navigation_depths() {
    let mut nav = Navigator::new(mock_store(), Prompts::new());
    assert_eq!(nav.get_page_count(), 1);
    assert_eq!(nav.get_current_page(), Some(&Page::Home));
    nav.handle_action(Action::NavigateToEpicDetail { epic_id: 4 }).unwrap();
    nav.handle_action(Action::NavigateToStoryDetail { epic_id: 4, story_id: 9 }).unwrap();
    assert_eq!(nav.get_page_count(), 3);
    assert_eq!(nav.get_current_page(), Some(&Page::StoryDetail { epic_id: 4, story_id: 9 }));
    nav.handle_action(Action::NavigateToPreviousPage).unwrap();
    nav.handle_action(Action::NavigateToPreviousPage).unwrap();
    assert_eq!(nav.get_page_count(), 1);
    nav.handle_action(Action::NavigateToEpicDetail { epic_id: 4 }).unwrap();
    nav.handle_action(Action::Exit).unwrap();
    assert_eq!(nav.get_page_count(), 0);
    assert_eq!(nav.get_current_page(), None);
    nav.handle_action(Action::NavigateToPreviousPage).unwrap();
    assert_eq!(nav.get_page_count(), 0);
}

#[test]
fn deletion_pops_even_when_declined_or_failing() {
    let mut nav = Navigator::new(mock_store(), Prompts::new());
    nav.handle_action(Action::NavigateToEpicDetail { epic_id: 4 }).unwrap();
    nav.handle_action(Action::DeleteEpic { epic_id: 4 }).unwrap();
    assert_eq!(nav.get_page_count(), 1);
    nav.handle_action(Action::NavigateToEpicDetail { epic_id: 4 }).unwrap();
    let err: ActionError = nav.dispatch(Action::DeleteEpic { epic_id: 4 }, Reply::Confirm(true)).unwrap_err();
    assert_eq!(nav.get_page_count(), 1);
    assert_eq!(err.action, Action::DeleteEpic { epic_id: 4 });
    assert_eq!(err.message(), "Failed to delete epic: Epic ID: ItemId(4) was not found");
}

#[test]
fn declined_or_unchosen_prompts_leave_the_store_alone() {
    let mut db = mock_store();
    let epic = db.create_epic("e".to_owned(), "".to_owned()).unwrap();
    let mut nav = Navigator::new(db, Prompts::new());
    let before = nav.database().read_db().unwrap();
    nav.handle_action(Action::UpdateEpicStatus { epic_id: epic.0 }).unwrap();
    nav.handle_action(Action::DeleteEpic { epic_id: epic.0 }).unwrap();
    assert_eq!(nav.database().read_db().unwrap(), before);
}

#[test]
fn failing_create_story_reports_context() {
    let mut nav = Navigator::new(mock_store(), Prompts::new());
    let err = nav.handle_action(Action::CreateStory { epic_id: 3 }).unwrap_err();
    assert_eq!(err.message(), "Failed to create story: Epic ID: ItemId(3) was not found");
    assert_eq!(nav.get_page_count(), 1);
}

#[test]
fn ids_are_read_as_decimal_digits() {
    assert_eq!(read_id("0"), Some(0));
    assert_eq!(read_id("42"), Some(42));
    assert_eq!(read_id("4294967295"), Some(u32::MAX));
    assert_eq!(read_id("4294967296"), None);
    assert_eq!(read_id("99999999999x"), None);
    assert_eq!(read_id(""), None);
    assert_eq!(read_id("12a"), None);
    assert_eq!(read_id("-1"), None);
}

#[test]
fn pages_turn_input_into_actions() {
    let mut db = mock_store();
    let epic = db.create_epic("e".to_owned(), "".to_owned()).unwrap();
    let story = db.create_story("s".to_owned(), "".to_owned(), Some(epic)).unwrap();
    let loose = db.create_story("t".to_owned(), "".to_owned(), None).unwrap();
    let state = snapshot(&db);

    let home = Page::Home;
    assert_eq!(home.handle_input(&state, "q"), Some(Action::Exit));
    assert_eq!(home.handle_input(&state, "c"), Some(Action::CreateEpic));
    assert_eq!(home.handle_input(&state, "0"), Some(Action::NavigateToEpicDetail { epic_id: 0 }));
    assert_eq!(home.handle_input(&state, "5"), None);
    assert_eq!(home.handle_input(&state, "x"), None);

    let detail = Page::EpicDetail { epic_id: epic.0 };
    assert_eq!(detail.handle_input(&state, "p"), Some(Action::NavigateToPreviousPage));
    assert_eq!(detail.handle_input(&state, "u"), Some(Action::UpdateEpicStatus { epic_id: 0 }));
    assert_eq!(detail.handle_input(&state, "d"), Some(Action::DeleteEpic { epic_id: 0 }));
    assert_eq!(detail.handle_input(&state, "c"), Some(Action::CreateStory { epic_id: 0 }));
    assert_eq!(
        detail.handle_input(&state, "0"),
        Some(Action::NavigateToStoryDetail { epic_id: epic.0, story_id: story.0 })
    );
    assert_eq!(detail.handle_input(&state, &loose.0.to_string()), None);

    let page = Page::StoryDetail { epic_id: 0, story_id: 0 };
    assert_eq!(page.handle_input(&state, "p"), Some(Action::NavigateToPreviousPage));
    assert_eq!(page.handle_input(&state, "u"), Some(Action::UpdateStoryStatus { story_id: 0 }));
    assert_eq!(page.handle_input(&state, "d"), Some(Action::DeleteStory { epic_id: 0, story_id: 0 }));
    assert_eq!(page.handle_input(&state, "c"), None);
}

#[test]
fn status_labels() {
    assert_eq!(ItemStatus::Closed.label(), "Closed");
    assert_eq!(ItemStatus::InProgress.label(), "IN PROGRESS");
    assert_eq!(ItemStatus::Open.label(), "OPEN");
    assert_eq!(ItemStatus::Resolved.label(), "RESOLVED");
}

#[test]
fn storage_errors_carry_their_text() {
    assert_eq!(DbError::Io("disk gone".to_owned()).message(), "disk gone");
    assert_eq!(DbError::Decode("bad json".to_owned()).message(), "bad json");
    let err = DbError::NotFound { kind: ItemKind::Story, id: ItemId(12), op: Operation::Delete };
    assert_eq!(err.message(), "Story ID: ItemId(12) was not found.");
}

#[test]
fn story_deleted_alone_stays_listed_and_blocks_the_cascade() {
    let mut db = mock_store();
    let epic = db.create_epic("e".to_owned(), "".to_owned()).unwrap();
    let story = db.create_story("s".to_owned(), "".to_owned(), Some(epic)).unwrap();
    db.delete_story(story, None).unwrap();
    assert_eq!(snapshot(&db).epics.get(&epic.0).unwrap().stories, vec![story]);
    let err = db.delete_epic(epic).unwrap_err();
    assert_eq!(err, DbError::NotFound { kind: ItemKind::Story, id: story, op: Operation::Delete });
    assert!(snapshot(&db).epics.contains_key(&epic.0));
}
