use jira_cli::db::{DataBase, JiraDataBase, MockDB};
use jira_cli::model::{ItemId, ItemStatus, ItemType};

fn mock_store() -> JiraDataBase<MockDB> {
    JiraDataBase { database: MockDB::new() }
}

#[test]
fn create_epic_should_work() {
    let mut db = mock_store();
    let result = db.create_epic(
        "First Epic".to_owned(),
        "This is the first test epic".to_owned(),
    );

    assert_eq!(result.is_ok(), true);

    let id = result.unwrap();
    let db_state = db.read_db().unwrap();
    let expected_id = ItemId(0);

    assert_eq!(id, expected_id);

    match db_state.last_item {
        ItemType::Epic { id } => assert_eq!(id, expected_id),
        _ => (),
    }

    let epic = db_state.epics.get(&id.0);

    assert!(epic.is_some());

    let epic = epic.unwrap();
    assert_eq!(epic.detail.name, "First Epic");
}

#[test]
fn should_fail_when_creating_story_without_epic_id() {
    let mut db = mock_store();
    let result = db.create_story(
        "Failure Story Without Epic".to_owned(),
        "This story won't be created if the Epic ID is not valid nor found".to_owned(),
        Some(ItemId(90000)),
    );

    assert!(result.is_err());
    assert_eq!(
        result.err().unwrap().message(),
        format!("Epic ID: {:?} was not found", ItemId(90000))
    );
}

#[test]
fn should_create_story_with_epic_id() {
    let mut db = mock_store();
    let epic_id = db
        .create_epic(
            "First Epic".to_owned(),
            "This is the first test epic".to_owned(),
        )
        .unwrap();
    let result = db.create_story(
        "Story With Epic".to_owned(),
        "This story will be part of an Epic".to_owned(),
        Some(epic_id),
    );

    assert!(result.is_ok());

    let data = db.database.read_db().unwrap();
    let epic = data.epics.get(&epic_id.0).unwrap();

    assert_eq!(epic.stories.len(), 1);
    assert_eq!(*epic.stories.first().unwrap(), result.unwrap())
}

#[test]
fn should_create_story_without_epic_id() {
    let mut db = mock_store();
    let result = db.create_story(
        "First Story".to_owned(),
        "This is the first test story".to_owned(),
        None,
    );

    assert_eq!(result.is_ok(), true);

    let id = result.unwrap();
    let db_state = db.read_db().unwrap();
    let expected_id = ItemId(0);

    assert_eq!(id, expected_id);

    match db_state.last_item {
        ItemType::Story { id } => assert_eq!(id, expected_id),
        _ => (),
    }

    let story = db_state.stories.get(&id.0);

    assert!(story.is_some());

    let story = story.unwrap();
    assert_eq!(story.detail.name, "First Story");
}

#[test]
fn should_delete_an_epic() {
    let mut db = mock_store();
    let epic_id = db
        .create_epic(
            "First Epic".to_owned(),
            "This is the first test epic".to_owned(),
        )
        .unwrap();
    let result = db.delete_epic(epic_id);

    assert!(result.is_ok());
}

#[test]
fn should_fail_when_deleting_an_epic_with_invalid_id() {
    let mut db = mock_store();
    let result = db.delete_epic(ItemId(0));

    assert!(result.is_err());
    assert_eq!(
        result.err().unwrap().message(),
        format!("Epic ID: {:?} was not found", ItemId(0))
    )
}

#[test]
fn should_delete_story_without_epic_id() {
    let mut db = mock_store();
    let story_id = db
        .create_story(
            "First Story".to_owned(),
            "This is the first test story".to_owned(),
            None,
        )
        .unwrap();
    let result = db.delete_story(story_id, None);

    assert!(result.is_ok());
}

#[test]
fn should_fail_when_deleting_a_story_with_invalid_epic_id() {
    let mut db = mock_store();
    let epic_id = db
        .create_epic(
            "First Epic".to_owned(),
            "This is the first test epic".to_owned(),
        )
        .unwrap();
    let story_id = db
        .create_story(
            "Story With Epic".to_owned(),
            "This story will be part of an Epic".to_owned(),
            Some(epic_id),
        )
        .unwrap();
    let result = db.delete_story(story_id, Some(ItemId(90000)));

    assert!(result.is_err());
    assert_eq!(
        result.err().unwrap().message(),
        format!("Epic ID: {:?} was not found", ItemId(90000))
    );
}

#[test]
fn should_update_the_epic_status() {
    let mut db = mock_store();
    let epic_id = db
        .create_epic(
            "First Epic".to_owned(),
            "This is the first test epic".to_owned(),
        )
        .unwrap();
    let result = db.update_epic_status(epic_id, ItemStatus::Resolved);

    assert!(result.is_ok());

    let data = db.database.read_db().unwrap();
    let epic = data.epics.get(&epic_id.0).unwrap();

    assert_eq!(epic.detail.status, ItemStatus::Resolved);
}

#[test]
fn should_fail_to_update_epic_with_invalid_id() {
    let mut db = mock_store();
    let result = db.update_epic_status(ItemId(0), ItemStatus::Closed);

    assert!(result.is_err());
    assert_eq!(
        result.err().unwrap().message(),
        format!("Epic ID: {:?} was not found.", ItemId(0))
    );
}

#[test]
fn should_update_story_status() {
    let mut db = mock_store();
    let story_id = db
        .create_story(
            "First Story".to_owned(),
            "This is the first test story".to_owned(),
            None,
        )
        .unwrap();
    let result = db.update_story_status(story_id, ItemStatus::Resolved);

    assert!(result.is_ok());

    let data = db.database.read_db().unwrap();
    let story = data.stories.get(&story_id.0).unwrap();

    assert_eq!(story.detail.status, ItemStatus::Resolved);
}

#[test]
fn should_fail_to_update_story_status_with_invalid_id() {
    let mut db = mock_store();
    let result = db.update_story_status(ItemId(0), ItemStatus::Closed);

    assert!(result.is_err());
    assert_eq!(
        result.err().unwrap().message(),
        format!("Story ID: {:?} was not found.", ItemId(0))
    );
}
