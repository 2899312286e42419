use vstd::prelude::*;

use crate::model::{Epic, ItemDetail, ItemId, ItemStatus, Story};

verus! {

/// Answers given in advance, as views.
pub struct CannedAnswers {
    pub epic_name: Seq<char>,
    pub epic_description: Seq<char>,
    pub story_name: Seq<char>,
    pub story_description: Seq<char>,
    pub delete_epic: bool,
    pub delete_story: bool,
    pub update_status: Option<ItemStatus>,
}

/// Asks the user for what an action needs before the store is called.
pub trait PromptSource {
    /// The answers, where they are fixed in advance. A source that asks a person has
    /// none, and then nothing is known of what it returns.
    open spec fn canned(&self) -> Option<CannedAnswers> {
        None
    }

    /// The name and description of a new epic.
    fn create_epic(&self) -> (r: Epic)
        ensures
            self.canned() matches Some(a) ==> r.detail.name@ == a.epic_name && r.detail.description@
                == a.epic_description,
    ;

    /// The name and description of a new story.
    fn create_story(&self) -> (r: Story)
        ensures
            self.canned() matches Some(a) ==> r.detail.name@ == a.story_name && r.detail.description@
                == a.story_description,
    ;

    /// Whether the user confirms deleting an epic and its stories.
    fn delete_epic(&self) -> (r: bool)
        ensures
            self.canned() matches Some(a) ==> r == a.delete_epic,
    ;

    /// Whether the user confirms deleting a story.
    fn delete_story(&self) -> (r: bool)
        ensures
            self.canned() matches Some(a) ==> r == a.delete_story,
    ;

    /// The status chosen, if the user chose one.
    fn update_status(&self) -> (r: Option<ItemStatus>)
        ensures
            self.canned() matches Some(a) ==> r == a.update_status,
    ;
}

/// The status that a numbered menu choice stands for: 1 open, 2 in progress,
/// 3 resolved, 4 closed.
pub open spec fn status_choice(n: u32) -> Option<ItemStatus> {
    if n == 1 {
        Some(ItemStatus::Open)
    } else if n == 2 {
        Some(ItemStatus::InProgress)
    } else if n == 3 {
        Some(ItemStatus::Resolved)
    } else if n == 4 {
        Some(ItemStatus::Closed)
    } else {
        None
    }
}

pub fn status_from_choice(n: u32) -> (r: Option<ItemStatus>)
    ensures
        r == status_choice(n),
{
    match n {
        1 => Some(ItemStatus::Open),
        2 => Some(ItemStatus::InProgress),
        3 => Some(ItemStatus::Resolved),
        4 => Some(ItemStatus::Closed),
        _ => None,
    }
}

/// Answers fixed in advance, one per question.
pub struct Prompts {
    pub create_epic: Epic,
    pub create_story: Story,
    pub delete_epic: bool,
    pub delete_story: bool,
    pub update_status: Option<ItemStatus>,
}

fn blank_detail() -> (r: ItemDetail)
    ensures
        r.name@ == Seq::<char>::empty(),
        r.description@ == Seq::<char>::empty(),
        r.id == ItemId(0),
        r.status == ItemStatus::Open,
{
    ItemDetail { description: String::new(), id: ItemId(0), name: String::new(), status: ItemStatus::Open }
}

impl Prompts {
    /// Blank items, no confirmation and no status.
    pub fn new() -> (r: Self)
        ensures
            r.create_epic.detail.name@ == Seq::<char>::empty(),
            r.create_epic.detail.description@ == Seq::<char>::empty(),
            r.create_epic.stories@ == Seq::<ItemId>::empty(),
            r.create_story.detail.name@ == Seq::<char>::empty(),
            r.create_story.detail.description@ == Seq::<char>::empty(),
            !r.delete_epic,
            !r.delete_story,
            r.update_status is None,
    {
        Prompts {
            create_epic: Epic::new(blank_detail(), Vec::new()),
            create_story: Story::new(blank_detail()),
            delete_epic: false,
            delete_story: false,
            update_status: None,
        }
    }
}

impl PromptSource for Prompts {
    open spec fn canned(&self) -> Option<CannedAnswers> {
        Some(
            CannedAnswers {
                epic_name: self.create_epic.detail.name@,
                epic_description: self.create_epic.detail.description@,
                story_name: self.create_story.detail.name@,
                story_description: self.create_story.detail.description@,
                delete_epic: self.delete_epic,
                delete_story: self.delete_story,
                update_status: self.update_status,
            },
        )
    }

    fn create_epic(&self) -> (r: Epic) {
        Epic::new(self.create_epic.detail.duplicate(), Vec::new())
    }

    fn create_story(&self) -> (r: Story) {
        Story::new(self.create_story.detail.duplicate())
    }

    fn delete_epic(&self) -> (r: bool) {
        self.delete_epic
    }

    fn delete_story(&self) -> (r: bool) {
        self.delete_story
    }

    fn update_status(&self) -> (r: Option<ItemStatus>) {
        self.update_status
    }
}

} // verus!
