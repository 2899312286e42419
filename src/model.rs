use vstd::prelude::*;
use std::collections::HashMap;

verus! {

/// Workflow state of an epic or a story.
#[derive(Clone, Copy, Debug, PartialEq, Eq, Structural)]
pub enum ItemStatus {
    Closed,
    InProgress,
    Open,
    Resolved,
}

impl ItemStatus {
    /// The text shown for a status on screen.
    pub open spec fn label_spec(self) -> Seq<char> {
        match self {
            ItemStatus::Closed => "Closed"@,
            ItemStatus::InProgress => "IN PROGRESS"@,
            ItemStatus::Open => "OPEN"@,
            ItemStatus::Resolved => "RESOLVED"@,
        }
    }

    pub fn label(&self) -> (r: String)
        ensures
            r@ == self.label_spec(),
    {
        let s = match self {
            ItemStatus::Closed => "Closed",
            ItemStatus::InProgress => "IN PROGRESS",
            ItemStatus::Open => "OPEN",
            ItemStatus::Resolved => "RESOLVED",
        };
        proof {
            reveal_strlit("Closed");
            reveal_strlit("IN PROGRESS");
            reveal_strlit("OPEN");
            reveal_strlit("RESOLVED");
        }
        s.to_owned()
    }
}

/// What the user asked for on the current page.
#[derive(Clone, Copy, Debug, PartialEq, Eq, Structural)]
pub enum Action {
    NavigateToEpicDetail { epic_id: u32 },
    NavigateToStoryDetail { epic_id: u32, story_id: u32 },
    NavigateToPreviousPage,
    CreateEpic,
    UpdateEpicStatus { epic_id: u32 },
    DeleteEpic { epic_id: u32 },
    CreateStory { epic_id: u32 },
    UpdateStoryStatus { story_id: u32 },
    DeleteStory { epic_id: u32, story_id: u32 },
    Exit,
}

/// Identity of an epic or a story, unique within its own collection.
#[derive(Clone, Copy, Debug, PartialEq, Eq, Structural)]
pub struct ItemId(pub u32);

#[derive(Clone, Debug, PartialEq)]
pub struct ItemDetail {
    pub description: String,
    pub id: ItemId,
    pub name: String,
    pub status: ItemStatus,
}

#[derive(Clone, Debug, PartialEq)]
pub struct Epic {
    pub detail: ItemDetail,
    pub stories: Vec<ItemId>,
}

#[derive(Clone, Debug, PartialEq)]
pub struct Story {
    pub detail: ItemDetail,
}

/// The item that was created or touched last.
#[derive(Clone, Copy, Debug, PartialEq, Eq, Structural)]
pub enum ItemType {
    Epic { id: ItemId },
    Story { id: ItemId },
    Empty,
}

/// The whole persisted document.
#[derive(Clone, Debug, PartialEq)]
pub struct DB {
    pub last_item: ItemType,
    pub epics: HashMap<u32, Epic>,
    pub stories: HashMap<u32, Story>,
}

pub struct ItemDetailView {
    pub description: Seq<char>,
    pub id: u32,
    pub name: Seq<char>,
    pub status: ItemStatus,
}

pub struct EpicView {
    pub detail: ItemDetailView,
    pub stories: Seq<u32>,
}

pub struct StoryView {
    pub detail: ItemDetailView,
}

pub struct DBView {
    pub last_item: ItemType,
    pub epics: Map<u32, EpicView>,
    pub stories: Map<u32, StoryView>,
}

impl View for ItemDetail {
    type V = ItemDetailView;

    open spec fn view(&self) -> ItemDetailView {
        ItemDetailView {
            description: self.description@,
            id: self.id.0,
            name: self.name@,
            status: self.status,
        }
    }
}

pub open spec fn ids_view(ids: Seq<ItemId>) -> Seq<u32> {
    ids.map_values(|i: ItemId| i.0)
}

impl View for Epic {
    type V = EpicView;

    open spec fn view(&self) -> EpicView {
        EpicView { detail: self.detail@, stories: ids_view(self.stories@) }
    }
}

impl View for Story {
    type V = StoryView;

    open spec fn view(&self) -> StoryView {
        StoryView { detail: self.detail@ }
    }
}

impl View for DB {
    type V = DBView;

    open spec fn view(&self) -> DBView {
        DBView {
            last_item: self.last_item,
            epics: self.epics@.map_values(|e: Epic| e@),
            stories: self.stories@.map_values(|s: Story| s@),
        }
    }
}

impl ItemDetail {
    /// A copy that keeps every field.
    pub fn duplicate(&self) -> (r: ItemDetail)
        ensures
            r@ == self@,
    {
        ItemDetail {
            description: self.description.clone(),
            id: self.id,
            name: self.name.clone(),
            status: self.status,
        }
    }
}

impl Epic {
    pub fn new(detail: ItemDetail, stories: Vec<ItemId>) -> (r: Self)
        ensures
            r.detail == detail,
            r.stories == stories,
    {
        Epic { detail, stories }
    }
}

impl Story {
    pub fn new(detail: ItemDetail) -> (r: Self)
        ensures
            r.detail == detail,
    {
        Story { detail }
    }
}

impl DB {
    /// A document with no items and nothing touched.
    pub fn empty() -> (r: DB)
        ensures
            r@ == DBView::empty(),
    {
        let r = DB { last_item: ItemType::Empty, epics: HashMap::new(), stories: HashMap::new() };
        assert(r@.epics =~= Map::empty());
        assert(r@.stories =~= Map::empty());
        r
    }

    /// A copy that keeps every item and the last-item marker.
    pub fn duplicate(&self) -> (r: DB)
        ensures
            r@ == self@,
    {
        DB { last_item: self.last_item, epics: self.epics.clone(), stories: self.stories.clone() }
    }
}

impl DBView {
    pub open spec fn empty() -> DBView {
        DBView { last_item: ItemType::Empty, epics: Map::empty(), stories: Map::empty() }
    }
}

} // verus!
