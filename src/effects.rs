use vstd::prelude::*;

use crate::errors::{DbError, ItemKind, Operation};
use crate::model::{DBView, EpicView, ItemDetailView, ItemId, ItemStatus, ItemType, StoryView};

verus! {

/// The id that a new item gets: one more than the largest key, or 0 when there is none.
pub open spec fn is_next_id(keys: Set<u32>, id: u32) -> bool {
    if keys.is_empty() {
        id == 0
    } else {
        &&& id > 0
        &&& keys.contains((id - 1) as u32)
        &&& forall|k: u32| keys.contains(k) ==> k < id
    }
}

/// The id that a new item gets in a collection with these keys.
pub open spec fn next_id_of(keys: Set<u32>) -> u32 {
    choose|id: u32| is_next_id(keys, id)
}

/// At most one id is next for a set of keys.
pub(crate) proof fn lemma_next_id_unique(keys: Set<u32>, a: u32, b: u32)
    requires
        is_next_id(keys, a),
        is_next_id(keys, b),
    ensures
        a == b,
{
    if !keys.is_empty() {
        assert(keys.contains((a - 1) as u32));
        assert(keys.contains((b - 1) as u32));
    }
}

/// Index of the first `x` in `s`; meaningful where `s` holds `x`.
pub open spec fn first_index(s: Seq<u32>, x: u32) -> int {
    choose|i: int| 0 <= i < s.len() && s[i] == x && forall|j: int| 0 <= j < i ==> s[j] != x
}

/// The fields of a newly created item.
pub open spec fn fresh_detail(id: u32, name: Seq<char>, description: Seq<char>) -> ItemDetailView {
    ItemDetailView { description, id, name, status: ItemStatus::Open }
}

impl DBView {
    pub open spec fn with_new_epic(self, id: u32, name: Seq<char>, description: Seq<char>) -> DBView {
        DBView {
            last_item: ItemType::Epic { id: ItemId(id) },
            epics: self.epics.insert(
                id,
                EpicView { detail: fresh_detail(id, name, description), stories: Seq::empty() },
            ),
            stories: self.stories,
        }
    }

    pub open spec fn with_epic_stories(self, e: u32, stories: Seq<u32>) -> DBView {
        DBView {
            epics: self.epics.insert(e, EpicView { stories, ..self.epics[e] }),
            ..self
        }
    }

    pub open spec fn with_new_story(
        self,
        id: u32,
        name: Seq<char>,
        description: Seq<char>,
        epic: Option<ItemId>,
    ) -> DBView {
        let added = DBView {
            last_item: ItemType::Story { id: ItemId(id) },
            epics: self.epics,
            stories: self.stories.insert(id, StoryView { detail: fresh_detail(id, name, description) }),
        };
        match epic {
            Some(e) => added.with_epic_stories(e.0, self.epics[e.0].stories.push(id)),
            None => added,
        }
    }

    pub open spec fn with_epic_status(self, e: u32, status: ItemStatus) -> DBView {
        let epic = self.epics[e];
        DBView {
            epics: self.epics.insert(
                e,
                EpicView { detail: ItemDetailView { status, ..epic.detail }, ..epic },
            ),
            ..self
        }
    }

    pub open spec fn with_story_status(self, s: u32, status: ItemStatus) -> DBView {
        let story = self.stories[s];
        DBView {
            stories: self.stories.insert(
                s,
                StoryView { detail: ItemDetailView { status, ..story.detail } },
            ),
            ..self
        }
    }

    /// Story `s` taken out of the list of epic `e`.
    pub open spec fn detached(self, e: u32, s: u32) -> DBView {
        let list = self.epics[e].stories;
        self.with_epic_stories(e, list.remove(first_index(list, s)))
    }

    /// Story `s` taken out of the story collection, and out of the last-item marker.
    pub open spec fn without_story(self, s: u32) -> DBView {
        DBView {
            last_item: if self.last_item == (ItemType::Story { id: ItemId(s) }) {
                ItemType::Empty
            } else {
                self.last_item
            },
            epics: self.epics,
            stories: self.stories.remove(s),
        }
    }

    /// Each of `ids` taken out in turn, first to last.
    pub open spec fn without_stories(self, ids: Seq<u32>) -> DBView
        decreases ids.len(),
    {
        if ids.len() == 0 {
            self
        } else {
            self.without_stories(ids.drop_last()).without_story(ids.last())
        }
    }

    /// Epic `e` with every story that it lists taken out.
    pub open spec fn without_epic(self, e: u32) -> DBView {
        let purged = self.without_stories(self.epics[e].stories);
        DBView {
            last_item: if purged.last_item == (ItemType::Epic { id: ItemId(e) }) {
                ItemType::Empty
            } else {
                purged.last_item
            },
            epics: purged.epics.remove(e),
            stories: purged.stories,
        }
    }
}

/// What taking out `ids` in turn does: those stories leave the collection, epics stay,
/// and a marker on one of them is cleared.
pub proof fn lemma_without_stories(db: DBView, ids: Seq<u32>)
    ensures
        db.without_stories(ids).epics == db.epics,
        db.without_stories(ids).stories == db.stories.remove_keys(ids.to_set()),
        db.without_stories(ids).last_item == (match db.last_item {
            ItemType::Story { id } => if ids.contains(id.0) { ItemType::Empty } else { db.last_item },
            _ => db.last_item,
        }),
    decreases ids.len(),
{
    if ids.len() > 0 {
        let rest = ids.drop_last();
        lemma_without_stories(db, rest);
        assert(ids =~= rest.push(ids.last()));
        assert(ids.to_set() =~= rest.to_set().insert(ids.last()));
        assert(db.without_stories(ids).stories =~= db.stories.remove_keys(ids.to_set()));
        match db.last_item {
            ItemType::Story { id } => {
                if rest.contains(id.0) {
                    assert(ids.contains(id.0)) by {
                        let j = choose|j: int| 0 <= j < rest.len() && rest[j] == id.0;
                        assert(ids[j] == id.0);
                    }
                } else if ids.contains(id.0) {
                    let j = choose|j: int| 0 <= j < ids.len() && ids[j] == id.0;
                    if j < ids.len() - 1 {
                        assert(rest[j] == id.0);
                    }
                } else {
                    assert(ids[ids.len() - 1] == ids.last());
                }
            },
            _ => {},
        }
    } else {
        assert(db.stories.remove_keys(ids.to_set()) =~= db.stories);
    }
}

/// How an operation with a document-level refusal ends: a refused or failed call leaves
/// the stored document as it was, an accepted one stores `effect`, and a reliable backend
/// fails no call that the document does not refuse.
pub open spec fn settles<T>(
    before: DBView,
    after: DBView,
    refusal: Option<DbError>,
    effect: DBView,
    reliable: bool,
    r: Result<T, DbError>,
) -> bool {
    &&& match r {
        Ok(_) => refusal is None && after == effect,
        Err(e) => after == before && (e.is_storage() || refusal == Some(e)),
    }
    &&& reliable ==> match refusal {
        Some(e) => r == Err::<T, DbError>(e),
        None => r is Ok,
    }
}

pub open spec fn create_epic_refusal(db: DBView) -> Option<DbError> {
    if db.epics.contains_key(u32::MAX) {
        Some(DbError::NoFreeId { kind: ItemKind::Epic })
    } else {
        None
    }
}

pub open spec fn create_epic_outcome(
    before: DBView,
    after: DBView,
    name: Seq<char>,
    description: Seq<char>,
    reliable: bool,
    r: Result<ItemId, DbError>,
) -> bool {
    let id = next_id_of(before.epics.dom());
    &&& settles(before, after, create_epic_refusal(before), before.with_new_epic(id, name, description), reliable, r)
    &&& r matches Ok(i) ==> i.0 == id && is_next_id(before.epics.dom(), id)
}

pub open spec fn create_story_refusal(db: DBView, epic: Option<ItemId>) -> Option<DbError> {
    if db.stories.contains_key(u32::MAX) {
        Some(DbError::NoFreeId { kind: ItemKind::Story })
    } else {
        match epic {
            Some(e) => if db.epics.contains_key(e.0) {
                None
            } else {
                Some(DbError::NotFound { kind: ItemKind::Epic, id: e, op: Operation::Create })
            },
            None => None,
        }
    }
}

pub open spec fn create_story_outcome(
    before: DBView,
    after: DBView,
    name: Seq<char>,
    description: Seq<char>,
    epic: Option<ItemId>,
    reliable: bool,
    r: Result<ItemId, DbError>,
) -> bool {
    let id = next_id_of(before.stories.dom());
    &&& settles(
        before,
        after,
        create_story_refusal(before, epic),
        before.with_new_story(id, name, description, epic),
        reliable,
        r,
    )
    &&& r matches Ok(i) ==> i.0 == id && is_next_id(before.stories.dom(), id)
}

/// Where the caller names an existing epic as the story's owner, that epic lists the
/// story; naming a wrong owner is a programming error, not a request to refuse.
pub open spec fn listed_where_named(db: DBView, s: ItemId, epic: Option<ItemId>) -> bool {
    match epic {
        Some(e) => db.epics.contains_key(e.0) ==> db.epics[e.0].stories.contains(s.0),
        None => true,
    }
}

pub open spec fn delete_story_refusal(db: DBView, s: ItemId, epic: Option<ItemId>) -> Option<DbError> {
    let story_check = if db.stories.contains_key(s.0) {
        None
    } else {
        Some(DbError::NotFound { kind: ItemKind::Story, id: s, op: Operation::Delete })
    };
    match epic {
        Some(e) => if !db.epics.contains_key(e.0) {
            Some(DbError::NotFound { kind: ItemKind::Epic, id: e, op: Operation::Delete })
        } else {
            story_check
        },
        None => story_check,
    }
}

pub open spec fn delete_story_effect(db: DBView, s: ItemId, epic: Option<ItemId>) -> DBView {
    match epic {
        Some(e) => db.detached(e.0, s.0).without_story(s.0),
        None => db.without_story(s.0),
    }
}

pub open spec fn delete_story_outcome(
    before: DBView,
    after: DBView,
    s: ItemId,
    epic: Option<ItemId>,
    reliable: bool,
    r: Result<(), DbError>,
) -> bool {
    settles(before, after, delete_story_refusal(before, s, epic), delete_story_effect(before, s, epic), reliable, r)
}

/// Every story that epic `e` lists is stored, and none is listed twice.
pub open spec fn cascade_clean(db: DBView, e: u32) -> bool {
    &&& db.epics[e].stories.no_duplicates()
    &&& forall|i: int|
        0 <= i < db.epics[e].stories.len() ==> db.stories.contains_key(#[trigger] db.epics[e].stories[i])
}

pub open spec fn delete_epic_outcome(
    before: DBView,
    after: DBView,
    e: ItemId,
    reliable: bool,
    r: Result<(), DbError>,
) -> bool {
    &&& !before.epics.contains_key(e.0) ==> {
        &&& after == before
        &&& r is Err
        &&& reliable ==> r == Err::<(), DbError>(
            DbError::NotFound { kind: ItemKind::Epic, id: e, op: Operation::Delete },
        )
    }
    &&& match r {
        Ok(()) => before.epics.contains_key(e.0) && after == before.without_epic(e.0),
        Err(DbError::NotFound { kind: ItemKind::Story, id, op }) => {
            &&& op == Operation::Delete
            &&& before.epics.contains_key(e.0)
            &&& before.epics[e.0].stories.contains(id.0)
        },
        Err(DbError::NotFound { kind: ItemKind::Epic, id, op }) => {
            &&& id == e && op == Operation::Delete
            &&& !before.epics.contains_key(e.0)
        },
        Err(err) => err.is_storage(),
    }
    &&& reliable && before.epics.contains_key(e.0) ==> (r is Ok <==> cascade_clean(before, e.0))
}

pub open spec fn update_epic_status_refusal(db: DBView, e: ItemId) -> Option<DbError> {
    if db.epics.contains_key(e.0) {
        None
    } else {
        Some(DbError::NotFound { kind: ItemKind::Epic, id: e, op: Operation::Update })
    }
}

pub open spec fn update_story_status_refusal(db: DBView, s: ItemId) -> Option<DbError> {
    if db.stories.contains_key(s.0) {
        None
    } else {
        Some(DbError::NotFound { kind: ItemKind::Story, id: s, op: Operation::Update })
    }
}

pub open spec fn update_epic_status_outcome(
    before: DBView,
    after: DBView,
    e: ItemId,
    status: ItemStatus,
    reliable: bool,
    r: Result<(), DbError>,
) -> bool {
    settles(before, after, update_epic_status_refusal(before, e), before.with_epic_status(e.0, status), reliable, r)
}

pub open spec fn update_story_status_outcome(
    before: DBView,
    after: DBView,
    s: ItemId,
    status: ItemStatus,
    reliable: bool,
    r: Result<(), DbError>,
) -> bool {
    settles(before, after, update_story_status_refusal(before, s), before.with_story_status(s.0, status), reliable, r)
}

/// Every story id that an epic lists is a stored story.
pub open spec fn references_valid(db: DBView) -> bool {
    forall|e: u32, i: int|
        db.epics.contains_key(e) && 0 <= i < db.epics[e].stories.len() ==> db.stories.contains_key(
            #[trigger] db.epics[e].stories[i],
        )
}

/// No story is listed by two different epics.
pub open spec fn ownership_exclusive(db: DBView) -> bool {
    forall|e1: u32, e2: u32, s: u32|
        e1 != e2 && db.epics.contains_key(e1) && db.epics.contains_key(e2) && #[trigger] db.epics[e1].stories.contains(s)
            ==> !#[trigger] db.epics[e2].stories.contains(s)
}

/// `x` stands in `s` at exactly one place.
pub open spec fn occurs_once(s: Seq<u32>, x: u32) -> bool {
    exists|i: int| 0 <= i < s.len() && s[i] == x && forall|j: int| 0 <= j < s.len() && s[j] == x ==> j == i
}

} // verus!
