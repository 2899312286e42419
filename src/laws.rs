use vstd::prelude::*;

use crate::effects::{
    create_epic_outcome, create_story_outcome, delete_epic_outcome, delete_story_outcome, lemma_without_stories,
    occurs_once, ownership_exclusive, references_valid, update_epic_status_outcome, update_story_status_outcome,
};
use crate::errors::{DbError, ItemKind, Operation};
use crate::model::{Action, DBView, ItemId, ItemStatus, ItemType};
use crate::navigators::next_pages;
use crate::pages::Page;

verus! {

/// Ids are assigned per collection: the first item of an empty collection gets 0, and
/// every later one gets one more than the largest id there.
pub proof fn law_id_assignment(
    before: DBView,
    after_epic: DBView,
    after_story: DBView,
    name: Seq<char>,
    description: Seq<char>,
    epic: Option<ItemId>,
    reliable: bool,
    epic_id: ItemId,
    story_id: ItemId,
)
    requires
        create_epic_outcome(before, after_epic, name, description, reliable, Ok(epic_id)),
        create_story_outcome(before, after_story, name, description, epic, reliable, Ok(story_id)),
    ensures
        before.epics.dom().is_empty() ==> epic_id == ItemId(0),
        !before.epics.dom().is_empty() ==> {
            &&& before.epics.contains_key((epic_id.0 - 1) as u32)
            &&& forall|k: u32| before.epics.contains_key(k) ==> k <= epic_id.0 - 1
        },
        before.stories.dom().is_empty() ==> story_id == ItemId(0),
        !before.stories.dom().is_empty() ==> {
            &&& before.stories.contains_key((story_id.0 - 1) as u32)
            &&& forall|k: u32| before.stories.contains_key(k) ==> k <= story_id.0 - 1
        },
        after_epic.epics.contains_key(epic_id.0),
        after_story.stories.contains_key(story_id.0),
{
}

/// A story created under an existing epic is stored and is listed by that epic exactly
/// once, provided that no epic listed a missing story before.
pub proof fn law_referential_integrity(
    before: DBView,
    after: DBView,
    name: Seq<char>,
    description: Seq<char>,
    epic: ItemId,
    reliable: bool,
    id: ItemId,
)
    requires
        create_story_outcome(before, after, name, description, Some(epic), reliable, Ok(id)),
        references_valid(before),
    ensures
        after.stories.contains_key(id.0),
        after.epics.contains_key(epic.0),
        occurs_once(after.epics[epic.0].stories, id.0),
{
    let list = before.epics[epic.0].stories;
    let grown = after.epics[epic.0].stories;
    assert(grown == list.push(id.0));
    assert forall|j: int| 0 <= j < grown.len() && grown[j] == id.0 implies j == list.len() by {
        if j < list.len() {
            assert(list[j] == grown[j]);
            assert(before.stories.contains_key(before.epics[epic.0].stories[j]));
        }
    }
    assert(grown[list.len() as int] == id.0);
}

/// Deleting an epic removes it and every story it listed; where each story had one owner
/// and every listed story existed, no epic lists a missing story afterwards.
pub proof fn law_cascade_delete(before: DBView, after: DBView, epic: ItemId, reliable: bool)
    requires
        delete_epic_outcome(before, after, epic, reliable, Ok(())),
    ensures
        !after.epics.contains_key(epic.0),
        forall|i: int|
            0 <= i < before.epics[epic.0].stories.len() ==> !after.stories.contains_key(
                #[trigger] before.epics[epic.0].stories[i],
            ),
        references_valid(before) && ownership_exclusive(before) ==> references_valid(after),
{
    let ids = before.epics[epic.0].stories;
    lemma_without_stories(before, ids);
    assert forall|i: int| 0 <= i < ids.len() implies !after.stories.contains_key(#[trigger] ids[i]) by {
        assert(ids.to_set().contains(ids[i]));
    }
    if references_valid(before) && ownership_exclusive(before) {
        assert forall|e: u32, i: int|
            after.epics.contains_key(e) && 0 <= i < after.epics[e].stories.len() implies after.stories.contains_key(
            #[trigger] after.epics[e].stories[i],
        ) by {
            let s = after.epics[e].stories[i];
            assert(before.epics[e].stories.contains(s));
            assert(before.stories.contains_key(before.epics[e].stories[i]));
            assert(!ids.contains(s));
            assert(!ids.to_set().contains(s));
        }
    }
}

/// Naming an id that is not stored fails with `NotFound` for that kind and id, and leaves
/// the document as it was. For a story deletion that names an epic, the epic is either
/// missing or lists the story.
pub proof fn law_not_found(
    before: DBView,
    after: Seq<DBView>,
    name: Seq<char>,
    description: Seq<char>,
    epic: ItemId,
    story: ItemId,
    owner: Option<ItemId>,
    status: ItemStatus,
    created: Result<ItemId, DbError>,
    r: Seq<Result<(), DbError>>,
)
    requires
        after.len() == 5,
        r.len() == 4,
        !before.epics.contains_key(epic.0),
        !before.stories.contains_key(story.0),
        !before.stories.contains_key(u32::MAX),
        owner matches Some(o) ==> (before.epics.contains_key(o.0) ==> before.epics[o.0].stories.contains(story.0)),
        create_story_outcome(before, after[0], name, description, Some(epic), true, created),
        delete_epic_outcome(before, after[1], epic, true, r[0]),
        delete_story_outcome(before, after[2], story, owner, true, r[1]),
        update_epic_status_outcome(before, after[3], epic, status, true, r[2]),
        update_story_status_outcome(before, after[4], story, status, true, r[3]),
    ensures
        created == Err::<ItemId, DbError>(DbError::NotFound { kind: ItemKind::Epic, id: epic, op: Operation::Create }),
        r[0] == Err::<(), DbError>(DbError::NotFound { kind: ItemKind::Epic, id: epic, op: Operation::Delete }),
        r[1] == Err::<(), DbError>(match owner {
            Some(o) => if before.epics.contains_key(o.0) {
                DbError::NotFound { kind: ItemKind::Story, id: story, op: Operation::Delete }
            } else {
                DbError::NotFound { kind: ItemKind::Epic, id: o, op: Operation::Delete }
            },
            None => DbError::NotFound { kind: ItemKind::Story, id: story, op: Operation::Delete },
        }),
        r[2] == Err::<(), DbError>(DbError::NotFound { kind: ItemKind::Epic, id: epic, op: Operation::Update }),
        r[3] == Err::<(), DbError>(DbError::NotFound { kind: ItemKind::Story, id: story, op: Operation::Update }),
        forall|i: int| 0 <= i < 5 ==> after[i] == before,
{
}

/// Creating an item marks it as the last item; deleting the marked item clears the mark.
pub proof fn law_last_item(
    before: DBView,
    after: Seq<DBView>,
    name: Seq<char>,
    description: Seq<char>,
    owner: Option<ItemId>,
    epic: ItemId,
    story: ItemId,
    reliable: bool,
    created_epic: ItemId,
    created_story: ItemId,
)
    requires
        after.len() == 4,
        create_epic_outcome(before, after[0], name, description, reliable, Ok(created_epic)),
        create_story_outcome(before, after[1], name, description, owner, reliable, Ok(created_story)),
        delete_story_outcome(before, after[2], story, owner, reliable, Ok(())),
        delete_epic_outcome(before, after[3], epic, reliable, Ok(())),
    ensures
        after[0].last_item == (ItemType::Epic { id: created_epic }),
        after[1].last_item == (ItemType::Story { id: created_story }),
        before.last_item == (ItemType::Story { id: story }) ==> after[2].last_item == ItemType::Empty,
        before.last_item == (ItemType::Epic { id: epic }) ==> after[3].last_item == ItemType::Empty,
{
    lemma_without_stories(before, before.epics[epic.0].stories);
}

/// Navigation pushes one page each; going back twice undoes two pushes; going back on an
/// empty stack does nothing; exit empties any stack.
pub proof fn law_navigation(pages: Seq<Page>, epic_id: u32, story_id: u32)
    ensures
        next_pages(
            next_pages(pages, Action::NavigateToEpicDetail { epic_id }),
            Action::NavigateToStoryDetail { epic_id, story_id },
        ).len() == pages.len() + 2,
        next_pages(
            next_pages(
                next_pages(
                    next_pages(pages, Action::NavigateToEpicDetail { epic_id }),
                    Action::NavigateToStoryDetail { epic_id, story_id },
                ),
                Action::NavigateToPreviousPage,
            ),
            Action::NavigateToPreviousPage,
        ) == pages,
        next_pages(Seq::empty(), Action::NavigateToPreviousPage) == Seq::<Page>::empty(),
        next_pages(pages, Action::Exit) == Seq::<Page>::empty(),
{
    let one = pages.push(Page::EpicDetail { epic_id });
    let two = one.push(Page::StoryDetail { epic_id, story_id });
    assert(two.drop_last() =~= one);
    assert(one.drop_last() =~= pages);
}

} // verus!
