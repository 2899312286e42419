use vstd::prelude::*;
use std::collections::HashMap;
use vstd::std_specs::iter::IteratorSpec;

use crate::effects::{
    cascade_clean, create_epic_outcome, create_story_outcome, delete_epic_outcome, delete_story_effect,
    delete_story_outcome, delete_story_refusal, first_index, listed_where_named, is_next_id, lemma_next_id_unique,
    lemma_without_stories, next_id_of, update_epic_status_outcome, update_story_status_outcome,
};
use crate::errors::{DbError, ItemKind, Operation};
use crate::model::{ids_view, DBView, Epic, EpicView, ItemDetail, ItemId, ItemStatus, ItemType, Story, DB};

verus! {

broadcast use vstd::std_specs::hash::group_hash_axioms;

/// Somewhere the whole document is kept between operations.
pub trait DataBase {
    /// The document that the next read returns. Every backend in verified code states
    /// it: with the default, which is one fixed document, no `write_db` can meet its
    /// `ensures`. The default is there for backends outside verified code (a file on
    /// disk), which cannot build a view.
    closed spec fn stored(&self) -> DBView {
        arbitrary()
    }

    /// Holds of a backend whose reads and writes never fail; none is assumed to be.
    open spec fn reliable(&self) -> bool {
        false
    }

    fn read_db(&self) -> (r: Result<DB, DbError>)
        ensures
            match r {
                Ok(d) => d@ == self.stored(),
                Err(e) => e.is_storage(),
            },
            self.reliable() ==> r is Ok,
    ;

    fn write_db(&mut self, database: &DB) -> (r: Result<(), DbError>)
        ensures
            match r {
                Ok(()) => final(self).stored() == database@,
                Err(e) => e.is_storage() && final(self).stored() == old(self).stored(),
            },
            final(self).reliable() == old(self).reliable(),
            old(self).reliable() ==> r is Ok,
    ;
}

/// A backend that keeps the document in memory.
pub struct MockDB {
    last_written_db: DB,
}

impl MockDB {
    pub fn new() -> (r: Self)
        ensures
            r.stored() == DBView::empty(),
            r.reliable(),
    {
        MockDB { last_written_db: DB::empty() }
    }
}

impl DataBase for MockDB {
    closed spec fn stored(&self) -> DBView {
        self.last_written_db@
    }

    open spec fn reliable(&self) -> bool {
        true
    }

    fn read_db(&self) -> (r: Result<DB, DbError>) {
        Ok(self.last_written_db.duplicate())
    }

    fn write_db(&mut self, database: &DB) -> (r: Result<(), DbError>) {
        self.last_written_db = database.duplicate();
        Ok(())
    }
}

/// The id after the largest key of `m`; `None` where the largest key is `u32::MAX`.
fn next_id<V>(m: &HashMap<u32, V>) -> (r: Option<u32>)
    ensures
        match r {
            Some(id) => is_next_id(m@.dom(), id),
            None => m@.contains_key(u32::MAX),
        },
{
    let mut found = false;
    let mut max: u32 = 0;
    let ghost mut todo: Set<u32> = m@.dom();
    let keys = m.keys();
    proof {
        assert(keys.remaining().unref().to_set() == m@.dom());
        assert forall|x: u32|
            todo.contains(x) <==> exists|j: int|
                0 <= j < keys.remaining().len() && *#[trigger] keys.remaining()[j] == x by {
            if todo.contains(x) {
                assert(keys.remaining().unref().to_set().contains(x));
                let j = choose|j: int|
                    0 <= j < keys.remaining().unref().len() && keys.remaining().unref()[j] == x;
                assert(*keys.remaining()[j] == x);
            }
            if exists|j: int| 0 <= j < keys.remaining().len() && *#[trigger] keys.remaining()[j] == x {
                let j = choose|j: int|
                    0 <= j < keys.remaining().len() && *#[trigger] keys.remaining()[j] == x;
                assert(keys.remaining().unref()[j] == x);
                assert(keys.remaining().unref().to_set().contains(x));
            }
        }
    }
    for k in it: keys
        invariant
            forall|x: u32|
                todo.contains(x) <==> exists|j: int|
                    it.index() <= j < it.seq().len() && *#[trigger] it.seq()[j] == x,
            it.seq().unref().to_set() == m@.dom(),
            it.seq().unref().no_duplicates(),
            found ==> m@.contains_key(max),
            found ==> forall|j: u32| m@.contains_key(j) && !todo.contains(j) ==> j <= max,
            !found ==> todo == m@.dom(),
    {
        proof {
            let i = it.index();
            assert(*it.seq()[i] == *k);
            assert forall|x: u32|
                todo.remove(*k).contains(x) <==> exists|j: int|
                    i + 1 <= j < it.seq().len() && *#[trigger] it.seq()[j] == x by {
                if todo.remove(*k).contains(x) {
                    let j = choose|j: int| i <= j < it.seq().len() && *#[trigger] it.seq()[j] == x;
                    assert(j != i);
                }
                if exists|j: int| i + 1 <= j < it.seq().len() && *#[trigger] it.seq()[j] == x {
                    let j = choose|j: int| i + 1 <= j < it.seq().len() && *#[trigger] it.seq()[j] == x;
                    assert(it.seq().unref()[j] == x && it.seq().unref()[i] == *k);
                }
            }
            todo = todo.remove(*k);
        }
        if !found || *k > max {
            max = *k;
        }
        found = true;
    }
    proof {
        assert(todo =~= Set::empty());
        if !found {
            assert(m@.dom() =~= Set::empty());
        } else {
            assert(m@.dom().contains(max));
            assert(!m@.dom().is_empty());
            assert forall|k: u32| m@.dom().contains(k) implies k <= max by {
                assert(!todo.contains(k));
            }
        }
    }
    if !found {
        Some(0)
    } else if max == u32::MAX {
        None
    } else {
        Some(max + 1)
    }
}

/// Where `x` first stands in `ids`.
fn position(ids: &Vec<ItemId>, x: u32) -> (r: Option<usize>)
    ensures
        match r {
            Some(i) => i == first_index(ids_view(ids@), x) && i < ids@.len() && ids_view(ids@)[i as int] == x,
            None => !ids_view(ids@).contains(x),
        },
{
    let ghost v = ids_view(ids@);
    let mut i: usize = 0;
    while i < ids.len()
        invariant
            i <= ids@.len(),
            v == ids_view(ids@),
            forall|j: int| 0 <= j < i ==> v[j] != x,
        decreases ids.len() - i,
    {
        if ids[i].0 == x {
            proof {
                let k = first_index(v, x);
                assert(0 <= i < v.len() && v[i as int] == x && forall|j: int| 0 <= j < i ==> v[j] != x);
                if k < i {
                    assert(v[k] != x);
                } else if k > i {
                    assert(v[i as int] != x);
                }
            }
            return Some(i);
        }
        i = i + 1;
    }
    None
}

/// Takes the first `story` out of the epic's list.
fn detach(epic: &mut Epic, story: u32)
    requires
        old(epic)@.stories.contains(story),
    ensures
        final(epic)@ == (EpicView {
            stories: old(epic)@.stories.remove(first_index(old(epic)@.stories, story)),
            ..old(epic)@
        }),
{
    let ghost listed = epic.stories@;
    match position(&epic.stories, story) {
        Some(i) => {
            epic.stories.remove(i);
            assert(ids_view(epic.stories@) =~= ids_view(listed).remove(i as int));
        },
        None => {},
    }
}

/// The document with a story deleted, or why the document refuses the deletion.
fn remove_story(db: DB, story_id: ItemId, epic_id: Option<ItemId>) -> (r: Result<DB, DbError>)
    requires
        listed_where_named(db@, story_id, epic_id),
    ensures
        match r {
            Ok(d) => delete_story_refusal(db@, story_id, epic_id) is None && d@ == delete_story_effect(
                db@,
                story_id,
                epic_id,
            ),
            Err(e) => delete_story_refusal(db@, story_id, epic_id) == Some(e),
        },
{
    let ghost before = db@;
    let mut db = db;
    if db.last_item == (ItemType::Story { id: story_id }) {
        db.last_item = ItemType::Empty;
    }
    match epic_id {
        Some(e) => {
            let mut epic = match db.epics.remove(&e.0) {
                Some(epic) => epic,
                None => return Err(DbError::NotFound { kind: ItemKind::Epic, id: e, op: Operation::Delete }),
            };
            proof {
                assert(epic@.stories == before.epics[e.0].stories);
            }
            detach(&mut epic, story_id.0);
            db.epics.insert(e.0, epic);
            assert(db@.epics =~= before.detached(e.0, story_id.0).epics);
        },
        None => {},
    }
    match db.stories.remove(&story_id.0) {
        Some(_) => {},
        None => return Err(DbError::NotFound { kind: ItemKind::Story, id: story_id, op: Operation::Delete }),
    }
    assert(db@.stories =~= delete_story_effect(before, story_id, epic_id).stories);
    assert(db@.epics =~= delete_story_effect(before, story_id, epic_id).epics);
    Ok(db)
}

/// The store: every operation reads the whole document, changes it, and writes it back.
pub struct JiraDataBase<B: DataBase> {
    pub database: B,
}

impl<B: DataBase> JiraDataBase<B> {
    pub open spec fn stored(&self) -> DBView {
        self.database.stored()
    }

    pub open spec fn reliable(&self) -> bool {
        self.database.reliable()
    }

    pub fn new(database: B) -> (r: Self)
        ensures
            r.database == database,
    {
        JiraDataBase { database }
    }

    pub fn read_db(&self) -> (r: Result<DB, DbError>)
        ensures
            match r {
                Ok(d) => d@ == self.stored(),
                Err(e) => e.is_storage(),
            },
            self.reliable() ==> r is Ok,
    {
        self.database.read_db()
    }

    pub fn create_epic(&mut self, name: String, description: String) -> (r: Result<ItemId, DbError>)
        ensures
            create_epic_outcome(old(self).stored(), final(self).stored(), name@, description@, old(self).reliable(), r),
            final(self).reliable() == old(self).reliable(),
    {
        let mut db = match self.database.read_db() {
            Ok(d) => d,
            Err(e) => return Err(e),
        };
        let ghost before = db@;
        let id = match next_id(&db.epics) {
            Some(id) => id,
            None => return Err(DbError::NoFreeId { kind: ItemKind::Epic }),
        };
        proof {
            lemma_next_id_unique(before.epics.dom(), id, next_id_of(before.epics.dom()));
        }
        let epic = Epic::new(
            ItemDetail { description, id: ItemId(id), name, status: ItemStatus::Open },
            Vec::new(),
        );
        assert(epic@.stories =~= Seq::<u32>::empty());
        db.epics.insert(id, epic);
        db.last_item = ItemType::Epic { id: ItemId(id) };
        assert(db@.epics =~= before.with_new_epic(id, name@, description@).epics);
        match self.database.write_db(&db) {
            Ok(()) => Ok(ItemId(id)),
            Err(e) => Err(e),
        }
    }

    pub fn create_story(&mut self, name: String, description: String, epic_id: Option<ItemId>) -> (r:
        Result<ItemId, DbError>)
        ensures
            create_story_outcome(old(self).stored(), final(self).stored(), name@, description@, epic_id, old(self).reliable(), r),
            final(self).reliable() == old(self).reliable(),
    {
        let mut db = match self.database.read_db() {
            Ok(d) => d,
            Err(e) => return Err(e),
        };
        let ghost before = db@;
        let id = match next_id(&db.stories) {
            Some(id) => id,
            None => return Err(DbError::NoFreeId { kind: ItemKind::Story }),
        };
        proof {
            lemma_next_id_unique(before.stories.dom(), id, next_id_of(before.stories.dom()));
        }
        let story = Story::new(ItemDetail { description, id: ItemId(id), name, status: ItemStatus::Open });
        db.stories.insert(id, story);
        db.last_item = ItemType::Story { id: ItemId(id) };
        assert(db@.stories =~= before.with_new_story(id, name@, description@, None).stories);
        assert(db@.epics =~= before.epics);
        match epic_id {
            Some(e) => {
                let mut epic = match db.epics.remove(&e.0) {
                    Some(epic) => epic,
                    None => return Err(DbError::NotFound { kind: ItemKind::Epic, id: e, op: Operation::Create }),
                };
                let ghost listed = epic.stories@;
                epic.stories.push(ItemId(id));
                assert(ids_view(epic.stories@) =~= ids_view(listed).push(id));
                db.epics.insert(e.0, epic);
                assert(db@.epics =~= before.with_new_story(id, name@, description@, epic_id).epics);
            },
            None => {},
        }
        match self.database.write_db(&db) {
            Ok(()) => Ok(ItemId(id)),
            Err(e) => Err(e),
        }
    }

    pub fn delete_story(&mut self, story_id: ItemId, epic_id: Option<ItemId>) -> (r: Result<(), DbError>)
        requires
            listed_where_named(old(self).stored(), story_id, epic_id),
        ensures
            delete_story_outcome(old(self).stored(), final(self).stored(), story_id, epic_id, old(self).reliable(), r),
            final(self).reliable() == old(self).reliable(),
    {
        let db = match self.database.read_db() {
            Ok(d) => d,
            Err(e) => return Err(e),
        };
        match remove_story(db, story_id, epic_id) {
            Ok(db) => self.database.write_db(&db),
            Err(e) => Err(e),
        }
    }

    pub fn delete_epic(&mut self, epic_id: ItemId) -> (r: Result<(), DbError>)
        ensures
            delete_epic_outcome(old(self).stored(), final(self).stored(), epic_id, old(self).reliable(), r),
            final(self).reliable() == old(self).reliable(),
    {
        let first = match self.database.read_db() {
            Ok(d) => d,
            Err(e) => return Err(e),
        };
        let ghost before = first@;
        let listed = match first.epics.get(&epic_id.0) {
            Some(epic) => &epic.stories,
            None => return Err(DbError::NotFound { kind: ItemKind::Epic, id: epic_id, op: Operation::Delete }),
        };
        let ghost ids = ids_view(listed@);
        assert(ids == before.epics[epic_id.0].stories);
        let mut i: usize = 0;
        while i < listed.len()
            invariant
                i <= listed@.len(),
                ids == ids_view(listed@),
                ids == before.epics[epic_id.0].stories,
                before.epics.contains_key(epic_id.0),
                self.stored() == before.without_stories(ids.take(i as int)),
                self.reliable() == old(self).reliable(),
                before == old(self).stored(),
                self.reliable() ==> forall|k: int|
                    0 <= k < i ==> before.stories.contains_key(#[trigger] ids[k]) && !ids.take(k).contains(ids[k]),
            decreases listed.len() - i,
        {
            let s = listed[i];
            proof {
                lemma_without_stories(before, ids.take(i as int));
                assert(ids.take(i as int + 1).drop_last() =~= ids.take(i as int));
                assert(ids[i as int] == s.0);
            }
            match self.delete_story(s, None) {
                Ok(()) => {
                    proof {
                        if self.reliable() {
                            assert(!ids.take(i as int).to_set().contains(s.0) ==> !ids.take(i as int).contains(s.0));
                            assert(ids.take(i as int + 1).take(i as int) =~= ids.take(i as int));
                        }
                    }
                },
                Err(e) => {
                    proof {
                        if self.reliable() && cascade_clean(before, epic_id.0) {
                            assert(before.stories.contains_key(ids[i as int]));
                            assert forall|j: int| 0 <= j < i implies ids.take(i as int)[j] != s.0 by {
                                assert(ids[j] != ids[i as int]);
                            }
                            assert(!ids.take(i as int).contains(s.0));
                        }
                    }
                    return Err(e);
                },
            }
            i = i + 1;
        }
        proof {
            if self.reliable() {
                assert forall|a: int, b: int| 0 <= a < ids.len() && 0 <= b < ids.len() && a != b implies ids[a]
                    != ids[b] by {
                    if a < b {
                        assert(ids.take(b)[a] == ids[a]);
                    } else {
                        assert(ids.take(a)[b] == ids[b]);
                    }
                }
                assert(cascade_clean(before, epic_id.0));
            }
        }
        let mut db = match self.database.read_db() {
            Ok(d) => d,
            Err(e) => return Err(e),
        };
        assert(ids.take(ids.len() as int) =~= ids);
        proof {
            lemma_without_stories(before, ids);
        }
        db.epics.remove(&epic_id.0);
        if db.last_item == (ItemType::Epic { id: epic_id }) {
            db.last_item = ItemType::Empty;
        }
        assert(db@.epics =~= before.without_epic(epic_id.0).epics);
        self.database.write_db(&db)
    }

    /// Whether epic `epic_id`, if stored, lists story `story_id`.
    pub fn story_listed(&self, story_id: ItemId, epic_id: ItemId) -> (r: Result<bool, DbError>)
        ensures
            match r {
                Ok(b) => b == listed_where_named(self.stored(), story_id, Some(epic_id)),
                Err(e) => e.is_storage(),
            },
            self.reliable() ==> r is Ok,
    {
        let db = match self.database.read_db() {
            Ok(d) => d,
            Err(e) => return Err(e),
        };
        match db.epics.get(&epic_id.0) {
            Some(epic) => match position(&epic.stories, story_id.0) {
                Some(_) => Ok(true),
                None => Ok(false),
            },
            None => Ok(true),
        }
    }

    pub fn update_epic_status(&mut self, epic_id: ItemId, status: ItemStatus) -> (r: Result<(), DbError>)
        ensures
            update_epic_status_outcome(old(self).stored(), final(self).stored(), epic_id, status, old(self).reliable(), r),
            final(self).reliable() == old(self).reliable(),
    {
        let mut db = match self.database.read_db() {
            Ok(d) => d,
            Err(e) => return Err(e),
        };
        let ghost before = db@;
        let mut epic = match db.epics.remove(&epic_id.0) {
            Some(epic) => epic,
            None => return Err(DbError::NotFound { kind: ItemKind::Epic, id: epic_id, op: Operation::Update }),
        };
        epic.detail.status = status;
        db.epics.insert(epic_id.0, epic);
        assert(db@.epics =~= before.with_epic_status(epic_id.0, status).epics);
        self.database.write_db(&db)
    }

    pub fn update_story_status(&mut self, story_id: ItemId, status: ItemStatus) -> (r: Result<(), DbError>)
        ensures
            update_story_status_outcome(old(self).stored(), final(self).stored(), story_id, status, old(self).reliable(), r),
            final(self).reliable() == old(self).reliable(),
    {
        let mut db = match self.database.read_db() {
            Ok(d) => d,
            Err(e) => return Err(e),
        };
        let ghost before = db@;
        let mut story = match db.stories.remove(&story_id.0) {
            Some(story) => story,
            None => return Err(DbError::NotFound { kind: ItemKind::Story, id: story_id, op: Operation::Update }),
        };
        story.detail.status = status;
        db.stories.insert(story_id.0, story);
        assert(db@.stories =~= before.with_story_status(story_id.0, status).stories);
        self.database.write_db(&db)
    }
}

} // verus!
