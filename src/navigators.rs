use vstd::prelude::*;
use vstd::string::StringExecFns;

use crate::effects::{
    create_epic_outcome, create_story_outcome, delete_epic_outcome, delete_story_outcome,
    listed_where_named, update_epic_status_outcome, update_story_status_outcome,
};
use crate::db::{DataBase, JiraDataBase};
use crate::errors::DbError;
use crate::model::{Action, DBView, ItemId, ItemStatus};
use crate::pages::Page;
use crate::prompts::{CannedAnswers, PromptSource};

verus! {

/// What the user answered to the question that an action asks.
pub enum Reply {
    /// The action asks nothing.
    Nothing,
    /// Fields of a new item.
    Item { name: String, description: String },
    /// A yes or no to a deletion.
    Confirm(bool),
    /// A status, or none chosen.
    Status(Option<ItemStatus>),
}

/// A store call that failed while an action was handled.
#[derive(Debug)]
pub struct ActionError {
    pub action: Action,
    pub cause: DbError,
}

/// What was being done when a store call failed.
pub open spec fn context_text(action: Action) -> Seq<char> {
    match action {
        Action::CreateEpic => "Failed to create Epic"@,
        Action::CreateStory { .. } => "Failed to create story"@,
        Action::DeleteEpic { .. } => "Failed to delete epic"@,
        Action::DeleteStory { .. } => "Failed to delete story"@,
        Action::UpdateEpicStatus { .. } => "Failed to update epic status"@,
        Action::UpdateStoryStatus { .. } => "Failed to update story status"@,
        _ => "Failed to handle action"@,
    }
}

fn context_str(action: Action) -> (r: &'static str)
    ensures
        r@ == context_text(action),
{
    match action {
        Action::CreateEpic => "Failed to create Epic",
        Action::CreateStory { .. } => "Failed to create story",
        Action::DeleteEpic { .. } => "Failed to delete epic",
        Action::DeleteStory { .. } => "Failed to delete story",
        Action::UpdateEpicStatus { .. } => "Failed to update epic status",
        Action::UpdateStoryStatus { .. } => "Failed to update story status",
        _ => "Failed to handle action",
    }
}

impl ActionError {
    /// The context, then the store's own message.
    pub fn message(&self) -> (r: String)
        ensures
            r@ == context_text(self.action) + ": "@ + self.cause.message_spec(),
    {
        let mut out = String::new();
        out.append(context_str(self.action));
        out.append(": ");
        let cause = self.cause.message();
        out.append(cause.as_str());
        assert(out@ =~= context_text(self.action) + ": "@ + self.cause.message_spec());
        out
    }
}

/// The stack after `action`: navigation pushes, going back and deleting pop what
/// there is, exit empties it, and the rest leave it alone.
pub open spec fn next_pages(pages: Seq<Page>, action: Action) -> Seq<Page> {
    match action {
        Action::NavigateToEpicDetail { epic_id } => pages.push(Page::EpicDetail { epic_id }),
        Action::NavigateToStoryDetail { epic_id, story_id } => pages.push(
            Page::StoryDetail { epic_id, story_id },
        ),
        Action::NavigateToPreviousPage | Action::DeleteEpic { .. } | Action::DeleteStory { .. } => {
            if pages.len() > 0 {
                pages.drop_last()
            } else {
                pages
            }
        },
        Action::Exit => Seq::empty(),
        _ => pages,
    }
}

/// The reply has the shape of the question that `action` asks.
pub open spec fn reply_fits(action: Action, reply: Reply) -> bool {
    match action {
        Action::CreateEpic | Action::CreateStory { .. } => reply is Item,
        Action::DeleteEpic { .. } | Action::DeleteStory { .. } => reply is Confirm,
        Action::UpdateEpicStatus { .. } | Action::UpdateStoryStatus { .. } => reply is Status,
        _ => reply is Nothing,
    }
}

/// The reply is what the answers `a` give to the question that `action` asks.
pub open spec fn reply_agrees(action: Action, reply: Reply, a: CannedAnswers) -> bool {
    match reply {
        Reply::Item { name, description } => match action {
            Action::CreateEpic => name@ == a.epic_name && description@ == a.epic_description,
            _ => name@ == a.story_name && description@ == a.story_description,
        },
        Reply::Confirm(yes) => match action {
            Action::DeleteEpic { .. } => yes == a.delete_epic,
            _ => yes == a.delete_story,
        },
        Reply::Status(chosen) => chosen == a.update_status,
        Reply::Nothing => true,
    }
}

/// How the stored document moves when `action` is dispatched with `reply`, given how
/// the store call ended (`r`). A reply of the wrong shape, a declined deletion and an
/// unchosen status call nothing. A story deletion that names an existing epic which
/// does not list the story is stopped before the store is called.
pub open spec fn store_effect(
    before: DBView,
    after: DBView,
    action: Action,
    reply: Reply,
    reliable: bool,
    r: Result<(), DbError>,
) -> bool {
    let untouched = after == before && r is Ok;
    match (action, reply) {
        (Action::CreateEpic, Reply::Item { name, description }) => match r {
            Ok(()) => exists|id: ItemId| create_epic_outcome(before, after, name@, description@, reliable, Ok(id)),
            Err(e) => create_epic_outcome(before, after, name@, description@, reliable, Err(e)),
        },
        (Action::CreateStory { epic_id }, Reply::Item { name, description }) => match r {
            Ok(()) => exists|id: ItemId| create_story_outcome(
                before,
                after,
                name@,
                description@,
                Some(ItemId(epic_id)),
                reliable,
                Ok(id),
            ),
            Err(e) => create_story_outcome(before, after, name@, description@, Some(ItemId(epic_id)), reliable, Err(e)),
        },
        (Action::DeleteEpic { epic_id }, Reply::Confirm(yes)) => if yes {
            delete_epic_outcome(before, after, ItemId(epic_id), reliable, r)
        } else {
            untouched
        },
        (Action::DeleteStory { epic_id, story_id }, Reply::Confirm(yes)) => if !yes {
            untouched
        } else if listed_where_named(before, ItemId(story_id), Some(ItemId(epic_id))) {
            delete_story_outcome(before, after, ItemId(story_id), Some(ItemId(epic_id)), reliable, r)
        } else {
            let wrong_owner = DbError::NotInEpic { epic_id: ItemId(epic_id), story_id: ItemId(story_id) };
            &&& after == before
            &&& r matches Err(e) && (e.is_storage() || e == wrong_owner)
            &&& reliable ==> r == Err::<(), DbError>(wrong_owner)
        },
        (Action::UpdateEpicStatus { epic_id }, Reply::Status(chosen)) => match chosen {
            Some(status) => update_epic_status_outcome(before, after, ItemId(epic_id), status, reliable, r),
            None => untouched,
        },
        (Action::UpdateStoryStatus { story_id }, Reply::Status(chosen)) => match chosen {
            Some(status) => update_story_status_outcome(before, after, ItemId(story_id), status, reliable, r),
            None => untouched,
        },
        _ => untouched,
    }
}

/// Drops the cause's action context: the store's own outcome.
pub open spec fn store_result(r: Result<(), ActionError>) -> Result<(), DbError> {
    match r {
        Ok(()) => Ok(()),
        Err(e) => Err(e.cause),
    }
}

/// Keeps a screen stack and turns actions into store calls and stack moves.
pub struct Navigator<B: DataBase, P: PromptSource> {
    pages: Vec<Page>,
    prompts: P,
    database: JiraDataBase<B>,
}

impl<B: DataBase, P: PromptSource> Navigator<B, P> {
    pub closed spec fn pages_view(&self) -> Seq<Page> {
        self.pages@
    }

    pub closed spec fn stored(&self) -> DBView {
        self.database.stored()
    }

    pub closed spec fn reliable(&self) -> bool {
        self.database.reliable()
    }

    pub closed spec fn prompts_view(&self) -> P {
        self.prompts
    }

    pub fn new(database: JiraDataBase<B>, prompts: P) -> (r: Self)
        ensures
            r.pages_view() == seq![Page::Home],
            r.stored() == database.stored(),
            r.reliable() == database.reliable(),
            r.prompts_view() == prompts,
    {
        let mut pages: Vec<Page> = Vec::new();
        pages.push(Page::Home);
        Navigator { pages, prompts, database }
    }

    pub fn get_current_page(&self) -> (r: Option<&Page>)
        ensures
            match r {
                Some(p) => self.pages_view().len() > 0 && *p == self.pages_view().last(),
                None => self.pages_view().len() == 0,
            },
    {
        if self.pages.len() == 0 {
            None
        } else {
            Some(&self.pages[self.pages.len() - 1])
        }
    }

    pub fn get_page_count(&self) -> (r: usize)
        ensures
            r == self.pages_view().len(),
    {
        self.pages.len()
    }

    pub fn set_prompts(&mut self, prompts: P)
        ensures
            final(self).prompts_view() == prompts,
            final(self).pages_view() == old(self).pages_view(),
            final(self).stored() == old(self).stored(),
            final(self).reliable() == old(self).reliable(),
    {
        self.prompts = prompts;
    }

    /// The store, for reading what the actions did.
    pub fn database(&self) -> (r: &JiraDataBase<B>)
        ensures
            r.stored() == self.stored(),
            r.reliable() == self.reliable(),
    {
        &self.database
    }

    /// Puts to the user the question that `action` asks, if any.
    pub fn ask(&self, action: Action) -> (r: Reply)
        ensures
            reply_fits(action, r),
            self.prompts_view().canned() matches Some(a) ==> reply_agrees(action, r, a),
    {
        match action {
            Action::CreateEpic => {
                let epic = self.prompts.create_epic();
                Reply::Item { name: epic.detail.name, description: epic.detail.description }
            },
            Action::CreateStory { .. } => {
                let story = self.prompts.create_story();
                Reply::Item { name: story.detail.name, description: story.detail.description }
            },
            Action::DeleteEpic { .. } => Reply::Confirm(self.prompts.delete_epic()),
            Action::DeleteStory { .. } => Reply::Confirm(self.prompts.delete_story()),
            Action::UpdateEpicStatus { .. } | Action::UpdateStoryStatus { .. } => Reply::Status(
                self.prompts.update_status(),
            ),
            _ => Reply::Nothing,
        }
    }

    fn pop_page(&mut self)
        ensures
            final(self).pages@ == if old(self).pages@.len() > 0 {
                old(self).pages@.drop_last()
            } else {
                old(self).pages@
            },
            final(self).database == old(self).database,
            final(self).prompts == old(self).prompts,
    {
        if self.pages.len() > 0 {
            self.pages.pop();
        }
    }

    /// Carries out `action` with the user's `reply`: at most one store call, and the
    /// stack move of `next_pages`, which also happens when the store call fails.
    pub fn dispatch(&mut self, action: Action, reply: Reply) -> (r: Result<(), ActionError>)
        ensures
            final(self).pages_view() == next_pages(old(self).pages_view(), action),
            store_effect(old(self).stored(), final(self).stored(), action, reply, old(self).reliable(), store_result(r)),
            r matches Err(e) ==> e.action == action,
            final(self).reliable() == old(self).reliable(),
            final(self).prompts_view() == old(self).prompts_view(),
    {
        let ghost before = self.database.stored();
        let ghost reliable = self.database.reliable();
        let outcome: Result<(), DbError> = match action {
            Action::NavigateToEpicDetail { epic_id } => {
                self.pages.push(Page::EpicDetail { epic_id });
                Ok(())
            },
            Action::NavigateToStoryDetail { epic_id, story_id } => {
                self.pages.push(Page::StoryDetail { epic_id, story_id });
                Ok(())
            },
            Action::NavigateToPreviousPage => {
                self.pop_page();
                Ok(())
            },
            Action::Exit => {
                self.pages.clear();
                Ok(())
            },
            Action::CreateEpic => match reply {
                Reply::Item { name, description } => {
                    let ghost (n, d) = (name@, description@);
                    let created = self.database.create_epic(name, description);
                    match created {
                        Ok(id) => {
                            assert(create_epic_outcome(before, self.database.stored(), n, d, reliable, Ok(id)));
                            Ok(())
                        },
                        Err(e) => Err(e),
                    }
                },
                _ => Ok(()),
            },
            Action::CreateStory { epic_id } => match reply {
                Reply::Item { name, description } => {
                    let ghost (n, d) = (name@, description@);
                    let created = self.database.create_story(name, description, Some(ItemId(epic_id)));
                    match created {
                        Ok(id) => {
                            assert(create_story_outcome(
                                before,
                                self.database.stored(),
                                n,
                                d,
                                Some(ItemId(epic_id)),
                                reliable,
                                Ok(id),
                            ));
                            Ok(())
                        },
                        Err(e) => Err(e),
                    }
                },
                _ => Ok(()),
            },
            Action::DeleteEpic { epic_id } => {
                self.pop_page();
                match reply {
                    Reply::Confirm(true) => self.database.delete_epic(ItemId(epic_id)),
                    _ => Ok(()),
                }
            },
            Action::DeleteStory { epic_id, story_id } => {
                self.pop_page();
                match reply {
                    Reply::Confirm(true) => match self.database.story_listed(ItemId(story_id), ItemId(epic_id)) {
                        Ok(true) => self.database.delete_story(ItemId(story_id), Some(ItemId(epic_id))),
                        Ok(false) => Err(DbError::NotInEpic { epic_id: ItemId(epic_id), story_id: ItemId(story_id) }),
                        Err(e) => Err(e),
                    },
                    _ => Ok(()),
                }
            },
            Action::UpdateEpicStatus { epic_id } => match reply {
                Reply::Status(Some(status)) => self.database.update_epic_status(ItemId(epic_id), status),
                _ => Ok(()),
            },
            Action::UpdateStoryStatus { story_id } => match reply {
                Reply::Status(Some(status)) => self.database.update_story_status(ItemId(story_id), status),
                _ => Ok(()),
            },
        };
        match outcome {
            Ok(()) => Ok(()),
            Err(cause) => Err(ActionError { action, cause }),
        }
    }

    /// Asks what `action` needs, then dispatches it. The reply has the shape the action
    /// asks for, and is the canned one where the prompts give canned answers.
    pub fn handle_action(&mut self, action: Action) -> (r: Result<(), ActionError>)
        ensures
            final(self).pages_view() == next_pages(old(self).pages_view(), action),
            exists|reply: Reply|
                {
                    &&& reply_fits(action, reply)
                    &&& old(self).prompts_view().canned() matches Some(a) ==> reply_agrees(action, reply, a)
                    &&& #[trigger] store_effect(
                        old(self).stored(),
                        final(self).stored(),
                        action,
                        reply,
                        old(self).reliable(),
                        store_result(r),
                    )
                },
            r matches Err(e) ==> e.action == action,
            final(self).reliable() == old(self).reliable(),
            final(self).prompts_view() == old(self).prompts_view(),
    {
        let ghost before = self.stored();
        let ghost reliable = self.reliable();
        let ghost prompts = self.prompts_view();
        let reply = self.ask(action);
        let ghost asked = reply;
        let r = self.dispatch(action, reply);
        assert(store_effect(before, self.stored(), action, asked, reliable, store_result(r)));
        assert(reply_fits(action, asked));
        assert(prompts.canned() matches Some(a) ==> reply_agrees(action, asked, a));
        r
    }
}

} // verus!
