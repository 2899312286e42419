use vstd::prelude::*;
use vstd::string::StrSliceExecFns;

use crate::model::{ids_view, Action, DBView, ItemId, DB};

verus! {

/// A screen on the navigation stack.
#[derive(Clone, Copy, Debug, PartialEq, Eq, Structural)]
pub enum Page {
    Home,
    EpicDetail { epic_id: u32 },
    StoryDetail { epic_id: u32, story_id: u32 },
}

pub open spec fn is_digit(c: char) -> bool {
    '0' <= c && c <= '9'
}

/// The number that a string of decimal digits stands for.
pub open spec fn digits_value(s: Seq<char>) -> nat
    decreases s.len(),
{
    if s.len() == 0 {
        0
    } else {
        digits_value(s.drop_last()) * 10 + ((s.last() as u32) - ('0' as u32)) as nat
    }
}

/// An id typed as decimal digits only, if it fits in `u32`.
pub open spec fn parse_id(s: Seq<char>) -> Option<u32> {
    if s.len() > 0 && (forall|i: int| 0 <= i < s.len() ==> is_digit(#[trigger] s[i])) && digits_value(s)
        <= u32::MAX {
        Some(digits_value(s) as u32)
    } else {
        None
    }
}

/// A one-letter command.
pub open spec fn is_key(s: Seq<char>, c: char) -> bool {
    s.len() == 1 && s[0] == c
}

proof fn lemma_digits_monotone(s: Seq<char>, i: int)
    requires
        0 <= i <= s.len(),
        forall|j: int| 0 <= j < s.len() ==> is_digit(#[trigger] s[j]),
    ensures
        digits_value(s.take(i)) <= digits_value(s),
    decreases s.len(),
{
    if i < s.len() {
        lemma_digits_monotone(s.drop_last(), i);
        assert(s.drop_last().take(i) =~= s.take(i));
    } else {
        assert(s.take(i) =~= s);
    }
}

/// Reads an id written in decimal digits.
pub fn read_id(input: &str) -> (r: Option<u32>)
    ensures
        r == parse_id(input@),
{
    let n = input.unicode_len();
    if n == 0 {
        return None;
    }
    let mut value: u64 = 0;
    let mut i: usize = 0;
    while i < n
        invariant
            n == input@.len(),
            i <= n,
            forall|j: int| 0 <= j < i ==> is_digit(#[trigger] input@[j]),
            value == digits_value(input@.take(i as int)),
            value <= u32::MAX,
        decreases n - i,
    {
        let c = input.get_char(i);
        if !('0' <= c && c <= '9') {
            return None;
        }
        proof {
            assert(input@.take(i as int + 1).drop_last() =~= input@.take(i as int));
        }
        value = value * 10 + ((c as u32) - ('0' as u32)) as u64;
        i = i + 1;
        if value > u32::MAX as u64 {
            proof {
                if forall|j: int| 0 <= j < input@.len() ==> is_digit(#[trigger] input@[j]) {
                    lemma_digits_monotone(input@, i as int);
                }
            }
            return None;
        }
    }
    proof {
        assert(input@.take(n as int) =~= input@);
    }
    Some(value as u32)
}

fn is_key_exec(input: &str, c: char) -> (r: bool)
    ensures
        r == is_key(input@, c),
{
    input.unicode_len() == 1 && input.get_char(0) == c
}

/// The action that `input` asks for on `page`, given the document on screen: `q` quits
/// and `c` creates an epic at home; `p` goes back, `u` updates, `d` deletes and, on an
/// epic, `c` creates a story; an id opens an item that the page shows.
pub open spec fn input_action(page: Page, db: DBView, input: Seq<char>) -> Option<Action> {
    match page {
        Page::Home => if is_key(input, 'q') {
            Some(Action::Exit)
        } else if is_key(input, 'c') {
            Some(Action::CreateEpic)
        } else {
            match parse_id(input) {
                Some(epic_id) => if db.epics.contains_key(epic_id) {
                    Some(Action::NavigateToEpicDetail { epic_id })
                } else {
                    None
                },
                None => None,
            }
        },
        Page::EpicDetail { epic_id } => if is_key(input, 'p') {
            Some(Action::NavigateToPreviousPage)
        } else if is_key(input, 'u') {
            Some(Action::UpdateEpicStatus { epic_id })
        } else if is_key(input, 'd') {
            Some(Action::DeleteEpic { epic_id })
        } else if is_key(input, 'c') {
            Some(Action::CreateStory { epic_id })
        } else {
            match parse_id(input) {
                Some(story_id) => if db.epics.contains_key(epic_id) && db.epics[epic_id].stories.contains(story_id)
                    && db.stories.contains_key(story_id) {
                    Some(Action::NavigateToStoryDetail { epic_id, story_id })
                } else {
                    None
                },
                None => None,
            }
        },
        Page::StoryDetail { epic_id, story_id } => if is_key(input, 'p') {
            Some(Action::NavigateToPreviousPage)
        } else if is_key(input, 'u') {
            Some(Action::UpdateStoryStatus { story_id })
        } else if is_key(input, 'd') {
            Some(Action::DeleteStory { epic_id, story_id })
        } else {
            None
        },
    }
}

fn lists(ids: &Vec<ItemId>, x: u32) -> (r: bool)
    ensures
        r == ids_view(ids@).contains(x),
{
    let mut i: usize = 0;
    while i < ids.len()
        invariant
            i <= ids@.len(),
            forall|j: int| 0 <= j < i ==> ids_view(ids@)[j] != x,
        decreases ids.len() - i,
    {
        if ids[i].0 == x {
            assert(ids_view(ids@)[i as int] == x);
            return true;
        }
        i = i + 1;
    }
    false
}

impl Page {
    /// Turns a line typed on this page into an action; `None` where it names none.
    pub fn handle_input(&self, db: &DB, input: &str) -> (r: Option<Action>)
        ensures
            r == input_action(*self, db@, input@),
    {
        match *self {
            Page::Home => if is_key_exec(input, 'q') {
                Some(Action::Exit)
            } else if is_key_exec(input, 'c') {
                Some(Action::CreateEpic)
            } else {
                match read_id(input) {
                    Some(epic_id) => if db.epics.contains_key(&epic_id) {
                        Some(Action::NavigateToEpicDetail { epic_id })
                    } else {
                        None
                    },
                    None => None,
                }
            },
            Page::EpicDetail { epic_id } => if is_key_exec(input, 'p') {
                Some(Action::NavigateToPreviousPage)
            } else if is_key_exec(input, 'u') {
                Some(Action::UpdateEpicStatus { epic_id })
            } else if is_key_exec(input, 'd') {
                Some(Action::DeleteEpic { epic_id })
            } else if is_key_exec(input, 'c') {
                Some(Action::CreateStory { epic_id })
            } else {
                match read_id(input) {
                    Some(story_id) => match db.epics.get(&epic_id) {
                        Some(epic) => if lists(&epic.stories, story_id) && db.stories.contains_key(&story_id) {
                            Some(Action::NavigateToStoryDetail { epic_id, story_id })
                        } else {
                            None
                        },
                        None => None,
                    },
                    None => None,
                }
            },
            Page::StoryDetail { epic_id, story_id } => if is_key_exec(input, 'p') {
                Some(Action::NavigateToPreviousPage)
            } else if is_key_exec(input, 'u') {
                Some(Action::UpdateStoryStatus { story_id })
            } else if is_key_exec(input, 'd') {
                Some(Action::DeleteStory { epic_id, story_id })
            } else {
                None
            },
        }
    }
}

} // verus!
