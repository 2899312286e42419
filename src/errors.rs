use vstd::prelude::*;
use vstd::string::StringExecFns;

use crate::model::ItemId;

verus! {

/// Which of the two collections an id belongs to.
#[derive(Clone, Copy, Debug, PartialEq, Eq, Structural)]
pub enum ItemKind {
    Epic,
    Story,
}

/// The store operation during which a lookup failed.
#[derive(Clone, Copy, Debug, PartialEq, Eq, Structural)]
pub enum Operation {
    Create,
    Delete,
    Update,
}

/// Why a store operation did not complete.
#[derive(Clone, Debug, PartialEq)]
pub enum DbError {
    /// An id that the caller named is not in its collection.
    NotFound { kind: ItemKind, id: ItemId, op: Operation },
    /// The caller said a story belongs to an epic whose list does not hold it.
    NotInEpic { epic_id: ItemId, story_id: ItemId },
    /// The largest possible id is taken, so no new one can be assigned.
    NoFreeId { kind: ItemKind },
    /// The backend could not reach its storage.
    Io(String),
    /// The backend could not turn the stored bytes into a document, or back.
    Decode(String),
}

/// The text of one decimal digit.
pub open spec fn digit_text(d: nat) -> Seq<char> {
    if d == 0 { "0"@ } else if d == 1 { "1"@ } else if d == 2 { "2"@ } else if d == 3 { "3"@ }
    else if d == 4 { "4"@ } else if d == 5 { "5"@ } else if d == 6 { "6"@ } else if d == 7 { "7"@ }
    else if d == 8 { "8"@ } else { "9"@ }
}

/// `n` written in decimal, without leading zeros.
pub open spec fn decimal(n: nat) -> Seq<char>
    decreases n,
{
    if n < 10 {
        digit_text(n)
    } else {
        decimal(n / 10) + digit_text(n % 10)
    }
}

fn digit_str(d: u32) -> (r: &'static str)
    requires
        d < 10,
    ensures
        r@ == digit_text(d as nat),
{
    if d == 0 { "0" } else if d == 1 { "1" } else if d == 2 { "2" } else if d == 3 { "3" }
    else if d == 4 { "4" } else if d == 5 { "5" } else if d == 6 { "6" } else if d == 7 { "7" }
    else if d == 8 { "8" } else { "9" }
}

fn append_decimal(out: &mut String, n: u32)
    ensures
        final(out)@ == old(out)@ + decimal(n as nat),
    decreases n,
{
    if n < 10 {
        out.append(digit_str(n));
    } else {
        append_decimal(out, n / 10);
        out.append(digit_str(n % 10));
        assert(final(out)@ =~= old(out)@ + decimal(n as nat));
    }
}

/// How an id is written in messages.
pub open spec fn id_text(id: ItemId) -> Seq<char> {
    "ItemId("@ + decimal(id.0 as nat) + ")"@
}

fn append_id(out: &mut String, id: ItemId)
    ensures
        final(out)@ == old(out)@ + id_text(id),
{
    out.append("ItemId(");
    append_decimal(out, id.0);
    out.append(")");
    assert(final(out)@ =~= old(out)@ + id_text(id));
}

pub open spec fn kind_text(kind: ItemKind) -> Seq<char> {
    match kind {
        ItemKind::Epic => "Epic"@,
        ItemKind::Story => "Story"@,
    }
}

fn kind_str(kind: ItemKind) -> (r: &'static str)
    ensures
        r@ == kind_text(kind),
{
    match kind {
        ItemKind::Epic => "Epic",
        ItemKind::Story => "Story",
    }
}

impl DbError {
    /// A failure of the backend rather than of the request.
    pub open spec fn is_storage(self) -> bool {
        self is Io || self is Decode
    }

    /// The text reported to the user. A missing story, and any miss during a status
    /// update, ends with a full stop.
    pub open spec fn message_spec(self) -> Seq<char> {
        match self {
            DbError::NotFound { kind, id, op } => kind_text(kind) + " ID: "@ + id_text(id)
                + " was not found"@ + if kind == ItemKind::Story || op == Operation::Update {
                "."@
            } else {
                Seq::empty()
            },
            DbError::NotInEpic { epic_id, story_id } => "Story ID: "@ + id_text(story_id)
                + " is not listed in Epic ID: "@ + id_text(epic_id),
            DbError::NoFreeId { kind } => "No free "@ + kind_text(kind) + " ID is left"@,
            DbError::Io(m) => m@,
            DbError::Decode(m) => m@,
        }
    }

    pub fn message(&self) -> (r: String)
        ensures
            r@ == self.message_spec(),
    {
        match self {
            DbError::NotFound { kind, id, op } => {
                let mut out = String::new();
                out.append(kind_str(*kind));
                out.append(" ID: ");
                append_id(&mut out, *id);
                out.append(" was not found");
                if *kind == ItemKind::Story || *op == Operation::Update {
                    out.append(".");
                }
                assert(out@ =~= self.message_spec());
                out
            },
            DbError::NotInEpic { epic_id, story_id } => {
                let mut out = String::new();
                out.append("Story ID: ");
                append_id(&mut out, *story_id);
                out.append(" is not listed in Epic ID: ");
                append_id(&mut out, *epic_id);
                assert(out@ =~= self.message_spec());
                out
            },
            DbError::NoFreeId { kind } => {
                let mut out = String::new();
                out.append("No free ");
                out.append(kind_str(*kind));
                out.append(" ID is left");
                assert(out@ =~= self.message_spec());
                out
            },
            DbError::Io(m) => m.clone(),
            DbError::Decode(m) => m.clone(),
        }
    }
}

} // verus!
