//! The rows of the store, and what the storage layer decides by itself.

use crate::note::NewNote;
use crate::text::{has_prefix, strip_prefix};
use vstd::prelude::*;

verus! {

/// An account, as stored.
#[derive(Debug, Clone)]
pub struct Account {
    pub id: i64,
    pub name: String,
    pub email: String,
    pub password_hash: String,
    pub created_at: String,
}

/// A group, as stored.
#[derive(Debug, Clone)]
pub struct Group {
    pub id: i64,
    pub group_name: String,
    pub created_by: i64,
    pub created_at: String,
}

/// A group together with the role that one of its members has in it.
#[derive(Debug, Clone)]
pub struct GroupWithRole {
    pub id: i64,
    pub group_name: String,
    pub created_by: i64,
    pub created_at: String,
    pub role: String,
}

/// The membership of one account in one group.
#[derive(Debug, Clone)]
pub struct GroupUser {
    pub id: i64,
    pub group_id: i64,
    pub user_id: i64,
    pub role: String,
    pub joined_at: String,
}

/// The connection string of a store that lives in memory only.
pub const MEMORY_URL: &'static str = "sqlite::memory:";

/// What a connection string begins with when it names a file.
pub const FILE_SCHEME: &'static str = "sqlite://";

/// The path of the file behind a connection string: what follows
/// `sqlite://`. A store in memory and a string of another form have none.
pub open spec fn db_file_path(url: Seq<char>) -> Option<Seq<char>> {
    if has_prefix(url, MEMORY_URL@) {
        None
    } else if has_prefix(url, FILE_SCHEME@) {
        Some(url.subrange(FILE_SCHEME@.len() as int, url.len() as int))
    } else {
        None
    }
}

/// Finds the path of the file that a connection string names.
pub fn db_file_path_from_url(url: &str) -> (path: Option<String>)
    ensures
        match path {
            Some(p) => db_file_path(url@) == Some(p@),
            None => db_file_path(url@) is None,
        },
{
    if strip_prefix(url, MEMORY_URL).is_some() {
        return None;
    }
    match strip_prefix(url, FILE_SCHEME) {
        Some(rest) => Some(rest.to_owned()),
        None => None,
    }
}

} // verus!

verus! {

/// The role of a member in a group.
#[derive(Debug, Clone, Copy, PartialEq, Eq, Structural)]
pub enum Role {
    Owner,
    Member,
}

impl Role {
    /// The word a role is stored and sent as.
    pub open spec fn name(self) -> Seq<char> {
        match self {
            Role::Owner => "owner"@,
            Role::Member => "member"@,
        }
    }

    /// The role that a word names: `owner` or `member`, written exactly so.
    pub open spec fn named(word: Seq<char>) -> Option<Role> {
        if word == "owner"@ {
            Some(Role::Owner)
        } else if word == "member"@ {
            Some(Role::Member)
        } else {
            None
        }
    }

    /// The word a role is stored and sent as.
    pub fn as_str(self) -> (word: &'static str)
        ensures
            word@ == self.name(),
            Role::named(word@) == Some(self),
    {
        proof {
            reveal_strlit("owner");
            reveal_strlit("member");
            assert("owner"@.len() != "member"@.len());
        }
        match self {
            Role::Owner => "owner",
            Role::Member => "member",
        }
    }

    /// Reads a role from the word that names it.
    pub fn parse(word: &str) -> (role: Option<Role>)
        ensures
            role == Role::named(word@),
    {
        if crate::text::str_equal(word, "owner") {
            Some(Role::Owner)
        } else if crate::text::str_equal(word, "member") {
            Some(Role::Member)
        } else {
            None
        }
    }
}

/// The membership that is written in one unit with a new group: its creator
/// joins it, as owner.
#[derive(Debug, Clone, Copy, PartialEq, Eq, Structural)]
pub struct Membership {
    pub group_id: i64,
    pub user_id: i64,
    pub role: Role,
}

/// The first share of a new note: with the group it was created in.
#[derive(Debug, Clone, Copy, PartialEq, Eq, Structural)]
pub struct Share {
    pub note_id: i64,
    pub group_id: i64,
    /// Whether the group may edit the note, as the number it is stored as:
    /// 1 or 0.
    pub can_edit: i64,
}

/// The membership that completes a new group. It is written in one
/// transaction with the group itself, so that no group is ever without its
/// creator, who is its owner.
pub fn owner_membership(group_id: i64, created_by: i64) -> (m: Membership)
    ensures
        m == (Membership { group_id, user_id: created_by, role: Role::Owner }),
{
    Membership { group_id, user_id: created_by, role: Role::Owner }
}

/// The share that completes a new note: with the group that the note was
/// created in, and with the permission that the note asks for. It is
/// written in one transaction with the note itself.
pub fn first_share(note_id: i64, note: &NewNote) -> (s: Share)
    ensures
        s.note_id == note_id,
        s.group_id == note.group_id,
        s.can_edit == if note.can_edit {
            1int
        } else {
            0int
        },
{
    Share {
        note_id,
        group_id: note.group_id,
        can_edit: if note.can_edit {
            1
        } else {
            0
        },
    }
}

/// Whether a statement changed anything, from the number of rows that it
/// affected. An update or a deletion by id that changed nothing met no such
/// row.
pub fn row_changed(rows_affected: u64) -> (changed: bool)
    ensures
        changed == (rows_affected > 0),
{
    rows_affected > 0
}

/// The sum of the numbers in `rows`.
pub open spec fn total(rows: Seq<u64>) -> nat
    decreases rows.len(),
{
    if rows.len() == 0 {
        0
    } else {
        total(rows.drop_last()) + rows.last() as nat
    }
}

/// The clearing of a group, step by step.
///
/// The store lists the notes shared to the group. Each is then deleted, in
/// the order of the list, and the store says how many rows went with each
/// deletion. When the list is done the sum of those numbers is the answer.
/// All of it happens in one transaction.
#[derive(Debug)]
pub struct ClearNotes {
    note_ids: Vec<i64>,
    affected: Vec<u64>,
    removed: u64,
}

impl ClearNotes {
    /// The notes to delete, as the store listed them.
    pub closed spec fn note_ids(&self) -> Seq<i64> {
        self.note_ids@
    }

    /// What the store answered to the deletions made so far.
    pub closed spec fn affected(&self) -> Seq<u64> {
        self.affected@
    }

    /// No more deletions were made than notes were listed, and the count is
    /// the sum of the answers.
    #[verifier::type_invariant]
    closed spec fn inv(&self) -> bool {
        &&& self.affected@.len() <= self.note_ids@.len()
        &&& self.removed == total(self.affected@)
    }

    /// Starts with the list of the notes shared to the group.
    pub fn begin(note_ids: Vec<i64>) -> (s: Self)
        ensures
            s.note_ids() == note_ids@,
            s.affected().len() == 0,
    {
        ClearNotes { note_ids, affected: Vec::new(), removed: 0 }
    }

    /// The note to delete next: the first of the list that was not deleted
    /// yet. There is none when every listed note was deleted.
    pub fn next(&self) -> (note_id: Option<i64>)
        ensures
            self.affected().len() <= self.note_ids().len(),
            note_id == if self.affected().len() < self.note_ids().len() {
                Some(self.note_ids()[self.affected().len() as int])
            } else {
                None
            },
    {
        proof {
            use_type_invariant(self);
        }
        if self.affected.len() < self.note_ids.len() {
            Some(self.note_ids[self.affected.len()])
        } else {
            None
        }
    }

    /// Goes on to the next note, with the number of rows that the deletion
    /// of this one removed.
    pub fn record(self, rows_affected: u64) -> (s: Self)
        requires
            self.affected().len() < self.note_ids().len(),
            total(self.affected()) + rows_affected <= u64::MAX,
        ensures
            s.note_ids() == self.note_ids(),
            s.affected() == self.affected().push(rows_affected),
    {
        proof {
            use_type_invariant(&self);
        }
        let removed: u64 = self.removed + rows_affected;
        let note_ids = self.note_ids;
        let mut affected = self.affected;
        affected.push(rows_affected);
        proof {
            assert(affected@.drop_last() =~= self.affected@);
        }
        ClearNotes { note_ids, affected, removed }
    }

    /// The number of rows removed so far: the sum of what the store
    /// answered to each deletion.
    pub fn removed(&self) -> (n: u64)
        ensures
            n == total(self.affected()),
    {
        proof {
            use_type_invariant(self);
        }
        self.removed
    }
}

} // verus!
