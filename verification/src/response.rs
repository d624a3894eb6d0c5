//! What the notes service answers with once the store has done its part.

use crate::db::{Account, Group, GroupUser, GroupWithRole};
use crate::error::{fails_with, fault, ApiError, Status};
use crate::messages;
use vstd::prelude::*;

verus! {

/// An account as it is sent: without its password.
#[derive(Debug)]
pub struct AccountSummary {
    pub id: i64,
    pub name: String,
    pub email: String,
    pub created_at: String,
}

/// A group as it is sent.
#[derive(Debug)]
pub struct GroupSummary {
    pub id: i64,
    pub group_name: String,
    pub created_by: i64,
    pub created_at: String,
}

/// A group as it is sent to one of its members, with the member's role.
#[derive(Debug)]
pub struct GroupMembership {
    pub id: i64,
    pub group_name: String,
    pub created_by: i64,
    pub created_at: String,
    pub role: String,
}

#[derive(Debug)]
pub struct AccountsResponse {
    pub accounts: Vec<AccountSummary>,
}

#[derive(Debug)]
pub struct GroupsResponse {
    pub groups: Vec<GroupMembership>,
}

#[derive(Debug)]
pub struct GroupMembersResponse {
    pub members: Vec<GroupUser>,
}

/// The answer to a new note: its id.
#[derive(Debug, Clone, Copy, PartialEq, Eq, Structural)]
pub struct CreateNoteResponse {
    pub id: i64,
}

/// The answer to clearing a group: how many notes went.
#[derive(Debug, Clone, Copy, PartialEq, Eq, Structural)]
pub struct ClearResponse {
    pub removed: u64,
}

/// The summary of an account: all of it but the password.
pub open spec fn account_summary(a: Account) -> AccountSummary {
    AccountSummary { id: a.id, name: a.name, email: a.email, created_at: a.created_at }
}

/// The summary of a group: all of it.
pub open spec fn group_summary(g: Group) -> GroupSummary {
    GroupSummary {
        id: g.id,
        group_name: g.group_name,
        created_by: g.created_by,
        created_at: g.created_at,
    }
}

/// A group and the role of one of its members, as sent to that member.
pub open spec fn group_membership(g: GroupWithRole) -> GroupMembership {
    GroupMembership {
        id: g.id,
        group_name: g.group_name,
        created_by: g.created_by,
        created_at: g.created_at,
        role: g.role,
    }
}

impl From<Account> for AccountSummary {
    fn from(a: Account) -> (s: Self) {
        AccountSummary { id: a.id, name: a.name, email: a.email, created_at: a.created_at }
    }
}

impl vstd::std_specs::convert::FromSpecImpl<Account> for AccountSummary {
    open spec fn obeys_from_spec() -> bool {
        true
    }

    open spec fn from_spec(a: Account) -> Self {
        account_summary(a)
    }
}

impl From<Group> for GroupSummary {
    fn from(g: Group) -> (s: Self) {
        GroupSummary {
            id: g.id,
            group_name: g.group_name,
            created_by: g.created_by,
            created_at: g.created_at,
        }
    }
}

impl vstd::std_specs::convert::FromSpecImpl<Group> for GroupSummary {
    open spec fn obeys_from_spec() -> bool {
        true
    }

    open spec fn from_spec(g: Group) -> Self {
        group_summary(g)
    }
}

impl From<GroupWithRole> for GroupMembership {
    fn from(g: GroupWithRole) -> (m: Self) {
        GroupMembership {
            id: g.id,
            group_name: g.group_name,
            created_by: g.created_by,
            created_at: g.created_at,
            role: g.role,
        }
    }
}

impl vstd::std_specs::convert::FromSpecImpl<GroupWithRole> for GroupMembership {
    open spec fn obeys_from_spec() -> bool {
        true
    }

    open spec fn from_spec(g: GroupWithRole) -> Self {
        group_membership(g)
    }
}

/// The answer to `GET /api/accounts`: a summary of each account, in the
/// order of the rows.
pub fn accounts_response(rows: Vec<Account>) -> (r: AccountsResponse)
    ensures
        r.accounts@.len() == rows@.len(),
        forall|i: int|
            0 <= i < rows@.len() ==> #[trigger] r.accounts@[i] == account_summary(rows@[i]),
{
    let ghost all = rows@;
    let mut accounts: Vec<AccountSummary> = Vec::new();
    for row in it: rows
        invariant
            it.seq() == all,
            accounts@.len() == it.index(),
            forall|i: int|
                0 <= i < it.index() ==> #[trigger] accounts@[i] == account_summary(all[i]),
    {
        accounts.push(AccountSummary::from(row));
    }
    AccountsResponse { accounts }
}

/// The answer to `GET /api/accounts/:id/groups`: each group with the role
/// of the account in it, in the order of the rows.
pub fn groups_response(rows: Vec<GroupWithRole>) -> (r: GroupsResponse)
    ensures
        r.groups@.len() == rows@.len(),
        forall|i: int|
            0 <= i < rows@.len() ==> #[trigger] r.groups@[i] == group_membership(rows@[i]),
{
    let ghost all = rows@;
    let mut groups: Vec<GroupMembership> = Vec::new();
    for row in it: rows
        invariant
            it.seq() == all,
            groups@.len() == it.index(),
            forall|i: int|
                0 <= i < it.index() ==> #[trigger] groups@[i] == group_membership(all[i]),
    {
        groups.push(GroupMembership::from(row));
    }
    GroupsResponse { groups }
}

/// The answer to `GET /api/groups/:id/users`: the rows as they are.
pub fn members_response(rows: Vec<GroupUser>) -> (r: GroupMembersResponse)
    ensures
        r.members == rows,
{
    GroupMembersResponse { members: rows }
}

/// The error for an account that could not be inserted: an internal one,
/// whose message ends with the description of the fault.
pub fn account_insert_failed(description: &str) -> (e: ApiError)
    ensures
        e.says(
            Status::Internal,
            crate::error::INTERNAL@,
            messages::ACCOUNT_INSERT_FAILED@ + description@,
        ),
{
    let mut message = messages::ACCOUNT_INSERT_FAILED.to_owned();
    message.append(description);
    ApiError { status: Status::Internal, code: crate::error::INTERNAL, message }
}

/// The answer to `POST /api/accounts`, from the row that was read back
/// after the insertion. That the row is missing is an internal error.
pub fn account_created(row: Option<Account>) -> (r: Result<AccountSummary, ApiError>)
    ensures
        match row {
            Some(a) => r == Ok::<AccountSummary, ApiError>(account_summary(a)),
            None => fails_with(
                r,
                fault(Status::Internal, crate::error::INTERNAL, messages::ACCOUNT_VANISHED),
            ),
        },
{
    match row {
        Some(a) => Ok(AccountSummary::from(a)),
        None => Err(ApiError::internal(messages::ACCOUNT_VANISHED)),
    }
}

/// The answer to `POST /api/groups`, from the row that was read back after
/// the insertion. That the row is missing is an internal error.
pub fn group_created(row: Option<Group>) -> (r: Result<GroupSummary, ApiError>)
    ensures
        match row {
            Some(g) => r == Ok::<GroupSummary, ApiError>(group_summary(g)),
            None => fails_with(
                r,
                fault(Status::Internal, crate::error::INTERNAL, messages::GROUP_VANISHED),
            ),
        },
{
    match row {
        Some(g) => Ok(GroupSummary::from(g)),
        None => Err(ApiError::internal(messages::GROUP_VANISHED)),
    }
}

/// The answer to `GET /api/groups/:id`: the group, or "not found".
pub fn group_found(row: Option<Group>) -> (r: Result<GroupSummary, ApiError>)
    ensures
        match row {
            Some(g) => r == Ok::<GroupSummary, ApiError>(group_summary(g)),
            None => fails_with(
                r,
                fault(
                    Status::NotFound,
                    messages::GROUP_NOT_FOUND,
                    messages::GROUP_NOT_FOUND_MESSAGE,
                ),
            ),
        },
{
    match row {
        Some(g) => Ok(GroupSummary::from(g)),
        None => Err(
            ApiError::not_found(messages::GROUP_NOT_FOUND, messages::GROUP_NOT_FOUND_MESSAGE),
        ),
    }
}

/// The answer to `POST /api/groups/:id/notes`: the id of the new note.
pub fn note_created(id: i64) -> (r: CreateNoteResponse)
    ensures
        r.id == id,
{
    CreateNoteResponse { id }
}

/// The answer to a change or a deletion of one note, from whether the store
/// found a row to change: where it found none, the note does not exist, and
/// the answer is "not found".
pub fn note_changed(changed: bool) -> (r: Result<(), ApiError>)
    ensures
        changed ==> r is Ok,
        !changed ==> fails_with(
            r,
            fault(Status::NotFound, messages::NOTE_NOT_FOUND, messages::NOTE_NOT_FOUND_MESSAGE),
        ),
{
    if changed {
        Ok(())
    } else {
        Err(ApiError::not_found(messages::NOTE_NOT_FOUND, messages::NOTE_NOT_FOUND_MESSAGE))
    }
}

/// The answer to `DELETE /api/groups/:id/notes`: the number of notes that
/// the store removed.
pub fn notes_cleared(removed: u64) -> (r: ClearResponse)
    ensures
        r.removed == removed,
{
    ClearResponse { removed }
}

} // verus!
