//! One function for each endpoint of the notes service.
//!
//! A handler never touches the store. It looks at the request and answers
//! with an error at once, or with a [`Plan`]: the facts that have to be
//! looked up first, in order, and the storage command to run once they all
//! hold. What the store then answers is turned into the reply by the
//! functions of [`crate::response`].

use crate::color::{normalize_color, normalized};
use crate::db::{Account, Group, Role};
use crate::error::{fails_with, fault, ApiError, Fault, Status};
use crate::messages;
use crate::note::{Geometry, NewNote, Real};
use crate::password::{hash_password, password_hash};
use crate::text::{as_deref, contains_char, text_of, trim, trimmed};
use vstd::prelude::*;
use vstd::utf8::encode_utf8;

verus! {

/// A fact about the store that a request depends on.
#[derive(Debug, Clone, Copy, PartialEq, Eq, Structural)]
pub enum Check {
    /// There is an account with this id.
    AccountExists { account_id: i64 },
    /// There is a group with this id.
    GroupExists { group_id: i64 },
    /// The account is a member of the group.
    Membership { group_id: i64, user_id: i64 },
}

/// A call into the store, with what the store is asked to do for it. Every
/// call may fail, for reasons of the store's own; the request then ends with
/// an internal error that carries the store's description of the fault.
#[derive(Debug)]
pub enum Command {
    /// Every account, in the order in which they were created.
    ListAccounts,
    /// A new account. The store answers with its id.
    CreateAccount { name: String, email: String, password_hash: String },
    /// A new group, and in the same transaction the membership of its
    /// creator, as owner: both are written, or neither. The store answers
    /// with the id of the group.
    CreateGroup { group_name: String, created_by: i64 },
    /// The group with this id, if there is one.
    GetGroup { group_id: i64 },
    /// The groups that the account belongs to, each with the role of the
    /// account in it, in the order in which the groups were created.
    ListGroupsForUser { user_id: i64 },
    /// A new membership. Where the account belongs to the group already,
    /// nothing changes, and that is no failure.
    AddUserToGroup { group_id: i64, user_id: i64, role: Role },
    /// The memberships of the group, in the order in which they began.
    ListGroupMembers { group_id: i64 },
    /// The notes shared to the group, by stacking index, lowest first, and
    /// among notes of one index by the time of their last change, oldest
    /// first.
    ListNotesForGroup { group_id: i64 },
    /// A new note, and in the same transaction its share with the group it
    /// is created in. The store answers with the id of the note.
    CreateNote { note: NewNote },
    /// A new geometry for the note with this id. The store answers whether
    /// there was such a note.
    UpdateNotePosition { note_id: i64, geometry: Geometry },
    /// A new title, text and colour for the note with this id. The store
    /// answers whether there was such a note.
    UpdateNoteContent { note_id: i64, title: Option<String>, content: Option<String>, color: String },
    /// The end of the note with this id, and of its shares with it. The
    /// store answers whether there was such a note.
    DeleteNote { note_id: i64 },
    /// The end of every note that is shared to the group, in one
    /// transaction: the notes themselves go, not only their shares with this
    /// group. The store answers with the number of notes it removed.
    ClearNotesForGroup { group_id: i64 },
}

/// What is to be done for a request that was not turned down at once.
///
/// The checks are looked up in order, and each is settled by the function
/// for its kind: [`ensure_account_exists`], [`ensure_group_exists`] or
/// [`ensure_membership`]. The first that does not hold ends the request.
/// When all hold, `outcome` says how the request goes on: with the command
/// to run, or with the error that it is turned down with after all.
#[derive(Debug)]
pub struct Plan {
    pub checks: Vec<Check>,
    pub outcome: Result<Command, ApiError>,
}

impl Command {
    /// The command belongs to an endpoint that answers success without a
    /// body: joining a group, and changing or deleting one note.
    pub open spec fn answers_without_body(self) -> bool {
        ||| self is AddUserToGroup
        ||| self is UpdateNotePosition
        ||| self is UpdateNoteContent
        ||| self is DeleteNote
    }

    /// The status that success is answered with: 204 where the answer has no
    /// body, and 200 where it has one.
    pub fn success_status(&self) -> (n: u16)
        ensures
            n == if self.answers_without_body() {
                204int
            } else {
                200int
            },
    {
        match self {
            Command::AddUserToGroup { .. } => 204,
            Command::UpdateNotePosition { .. } => 204,
            Command::UpdateNoteContent { .. } => 204,
            Command::DeleteNote { .. } => 204,
            _ => 200,
        }
    }
}

/// Turns the request down unless the account it depends on was found.
pub fn ensure_account_exists(account: &Option<Account>) -> (r: Result<(), ApiError>)
    ensures
        account is Some ==> r is Ok,
        account is None ==> fails_with(
            r,
            fault(
                Status::NotFound,
                messages::ACCOUNT_NOT_FOUND,
                messages::ACCOUNT_NOT_FOUND_MESSAGE,
            ),
        ),
{
    if account.is_some() {
        Ok(())
    } else {
        Err(ApiError::not_found(messages::ACCOUNT_NOT_FOUND, messages::ACCOUNT_NOT_FOUND_MESSAGE))
    }
}

/// Turns the request down unless the group it depends on was found.
pub fn ensure_group_exists(group: &Option<Group>) -> (r: Result<(), ApiError>)
    ensures
        group is Some ==> r is Ok,
        group is None ==> fails_with(
            r,
            fault(
                Status::NotFound,
                messages::GROUP_NOT_FOUND,
                messages::GROUP_MISSING_MESSAGE,
            ),
        ),
{
    if group.is_some() {
        Ok(())
    } else {
        Err(ApiError::not_found(messages::GROUP_NOT_FOUND, messages::GROUP_MISSING_MESSAGE))
    }
}

/// Turns the request down unless the author of a note belongs to the group
/// that the note goes to.
pub fn ensure_membership(belongs: bool) -> (r: Result<(), ApiError>)
    ensures
        belongs ==> r is Ok,
        !belongs ==> fails_with(
            r,
            fault(
                Status::Unprocessable,
                messages::NOT_MEMBER,
                messages::NOT_MEMBER_MESSAGE,
            ),
        ),
{
    if belongs {
        Ok(())
    } else {
        Err(ApiError::unprocessable(messages::NOT_MEMBER, messages::NOT_MEMBER_MESSAGE))
    }
}

// -------------------------------------------------------------------
// Accounts

/// The body of a request for a new account.
#[derive(Debug)]
pub struct CreateAccountRequest {
    pub name: String,
    pub email: String,
    pub password: String,
}

/// What is wrong with the data for a new account, if anything. Each value
/// is looked at without the white space around it: the name and the address
/// must not be empty, the address must hold an `@`, and the password must
/// take at least six bytes.
pub open spec fn new_account_fault(
    name: Seq<char>,
    email: Seq<char>,
    password: Seq<char>,
) -> Option<Fault> {
    if trimmed(name).len() == 0 {
        Some(fault(Status::BadRequest, messages::NAME_EMPTY, messages::NAME_EMPTY_MESSAGE))
    } else if trimmed(email).len() == 0 {
        Some(fault(Status::BadRequest, messages::EMAIL_EMPTY, messages::EMAIL_EMPTY_MESSAGE))
    } else if !trimmed(email).contains('@') {
        Some(
            fault(Status::Unprocessable, messages::EMAIL_INVALID, messages::EMAIL_INVALID_MESSAGE),
        )
    } else if encode_utf8(trimmed(password)).len() < 6 {
        Some(
            fault(
                Status::Unprocessable,
                messages::PASSWORD_SHORT,
                messages::PASSWORD_SHORT_MESSAGE,
            ),
        )
    } else {
        None
    }
}

/// `GET /api/accounts`: every account, oldest first.
pub fn list_accounts() -> (plan: Plan)
    ensures
        plan.checks@.len() == 0,
        plan.outcome matches Ok(Command::ListAccounts),
{
    Plan { checks: Vec::new(), outcome: Ok(Command::ListAccounts) }
}

/// `POST /api/accounts`: a new account. The name and the address are stored
/// trimmed, the password as the digest of its trimmed form.
pub fn create_account(payload: CreateAccountRequest) -> (r: Result<Plan, ApiError>)
    ensures
        match new_account_fault(payload.name@, payload.email@, payload.password@) {
            Some(fault) => fails_with(r, fault),
            None => {
                &&& r matches Ok(plan)
                &&& plan.checks@.len() == 0
                &&& plan.outcome matches Ok(Command::CreateAccount { name, email, password_hash: hash })
                &&& name@ == trimmed(payload.name@)
                &&& email@ == trimmed(payload.email@)
                &&& hash@ == password_hash(trimmed(payload.password@))
            },
        },
{
    let name = trim(payload.name.as_str());
    let email = trim(payload.email.as_str());
    let password = trim(payload.password.as_str());
    if name.is_empty() {
        return Err(ApiError::bad_request(messages::NAME_EMPTY, messages::NAME_EMPTY_MESSAGE));
    }
    if email.is_empty() {
        return Err(ApiError::bad_request(messages::EMAIL_EMPTY, messages::EMAIL_EMPTY_MESSAGE));
    }
    if !contains_char(email, '@') {
        return Err(
            ApiError::unprocessable(messages::EMAIL_INVALID, messages::EMAIL_INVALID_MESSAGE),
        );
    }
    if password.as_bytes().len() < 6 {
        return Err(
            ApiError::unprocessable(messages::PASSWORD_SHORT, messages::PASSWORD_SHORT_MESSAGE),
        );
    }
    let hash = hash_password(password);
    Ok(
        Plan {
            checks: Vec::new(),
            outcome: Ok(
                Command::CreateAccount {
                    name: name.to_owned(),
                    email: email.to_owned(),
                    password_hash: hash,
                },
            ),
        },
    )
}

// -------------------------------------------------------------------
// Groups

/// The body of a request for a new group.
#[derive(Debug)]
pub struct CreateGroupRequest {
    pub group_name: String,
    pub created_by: i64,
}

/// The body of a request to add a member to a group.
#[derive(Debug)]
pub struct JoinGroupRequest {
    pub user_id: i64,
    pub role: Option<String>,
}

/// The fault of an id that is not positive.
pub open spec fn id_fault(id: i64, code: &str, message: &str) -> Option<Fault> {
    if id <= 0 {
        Some(fault(Status::BadRequest, code, message))
    } else {
        None
    }
}

/// What is wrong with the data for a new group, if anything: the name must
/// not be empty once trimmed, and the id of the creator must be positive.
pub open spec fn new_group_fault(group_name: Seq<char>, created_by: i64) -> Option<Fault> {
    if trimmed(group_name).len() == 0 {
        Some(
            fault(
                Status::BadRequest,
                messages::GROUP_NAME_EMPTY,
                messages::GROUP_NAME_EMPTY_MESSAGE,
            ),
        )
    } else {
        id_fault(created_by, messages::CREATED_BY_INVALID, messages::CREATED_BY_INVALID_MESSAGE)
    }
}

/// The role that a request to join asks for: `member` where it names none,
/// and no role at all where it names anything but `owner` or `member`.
pub open spec fn requested_role(role: Option<Seq<char>>) -> Option<Role> {
    match role {
        None => Some(Role::Member),
        Some(word) => Role::named(word),
    }
}

/// `POST /api/groups`: a new group, whose creator must be an account. The
/// name is stored trimmed.
pub fn create_group(payload: CreateGroupRequest) -> (r: Result<Plan, ApiError>)
    ensures
        match new_group_fault(payload.group_name@, payload.created_by) {
            Some(fault) => fails_with(r, fault),
            None => {
                &&& r matches Ok(plan)
                &&& plan.checks@ == seq![Check::AccountExists { account_id: payload.created_by }]
                &&& plan.outcome matches Ok(Command::CreateGroup { group_name, created_by })
                &&& group_name@ == trimmed(payload.group_name@)
                &&& created_by == payload.created_by
            },
        },
{
    let group_name = trim(payload.group_name.as_str());
    if group_name.is_empty() {
        return Err(
            ApiError::bad_request(messages::GROUP_NAME_EMPTY, messages::GROUP_NAME_EMPTY_MESSAGE),
        );
    }
    if payload.created_by <= 0 {
        return Err(
            ApiError::bad_request(
                messages::CREATED_BY_INVALID,
                messages::CREATED_BY_INVALID_MESSAGE,
            ),
        );
    }
    let mut checks: Vec<Check> = Vec::new();
    checks.push(Check::AccountExists { account_id: payload.created_by });
    Ok(
        Plan {
            checks,
            outcome: Ok(
                Command::CreateGroup {
                    group_name: group_name.to_owned(),
                    created_by: payload.created_by,
                },
            ),
        },
    )
}

/// `GET /api/groups/:id`: one group.
pub fn get_group(group_id: i64) -> (r: Result<Plan, ApiError>)
    ensures
        match id_fault(group_id, messages::INVALID_ID, messages::INVALID_GROUP_ID_MESSAGE) {
            Some(fault) => fails_with(r, fault),
            None => {
                &&& r matches Ok(plan)
                &&& plan.checks@.len() == 0
                &&& plan.outcome matches Ok(Command::GetGroup { group_id: id })
                &&& id == group_id
            },
        },
{
    if group_id <= 0 {
        return Err(
            ApiError::bad_request(messages::INVALID_ID, messages::INVALID_GROUP_ID_MESSAGE),
        );
    }
    Ok(Plan { checks: Vec::new(), outcome: Ok(Command::GetGroup { group_id }) })
}

/// `GET /api/accounts/:id/groups`: the groups of an account, each with the
/// role that the account has in it.
pub fn list_groups_for_user(user_id: i64) -> (r: Result<Plan, ApiError>)
    ensures
        match id_fault(user_id, messages::INVALID_USER_ID, messages::INVALID_USER_ID_MESSAGE) {
            Some(fault) => fails_with(r, fault),
            None => {
                &&& r matches Ok(plan)
                &&& plan.checks@ == seq![Check::AccountExists { account_id: user_id }]
                &&& plan.outcome matches Ok(Command::ListGroupsForUser { user_id: id })
                &&& id == user_id
            },
        },
{
    if user_id <= 0 {
        return Err(
            ApiError::bad_request(messages::INVALID_USER_ID, messages::INVALID_USER_ID_MESSAGE),
        );
    }
    let mut checks: Vec<Check> = Vec::new();
    checks.push(Check::AccountExists { account_id: user_id });
    Ok(Plan { checks, outcome: Ok(Command::ListGroupsForUser { user_id }) })
}

/// `POST /api/groups/:id/users`: a new member for a group.
///
/// Both ids must be positive, and the account and the group must exist. A
/// role that is neither `owner` nor `member` is turned down only after
/// both were found.
pub fn add_user_to_group(group_id: i64, payload: JoinGroupRequest) -> (r: Result<
    Plan,
    ApiError,
>)
    ensures
        group_id <= 0 ==> fails_with(
            r,
            fault(
                Status::BadRequest,
                messages::INVALID_GROUP_ID,
                messages::INVALID_GROUP_ID_MESSAGE,
            ),
        ),
        group_id > 0 && payload.user_id <= 0 ==> fails_with(
            r,
            fault(
                Status::BadRequest,
                messages::INVALID_USER_ID,
                messages::INVALID_USER_ID_MESSAGE,
            ),
        ),
        group_id > 0 && payload.user_id > 0 ==> ({
            &&& r matches Ok(plan)
            &&& plan.checks@ == seq![
                Check::AccountExists { account_id: payload.user_id },
                Check::GroupExists { group_id },
            ]
            &&& match requested_role(text_of(payload.role)) {
                Some(asked) => {
                    &&& plan.outcome matches Ok(
                        Command::AddUserToGroup { group_id: group, user_id: user, role },
                    )
                    &&& group == group_id
                    &&& user == payload.user_id
                    &&& role == asked
                },
                None => fails_with(
                    plan.outcome,
                    fault(
                        Status::BadRequest,
                        messages::INVALID_ROLE,
                        messages::INVALID_ROLE_MESSAGE,
                    ),
                ),
            }
        }),
{
    if group_id <= 0 {
        return Err(
            ApiError::bad_request(messages::INVALID_GROUP_ID, messages::INVALID_GROUP_ID_MESSAGE),
        );
    }
    if payload.user_id <= 0 {
        return Err(
            ApiError::bad_request(messages::INVALID_USER_ID, messages::INVALID_USER_ID_MESSAGE),
        );
    }
    let mut checks: Vec<Check> = Vec::new();
    checks.push(Check::AccountExists { account_id: payload.user_id });
    checks.push(Check::GroupExists { group_id });
    let role = match as_deref(&payload.role) {
        None => Some(Role::Member),
        Some(word) => Role::parse(word),
    };
    let outcome = match role {
        Some(role) => Ok(Command::AddUserToGroup { group_id, user_id: payload.user_id, role }),
        None => Err(ApiError::bad_request(messages::INVALID_ROLE, messages::INVALID_ROLE_MESSAGE)),
    };
    Ok(Plan { checks, outcome })
}

/// `GET /api/groups/:id/users`: the members of a group, in the order in
/// which they joined.
pub fn list_group_members(group_id: i64) -> (r: Result<Plan, ApiError>)
    ensures
        match id_fault(
            group_id,
            messages::INVALID_GROUP_ID,
            messages::INVALID_GROUP_ID_MESSAGE,
        ) {
            Some(fault) => fails_with(r, fault),
            None => {
                &&& r matches Ok(plan)
                &&& plan.checks@ == seq![Check::GroupExists { group_id }]
                &&& plan.outcome matches Ok(Command::ListGroupMembers { group_id: id })
                &&& id == group_id
            },
        },
{
    if group_id <= 0 {
        return Err(
            ApiError::bad_request(messages::INVALID_GROUP_ID, messages::INVALID_GROUP_ID_MESSAGE),
        );
    }
    let mut checks: Vec<Check> = Vec::new();
    checks.push(Check::GroupExists { group_id });
    Ok(Plan { checks, outcome: Ok(Command::ListGroupMembers { group_id }) })
}

// -------------------------------------------------------------------
// Notes

/// The body of a request for a new note.
#[derive(Debug)]
pub struct CreateNoteRequest {
    pub title: Option<String>,
    pub content: Option<String>,
    pub color: Option<String>,
    pub x: Real,
    pub y: Real,
    pub width: Option<Real>,
    pub height: Option<Real>,
    pub z_index: Option<i64>,
    pub created_by: Option<i64>,
    pub can_edit: Option<bool>,
}

/// The body of a request to move or resize a note.
#[derive(Debug)]
pub struct UpdateNotePositionRequest {
    pub x: Real,
    pub y: Real,
    pub width: Option<Real>,
    pub height: Option<Real>,
    pub z_index: Option<i64>,
}

/// The body of a request to change what a note says.
#[derive(Debug)]
pub struct UpdateNoteContentRequest {
    pub title: Option<String>,
    pub content: Option<String>,
    pub color: Option<String>,
}

/// What has to hold before a note is added to a group: the group exists
/// and, where the note names an author, the author exists and belongs to the
/// group.
pub open spec fn new_note_checks(group_id: i64, created_by: Option<i64>) -> Seq<Check> {
    match created_by {
        Some(author) => seq![
            Check::GroupExists { group_id },
            Check::AccountExists { account_id: author },
            Check::Membership { group_id, user_id: author },
        ],
        None => seq![Check::GroupExists { group_id }],
    }
}

/// `GET /api/groups/:id/notes`: the notes shared to a group, lowest in the
/// stack first.
pub fn list_group_notes(group_id: i64) -> (r: Result<Plan, ApiError>)
    ensures
        match id_fault(
            group_id,
            messages::INVALID_GROUP_ID,
            messages::INVALID_GROUP_ID_MESSAGE,
        ) {
            Some(fault) => fails_with(r, fault),
            None => {
                &&& r matches Ok(plan)
                &&& plan.checks@ == seq![Check::GroupExists { group_id }]
                &&& plan.outcome matches Ok(Command::ListNotesForGroup { group_id: id })
                &&& id == group_id
            },
        },
{
    if group_id <= 0 {
        return Err(
            ApiError::bad_request(messages::INVALID_GROUP_ID, messages::INVALID_GROUP_ID_MESSAGE),
        );
    }
    let mut checks: Vec<Check> = Vec::new();
    checks.push(Check::GroupExists { group_id });
    Ok(Plan { checks, outcome: Ok(Command::ListNotesForGroup { group_id }) })
}

/// `POST /api/groups/:id/notes`: a new note, shared to the group at once.
///
/// The colour is normalised and the geometry filled in. A share that does
/// not say whether the group may edit the note does not allow it.
pub fn create_group_note(group_id: i64, payload: CreateNoteRequest) -> (r: Result<
    Plan,
    ApiError,
>)
    ensures
        match id_fault(
            group_id,
            messages::INVALID_GROUP_ID,
            messages::INVALID_GROUP_ID_MESSAGE,
        ) {
            Some(fault) => fails_with(r, fault),
            None => {
                &&& r matches Ok(plan)
                &&& plan.checks@ == new_note_checks(group_id, payload.created_by)
                &&& plan.outcome matches Ok(Command::CreateNote { note })
                &&& note.title == payload.title
                &&& note.content == payload.content
                &&& note.color@ == normalized(text_of(payload.color))
                &&& note.geometry == Geometry::filled(
                    payload.x,
                    payload.y,
                    payload.width,
                    payload.height,
                    payload.z_index,
                )
                &&& note.created_by == payload.created_by
                &&& note.group_id == group_id
                &&& note.can_edit == (payload.can_edit == Some(true))
            },
        },
{
    if group_id <= 0 {
        return Err(
            ApiError::bad_request(messages::INVALID_GROUP_ID, messages::INVALID_GROUP_ID_MESSAGE),
        );
    }
    let mut checks: Vec<Check> = Vec::new();
    checks.push(Check::GroupExists { group_id });
    if let Some(author) = payload.created_by {
        checks.push(Check::AccountExists { account_id: author });
        checks.push(Check::Membership { group_id, user_id: author });
    }
    assert(checks@ =~= new_note_checks(group_id, payload.created_by));
    let color = normalize_color(as_deref(&payload.color));
    let geometry = Geometry::fill(
        payload.x,
        payload.y,
        payload.width,
        payload.height,
        payload.z_index,
    );
    let can_edit = match payload.can_edit {
        Some(flag) => flag,
        None => false,
    };
    let note = NewNote {
        title: payload.title,
        content: payload.content,
        color,
        geometry,
        created_by: payload.created_by,
        group_id,
        can_edit,
    };
    Ok(Plan { checks, outcome: Ok(Command::CreateNote { note }) })
}

/// `PATCH /api/notes/:id/position`: a new place, size and stacking index for
/// a note. The defaults stand in for what the request leaves out.
pub fn update_note_position(note_id: i64, payload: UpdateNotePositionRequest) -> (r: Result<
    Plan,
    ApiError,
>)
    ensures
        match id_fault(note_id, messages::INVALID_NOTE_ID, messages::INVALID_NOTE_ID_MESSAGE) {
            Some(fault) => fails_with(r, fault),
            None => {
                &&& r matches Ok(plan)
                &&& plan.checks@.len() == 0
                &&& plan.outcome matches Ok(Command::UpdateNotePosition { note_id: id, geometry })
                &&& id == note_id
                &&& geometry == Geometry::filled(
                    payload.x,
                    payload.y,
                    payload.width,
                    payload.height,
                    payload.z_index,
                )
            },
        },
{
    if note_id <= 0 {
        return Err(
            ApiError::bad_request(messages::INVALID_NOTE_ID, messages::INVALID_NOTE_ID_MESSAGE),
        );
    }
    let geometry = Geometry::fill(
        payload.x,
        payload.y,
        payload.width,
        payload.height,
        payload.z_index,
    );
    Ok(
        Plan {
            checks: Vec::new(),
            outcome: Ok(Command::UpdateNotePosition { note_id, geometry }),
        },
    )
}

/// `PATCH /api/notes/:id`: a new title, text and colour for a note. The
/// colour is normalised as it is for a new note.
pub fn update_note_content(note_id: i64, payload: UpdateNoteContentRequest) -> (r: Result<
    Plan,
    ApiError,
>)
    ensures
        match id_fault(note_id, messages::INVALID_NOTE_ID, messages::INVALID_NOTE_ID_MESSAGE) {
            Some(fault) => fails_with(r, fault),
            None => {
                &&& r matches Ok(plan)
                &&& plan.checks@.len() == 0
                &&& plan.outcome matches Ok(
                    Command::UpdateNoteContent { note_id: id, title, content, color },
                )
                &&& id == note_id
                &&& title == payload.title
                &&& content == payload.content
                &&& color@ == normalized(text_of(payload.color))
            },
        },
{
    if note_id <= 0 {
        return Err(
            ApiError::bad_request(messages::INVALID_NOTE_ID, messages::INVALID_NOTE_ID_MESSAGE),
        );
    }
    let color = normalize_color(as_deref(&payload.color));
    Ok(
        Plan {
            checks: Vec::new(),
            outcome: Ok(
                Command::UpdateNoteContent {
                    note_id,
                    title: payload.title,
                    content: payload.content,
                    color,
                },
            ),
        },
    )
}

/// `DELETE /api/notes/:id`: the end of a note, and of its shares with it.
pub fn delete_note(note_id: i64) -> (r: Result<Plan, ApiError>)
    ensures
        match id_fault(note_id, messages::INVALID_NOTE_ID, messages::INVALID_NOTE_ID_MESSAGE) {
            Some(fault) => fails_with(r, fault),
            None => {
                &&& r matches Ok(plan)
                &&& plan.checks@.len() == 0
                &&& plan.outcome matches Ok(Command::DeleteNote { note_id: id })
                &&& id == note_id
            },
        },
{
    if note_id <= 0 {
        return Err(
            ApiError::bad_request(messages::INVALID_NOTE_ID, messages::INVALID_NOTE_ID_MESSAGE),
        );
    }
    Ok(Plan { checks: Vec::new(), outcome: Ok(Command::DeleteNote { note_id }) })
}

/// `DELETE /api/groups/:id/notes`: the end of every note shared to a group.
pub fn clear_group_notes(group_id: i64) -> (r: Result<Plan, ApiError>)
    ensures
        match id_fault(
            group_id,
            messages::INVALID_GROUP_ID,
            messages::INVALID_GROUP_ID_MESSAGE,
        ) {
            Some(fault) => fails_with(r, fault),
            None => {
                &&& r matches Ok(plan)
                &&& plan.checks@ == seq![Check::GroupExists { group_id }]
                &&& plan.outcome matches Ok(Command::ClearNotesForGroup { group_id: id })
                &&& id == group_id
            },
        },
{
    if group_id <= 0 {
        return Err(
            ApiError::bad_request(messages::INVALID_GROUP_ID, messages::INVALID_GROUP_ID_MESSAGE),
        );
    }
    let mut checks: Vec<Check> = Vec::new();
    checks.push(Check::GroupExists { group_id });
    Ok(Plan { checks, outcome: Ok(Command::ClearNotesForGroup { group_id }) })
}

} // verus!
