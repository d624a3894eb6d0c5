use sticky_notes::db::{Account, Group, GroupUser, GroupWithRole};
use sticky_notes::error::{ApiError, Status};
use sticky_notes::response::{
    account_created, account_insert_failed, accounts_response, group_created, group_found,
    groups_response, members_response, note_changed, note_created, notes_cleared, AccountSummary,
    GroupMembership, GroupSummary,
};

fn alice() -> Account {
    Account {
        id: 1,
        name: "Alice".to_string(),
        email: "a@x.com".to_string(),
        password_hash: "5b11".to_string(),
        created_at: "2024-01-01 00:00:00".to_string(),
    }
}

fn bob() -> Account {
    Account {
        id: 2,
        name: "Bob".to_string(),
        email: "b@x.com".to_string(),
        password_hash: "0000".to_string(),
        created_at: "2024-01-02 00:00:00".to_string(),
    }
}

fn team() -> Group {
    Group {
        id: 3,
        group_name: "Team".to_string(),
        created_by: 1,
        created_at: "2024-01-03 00:00:00".to_string(),
    }
}

#[test]
fn account_summary_drops_nothing_but_the_password() {
    let s = AccountSummary::from(alice());
    assert_eq!(s.id, 1);
    assert_eq!(s.name, "Alice");
    assert_eq!(s.email, "a@x.com");
    assert_eq!(s.created_at, "2024-01-01 00:00:00");
}

#[test]
fn group_summary_keeps_every_field() {
    let s = GroupSummary::from(team());
    assert_eq!(s.id, 3);
    assert_eq!(s.group_name, "Team");
    assert_eq!(s.created_by, 1);
    assert_eq!(s.created_at, "2024-01-03 00:00:00");
}

#[test]
fn group_membership_keeps_the_role() {
    let m = GroupMembership::from(GroupWithRole {
        id: 3,
        group_name: "Team".to_string(),
        created_by: 1,
        created_at: "2024-01-03 00:00:00".to_string(),
        role: "owner".to_string(),
    });
    assert_eq!(m.id, 3);
    assert_eq!(m.group_name, "Team");
    assert_eq!(m.created_by, 1);
    assert_eq!(m.created_at, "2024-01-03 00:00:00");
    assert_eq!(m.role, "owner");
}

#[test]
fn accounts_response_keeps_the_order() {
    let r = accounts_response(vec![alice(), bob()]);
    assert_eq!(r.accounts.len(), 2);
    assert_eq!(r.accounts[0].id, 1);
    assert_eq!(r.accounts[0].name, "Alice");
    assert_eq!(r.accounts[1].id, 2);
    assert_eq!(r.accounts[1].email, "b@x.com");
    assert!(accounts_response(Vec::new()).accounts.is_empty());
}

#[test]
fn groups_response_keeps_the_order() {
    let rows = vec![
        GroupWithRole {
            id: 3,
            group_name: "Team".to_string(),
            created_by: 1,
            created_at: "t1".to_string(),
            role: "owner".to_string(),
        },
        GroupWithRole {
            id: 4,
            group_name: "Other".to_string(),
            created_by: 2,
            created_at: "t2".to_string(),
            role: "member".to_string(),
        },
    ];
    let r = groups_response(rows);
    assert_eq!(r.groups.len(), 2);
    assert_eq!(r.groups[0].group_name, "Team");
    assert_eq!(r.groups[0].role, "owner");
    assert_eq!(r.groups[1].id, 4);
    assert_eq!(r.groups[1].role, "member");
}

#[test]
fn members_response_is_the_rows() {
    let rows = vec![GroupUser {
        id: 1,
        group_id: 3,
        user_id: 1,
        role: "owner".to_string(),
        joined_at: "t".to_string(),
    }];
    let r = members_response(rows);
    assert_eq!(r.members.len(), 1);
    assert_eq!(r.members[0].user_id, 1);
    assert_eq!(r.members[0].role, "owner");
}

#[test]
fn account_created_or_vanished() {
    let s = account_created(Some(alice())).unwrap();
    assert_eq!(s.name, "Alice");
    let e: ApiError = account_created(None).unwrap_err();
    assert_eq!(e.status, Status::Internal);
    assert_eq!(e.status_code(), 500);
    assert_eq!(e.code, "internal");
    assert_eq!(e.message, "作成したアカウントが見つかりません");
}

#[test]
fn account_insert_failure_carries_the_reason() {
    let e = account_insert_failed("UNIQUE constraint failed: accounts.email");
    assert_eq!(e.status_code(), 500);
    assert_eq!(e.code, "internal");
    assert_eq!(
        e.message,
        "アカウント作成に失敗しました: UNIQUE constraint failed: accounts.email"
    );
}

#[test]
fn group_created_or_vanished() {
    assert_eq!(group_created(Some(team())).unwrap().group_name, "Team");
    let e = group_created(None).unwrap_err();
    assert_eq!(e.status_code(), 500);
    assert_eq!(e.code, "internal");
    assert_eq!(e.message, "作成したグループが見つかりません");
}

#[test]
fn group_found_or_not() {
    assert_eq!(group_found(Some(team())).unwrap().id, 3);
    let e = group_found(None).unwrap_err();
    assert_eq!(e.status_code(), 404);
    assert_eq!(e.code, "group_not_found");
    assert_eq!(e.message, "グループが見つかりません");
}

#[test]
fn note_created_answers_the_id() {
    assert_eq!(note_created(42).id, 42);
}

#[test]
fn change_of_a_missing_note_is_not_found() {
    assert!(note_changed(true).is_ok());
    let e = note_changed(false).unwrap_err();
    assert_eq!(e.status_code(), 404);
    assert_eq!(e.status, Status::NotFound);
    assert_eq!(e.code, "note_not_found");
    assert_eq!(e.message, "付箋が見つかりません");
}

#[test]
fn notes_cleared_answers_the_count() {
    assert_eq!(notes_cleared(0).removed, 0);
    assert_eq!(notes_cleared(17).removed, 17);
}
