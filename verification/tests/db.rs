use sticky_notes::db::{
    db_file_path_from_url, first_share, owner_membership, row_changed, ClearNotes, Membership,
    Role, FILE_SCHEME, MEMORY_URL,
};
use sticky_notes::note::{Geometry, NewNote, Real};

fn new_note(group_id: i64, can_edit: bool) -> NewNote {
    let zero = Real { bits: 0 };
    NewNote {
        title: None,
        content: None,
        color: "#FFFF88".to_string(),
        geometry: Geometry { x: zero, y: zero, width: zero, height: zero, z_index: 0 },
        created_by: None,
        group_id,
        can_edit,
    }
}

#[test]
fn file_path_follows_the_scheme() {
    assert_eq!(db_file_path_from_url("sqlite://app.db"), Some("app.db".to_string()));
    assert_eq!(
        db_file_path_from_url("sqlite://data/notes/app.db"),
        Some("data/notes/app.db".to_string())
    );
    assert_eq!(db_file_path_from_url("sqlite:///var/lib/app.db"), Some("/var/lib/app.db".to_string()));
    assert_eq!(db_file_path_from_url("sqlite://"), Some("".to_string()));
}

#[test]
fn memory_store_has_no_file() {
    assert_eq!(db_file_path_from_url("sqlite::memory:"), None);
    assert_eq!(db_file_path_from_url("sqlite::memory:?cache=shared"), None);
}

#[test]
fn other_urls_have_no_file() {
    assert_eq!(db_file_path_from_url(""), None);
    assert_eq!(db_file_path_from_url("sqlite:app.db"), None);
    assert_eq!(db_file_path_from_url("postgres://localhost/app"), None);
    assert_eq!(db_file_path_from_url("SQLITE://app.db"), None);
    assert_eq!(db_file_path_from_url(" sqlite://app.db"), None);
}

#[test]
fn url_constants() {
    assert_eq!(MEMORY_URL, "sqlite::memory:");
    assert_eq!(FILE_SCHEME, "sqlite://");
}

#[test]
fn role_words() {
    assert_eq!(Role::Owner.as_str(), "owner");
    assert_eq!(Role::Member.as_str(), "member");
    assert_eq!(Role::parse("owner"), Some(Role::Owner));
    assert_eq!(Role::parse("member"), Some(Role::Member));
    assert_eq!(Role::parse("Owner"), None);
    assert_eq!(Role::parse("admin"), None);
    assert_eq!(Role::parse(""), None);
    assert_eq!(Role::parse("member "), None);
}

#[test]
fn role_word_reads_back() {
    for role in [Role::Owner, Role::Member] {
        assert_eq!(Role::parse(role.as_str()), Some(role));
    }
}

#[test]
fn creator_joins_as_owner() {
    assert_eq!(
        owner_membership(3, 1),
        Membership { group_id: 3, user_id: 1, role: Role::Owner }
    );
    assert_eq!(owner_membership(10, 10).role, Role::Owner);
}

#[test]
fn first_share_goes_to_the_group_of_the_note() {
    let s = first_share(21, &new_note(5, true));
    assert_eq!(s.note_id, 21);
    assert_eq!(s.group_id, 5);
    assert_eq!(s.can_edit, 1);
    let s = first_share(22, &new_note(6, false));
    assert_eq!(s.note_id, 22);
    assert_eq!(s.group_id, 6);
    assert_eq!(s.can_edit, 0);
}

#[test]
fn no_row_affected_means_no_change() {
    assert!(!row_changed(0));
    assert!(row_changed(1));
    assert!(row_changed(u64::MAX));
}

#[test]
fn clearing_deletes_each_listed_note_in_order() {
    let mut state = ClearNotes::begin(vec![4, 9, 2]);
    let mut deleted = Vec::new();
    while let Some(note_id) = state.next() {
        deleted.push(note_id);
        state = state.record(1);
    }
    assert_eq!(deleted, vec![4, 9, 2]);
    assert_eq!(state.removed(), 3);
    assert_eq!(state.next(), None);
}

#[test]
fn clearing_counts_what_the_store_removed() {
    let state = ClearNotes::begin(vec![4, 9, 2]);
    assert_eq!(state.removed(), 0);
    assert_eq!(state.next(), Some(4));
    let state = state.record(1);
    assert_eq!(state.removed(), 1);
    assert_eq!(state.next(), Some(9));
    // a note that was gone already
    let state = state.record(0);
    assert_eq!(state.removed(), 1);
    assert_eq!(state.next(), Some(2));
    let state = state.record(1);
    assert_eq!(state.removed(), 2);
    assert_eq!(state.next(), None);
}

#[test]
fn clearing_an_empty_group_removes_nothing() {
    let state = ClearNotes::begin(Vec::new());
    assert_eq!(state.next(), None);
    assert_eq!(state.removed(), 0);
}
