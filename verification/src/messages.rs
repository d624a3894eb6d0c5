//! The codes and the messages of the errors that requests are answered
//! with. A code is stable and meant for programs; a message is meant for the
//! person in front of the screen.

use vstd::prelude::*;

verus! {

pub const NAME_EMPTY: &'static str = "name_empty";

pub const NAME_EMPTY_MESSAGE: &'static str = "名前を入力してください";

pub const EMAIL_EMPTY: &'static str = "email_empty";

pub const EMAIL_EMPTY_MESSAGE: &'static str = "メールアドレスを入力してください";

pub const EMAIL_INVALID: &'static str = "email_invalid";

pub const EMAIL_INVALID_MESSAGE: &'static str = "メールアドレスの形式が正しくありません";

pub const PASSWORD_SHORT: &'static str = "password_short";

pub const PASSWORD_SHORT_MESSAGE: &'static str = "パスワードは6文字以上にしてください";

/// What the message of a failed account insertion begins with; the
/// description of the fault follows.
pub const ACCOUNT_INSERT_FAILED: &'static str = "アカウント作成に失敗しました: ";

pub const ACCOUNT_VANISHED: &'static str = "作成したアカウントが見つかりません";

pub const GROUP_NAME_EMPTY: &'static str = "group_name_empty";

pub const GROUP_NAME_EMPTY_MESSAGE: &'static str = "グループ名を入力してください";

pub const CREATED_BY_INVALID: &'static str = "created_by_invalid";

pub const CREATED_BY_INVALID_MESSAGE: &'static str = "作成ユーザーIDが不正です";

pub const GROUP_VANISHED: &'static str = "作成したグループが見つかりません";

pub const INVALID_ID: &'static str = "invalid_id";

pub const INVALID_GROUP_ID: &'static str = "invalid_group_id";

pub const INVALID_GROUP_ID_MESSAGE: &'static str = "グループIDが不正です";

pub const INVALID_USER_ID: &'static str = "invalid_user_id";

pub const INVALID_USER_ID_MESSAGE: &'static str = "ユーザーIDが不正です";

pub const INVALID_NOTE_ID: &'static str = "invalid_note_id";

pub const INVALID_NOTE_ID_MESSAGE: &'static str = "付箋IDが不正です";

pub const INVALID_ROLE: &'static str = "invalid_role";

pub const INVALID_ROLE_MESSAGE: &'static str = "role は owner か member にしてください";

pub const NOT_MEMBER: &'static str = "not_member";

pub const NOT_MEMBER_MESSAGE: &'static str = "このユーザーはグループに参加していません";

pub const ACCOUNT_NOT_FOUND: &'static str = "account_not_found";

pub const ACCOUNT_NOT_FOUND_MESSAGE: &'static str = "ユーザーが存在しません";

pub const GROUP_NOT_FOUND: &'static str = "group_not_found";

/// The message when a group that something else depends on is missing.
pub const GROUP_MISSING_MESSAGE: &'static str = "グループが存在しません";

/// The message when the group that was asked for is missing.
pub const GROUP_NOT_FOUND_MESSAGE: &'static str = "グループが見つかりません";

pub const NOTE_NOT_FOUND: &'static str = "note_not_found";

pub const NOTE_NOT_FOUND_MESSAGE: &'static str = "付箋が見つかりません";

pub const PAYLOAD_TOO_LARGE: &'static str = "payload_too_large";

pub const PAYLOAD_TOO_LARGE_MESSAGE: &'static str = "リクエストが大きすぎます";

pub const INVALID_BODY: &'static str = "invalid_body";

pub const INVALID_BODY_MESSAGE: &'static str = "リクエストの形式が正しくありません";

pub const TEXT_EMPTY: &'static str = "text_empty";

pub const TEXT_EMPTY_MESSAGE: &'static str = "テキストを入力してください";

pub const TEXT_TOO_SHORT: &'static str = "text_too_short";

pub const TEXT_TOO_SHORT_MESSAGE: &'static str = "テキストが短すぎます";

pub const TEXT_TOO_LONG: &'static str = "text_too_long";

pub const TEXT_TOO_LONG_MESSAGE: &'static str = "テキストが長すぎます";

pub const INVALID_SUMMARY_ID_MESSAGE: &'static str = "要約IDが不正です";

pub const SUMMARY_NOT_FOUND: &'static str = "summary_not_found";

pub const SUMMARY_NOT_FOUND_MESSAGE: &'static str = "要約が見つかりません";

} // verus!
