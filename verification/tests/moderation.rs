use admission::auth::{UserRole, UserSession};
use admission::moderation::{
    check_delete_permission, delete_answer, needs_author, AuthorLookup, ContentKind,
    DeleteSubject, MSG_BAD_TYPE, MSG_CHECK_FAILED, MSG_DELETED, MSG_NOT_ALLOWED,
};

fn session(role: UserRole) -> UserSession {
    UserSession { user_id: "ann".to_string(), session_id: "s".to_string(), role }
}

fn subject(table: &str) -> DeleteSubject {
    DeleteSubject { table: table.to_string(), id: "x".to_string() }
}

#[test]
fn subject_is_a_post_or_a_comment() {
    assert_eq!(subject("Posts").kind(), Some(ContentKind::Post));
    assert_eq!(subject("commented").kind(), Some(ContentKind::Comment));
    assert_eq!(subject("posts").kind(), None);
    assert_eq!(subject("Users").kind(), None);
    assert_eq!(subject("").kind(), None);
    assert_eq!(ContentKind::Post.author_result_index(), 1);
    assert_eq!(ContentKind::Comment.author_result_index(), 0);
}

#[test]
fn administrator_may_delete_anything() {
    let admin = session(UserRole::Admin);
    assert!(!needs_author(&admin));
    assert_eq!(check_delete_permission(&admin, &AuthorLookup::NotNeeded), Ok(true));
    assert_eq!(check_delete_permission(&admin, &AuthorLookup::Author("bob".to_string())), Ok(true));
    assert_eq!(check_delete_permission(&admin, &AuthorLookup::Failed(500)), Ok(true));
}

#[test]
fn user_may_delete_only_their_own() {
    let user = session(UserRole::User);
    assert!(needs_author(&user));
    assert_eq!(check_delete_permission(&user, &AuthorLookup::Author("ann".to_string())), Ok(true));
    assert_eq!(check_delete_permission(&user, &AuthorLookup::Author("bob".to_string())), Ok(false));
    assert_eq!(check_delete_permission(&user, &AuthorLookup::Failed(404)), Err(404));
    assert_eq!(check_delete_permission(&user, &AuthorLookup::Failed(500)), Err(500));
    assert_eq!(check_delete_permission(&user, &AuthorLookup::NotNeeded), Ok(false));
}

#[test]
fn delete_is_answered_with_status_and_text() {
    assert_eq!(delete_answer(None, Ok(true)), (400, MSG_BAD_TYPE));
    assert_eq!(delete_answer(None, Err(500)), (400, MSG_BAD_TYPE));
    assert_eq!(delete_answer(Some(ContentKind::Post), Err(404)), (404, MSG_CHECK_FAILED));
    assert_eq!(delete_answer(Some(ContentKind::Post), Ok(true)), (200, MSG_DELETED));
    assert_eq!(delete_answer(Some(ContentKind::Comment), Ok(false)), (401, MSG_NOT_ALLOWED));
}
