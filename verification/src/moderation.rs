//! Taking posts and comments down: who may, and what is answered.
use crate::auth::UserSession;
use crate::text::str_equal;
use vstd::prelude::*;

verus! {

/// The table of posts.
pub const POSTS_TABLE: &'static str = "Posts";

/// The table of comments.
pub const COMMENTS_TABLE: &'static str = "commented";

/// Answered when the subject is neither a post nor a comment.
pub const MSG_BAD_TYPE: &'static str = "Only accepted values for `type` are 'Posts' or 'commented'";

/// Answered when the author of the subject could not be found out.
pub const MSG_CHECK_FAILED: &'static str = "Failed to check permission";

/// Answered when the subject has been taken down.
pub const MSG_DELETED: &'static str = "Content deleted successfully";

/// Answered when the caller may not take the subject down.
pub const MSG_NOT_ALLOWED: &'static str = "You are not authorized to delete this content";

/// What is to be taken down: the table it is in, and its id.
#[derive(Clone, Debug, PartialEq, Eq)]
pub struct DeleteSubject {
    pub table: String,
    pub id: String,
}

/// The two kinds of content.
#[derive(Clone, Copy, Debug, PartialEq, Eq, Structural)]
pub enum ContentKind {
    Post,
    Comment,
}

/// The kind of content that a table name stands for, if any.
pub open spec fn kind_of(table: Seq<char>) -> Option<ContentKind> {
    if table == POSTS_TABLE@ {
        Some(ContentKind::Post)
    } else if table == COMMENTS_TABLE@ {
        Some(ContentKind::Comment)
    } else {
        None
    }
}

impl ContentKind {
    /// The place of the author among the results of the query that asks for
    /// the author of content of this kind.
    pub fn author_result_index(&self) -> (at: usize)
        ensures
            at == match *self {
                ContentKind::Post => 1usize,
                ContentKind::Comment => 0usize,
            },
    {
        match self {
            ContentKind::Post => 1,
            ContentKind::Comment => 0,
        }
    }
}

impl DeleteSubject {
    /// The kind of content the subject is, if its table is one of the two.
    pub fn kind(&self) -> (k: Option<ContentKind>)
        ensures
            k == kind_of(self.table@),
    {
        if str_equal(self.table.as_str(), POSTS_TABLE) {
            Some(ContentKind::Post)
        } else if str_equal(self.table.as_str(), COMMENTS_TABLE) {
            Some(ContentKind::Comment)
        } else {
            None
        }
    }
}

/// What the database said about the author of the subject.
#[derive(Clone, Debug, PartialEq, Eq)]
pub enum AuthorLookup {
    /// It was not asked: an administrator needs no leave.
    NotNeeded,
    /// The lookup failed, with the HTTP status of the failure.
    Failed(u16),
    /// The key of the author.
    Author(String),
}

/// Whether the author of the subject has to be looked up before the caller's
/// leave can be decided: an administrator may take down anything.
pub fn needs_author(user: &UserSession) -> (r: bool)
    ensures
        r == !(user.role == crate::auth::UserRole::Admin),
{
    !user.is_admin()
}

/// Whether the caller may take the subject down: an administrator always, a
/// user only what is their own. A failed lookup is passed on with its status.
pub open spec fn delete_leave_of(user: UserSession, author: AuthorLookup) -> Result<bool, u16> {
    if user.role == crate::auth::UserRole::Admin {
        Ok(true)
    } else {
        match author {
            AuthorLookup::Author(key) => Ok(key@ == user.user_id@),
            AuthorLookup::Failed(status) => Err(status),
            AuthorLookup::NotNeeded => Ok(false),
        }
    }
}

/// Whether the caller may take the subject down.
pub fn check_delete_permission(user: &UserSession, author: &AuthorLookup) -> (r: Result<
    bool,
    u16,
>)
    ensures
        r == delete_leave_of(*user, *author),
{
    if user.is_admin() {
        return Ok(true);
    }
    match author {
        AuthorLookup::Author(key) => Ok(str_equal(key.as_str(), user.user_id.as_str())),
        AuthorLookup::Failed(status) => Err(*status),
        AuthorLookup::NotNeeded => Ok(false),
    }
}

/// The answer to a request to take something down: the HTTP status and the
/// text that goes with it. A subject that is neither post nor comment is a
/// bad request; a failed check is answered with its own status; with leave
/// the answer is success, without it the caller is unauthorized.
pub open spec fn delete_answer_of(kind: Option<ContentKind>, leave: Result<bool, u16>) -> (
    u16,
    &'static str,
) {
    match kind {
        None => (400u16, MSG_BAD_TYPE),
        Some(_) => match leave {
            Err(status) => (status, MSG_CHECK_FAILED),
            Ok(true) => (200u16, MSG_DELETED),
            Ok(false) => (401u16, MSG_NOT_ALLOWED),
        },
    }
}

/// The answer to a request to take something down.
pub fn delete_answer(kind: Option<ContentKind>, leave: Result<bool, u16>) -> (answer: (
    u16,
    &'static str,
))
    ensures
        answer == delete_answer_of(kind, leave),
{
    match kind {
        None => (400, MSG_BAD_TYPE),
        Some(_) => match leave {
            Err(status) => (status, MSG_CHECK_FAILED),
            Ok(true) => (200, MSG_DELETED),
            Ok(false) => (401, MSG_NOT_ALLOWED),
        },
    }
}

} // verus!
