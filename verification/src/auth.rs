//! Accounts: roles and their order, sessions, and the decisions taken when a
//! user signs up or logs in.
use crate::text::str_equal;
use core::cmp::Ordering;
use vstd::prelude::*;

verus! {

/// Sent when the wanted user name exists already.
pub const MSG_USERNAME_TAKEN: &'static str = "Username already taken";

/// Sent when a caller asks for a role above their own.
pub const MSG_INSUFFICIENT: &'static str = "Insufficient permissions";

/// Sent when the database fails while a user is created.
pub const MSG_CREATE_FAILED: &'static str = "An error occurred while creating the user";

/// Sent when the database fails while a user logs in.
pub const MSG_LOGIN_FAILED: &'static str = "An error occurred while logging in";

/// Sent when the login query answers without a user.
pub const MSG_LOGIN_NO_USER: &'static str = "An error occured while logging in(1)";

/// Sent when name and password do not match an account.
pub const MSG_WRONG_CREDENTIALS: &'static str = "Wrong username or password";

/// What a new account is asked to be.
#[derive(Clone, Debug, PartialEq, Eq)]
pub struct CreateUser {
    pub username: String,
    pub password: String,
    pub role: Option<UserRole>,
}

/// An account as stored.
#[derive(Clone, Debug, PartialEq, Eq)]
pub struct User {
    pub username: String,
    pub password: String,
    pub created_at: String,
}

/// The role of an account. An administrator ranks above a user.
#[derive(Clone, Copy, Debug, PartialEq, Eq, Structural)]
pub enum UserRole {
    Admin,
    User,
}

impl UserRole {
    /// The rank of a role: the higher, the more it may do.
    pub open spec fn rank_of(self) -> nat {
        match self {
            UserRole::Admin => 1,
            UserRole::User => 0,
        }
    }

    /// How this role stands to another by rank.
    pub open spec fn order_of(self, other: UserRole) -> Ordering {
        if self.rank_of() < other.rank_of() {
            Ordering::Less
        } else if self.rank_of() == other.rank_of() {
            Ordering::Equal
        } else {
            Ordering::Greater
        }
    }

    /// Compares two roles by rank.
    pub fn cmp(&self, other: &UserRole) -> (o: Ordering)
        ensures
            o == self.order_of(*other),
    {
        match (self, other) {
            (UserRole::Admin, UserRole::Admin) => Ordering::Equal,
            (UserRole::Admin, UserRole::User) => Ordering::Greater,
            (UserRole::User, UserRole::Admin) => Ordering::Less,
            (UserRole::User, UserRole::User) => Ordering::Equal,
        }
    }

    /// Whether this role ranks at least as high as `other`.
    pub fn at_least(&self, other: UserRole) -> (r: bool)
        ensures
            r == (self.rank_of() >= other.rank_of()),
    {
        match self.cmp(&other) {
            Ordering::Less => false,
            _ => true,
        }
    }
}

impl PartialOrd for UserRole {
    fn partial_cmp(&self, other: &UserRole) -> (r: Option<Ordering>) {
        Some(self.cmp(other))
    }
}

impl vstd::std_specs::cmp::PartialOrdSpecImpl for UserRole {
    open spec fn obeys_partial_cmp_spec() -> bool {
        true
    }

    open spec fn partial_cmp_spec(&self, other: &UserRole) -> Option<Ordering> {
        Some(self.order_of(*other))
    }
}

/// A live session: who is signed in, under which session, with which role.
#[derive(Clone, Debug, PartialEq, Eq)]
pub struct UserSession {
    pub user_id: String,
    pub session_id: String,
    pub role: UserRole,
}

impl UserSession {
    /// Whether the session belongs to an administrator.
    pub fn is_admin(&self) -> (r: bool)
        ensures
            r == (self.role == UserRole::Admin),
    {
        self.role == UserRole::Admin
    }

    /// Whether the session belongs to a regular user.
    pub fn is_user(&self) -> (r: bool)
        ensures
            r == (self.role == UserRole::User),
    {
        self.role == UserRole::User
    }

    /// Whether the session id is the bare name of the session table. Deleting
    /// under that id would end every session at once, so a logout must not go
    /// on with it.
    pub fn names_whole_table(&self) -> (r: bool)
        ensures
            r == (self.session_id@ == SESSION_TABLE@),
    {
        str_equal(self.session_id.as_str(), SESSION_TABLE)
    }
}

/// The table that holds the sessions.
pub const SESSION_TABLE: &'static str = "Sessions";

/// The record id of the session that a cookie names: the table, then the
/// cookie's value as a quoted unique id.
pub open spec fn session_record_of(cookie: Seq<char>) -> Seq<char> {
    "Sessions:u'"@ + cookie + "'"@
}

/// The record id to look a session cookie up under.
pub fn session_record_id(cookie: &str) -> (id: String)
    ensures
        id@ == session_record_of(cookie@),
{
    let mut id = String::from_str("Sessions:u'");
    id.append(cookie);
    id.append("'");
    id
}

/// What can go wrong for a caller of the account routes.
#[non_exhaustive]
#[derive(Clone, Debug, PartialEq, Eq)]
pub enum AuthError {
    /// The database failed.
    DatabaseError(&'static str),
    /// The wanted user name is taken.
    UsernameTaken(&'static str),
    /// The input is not acceptable.
    InvalidInput(&'static str),
    /// The session could not be registered.
    SessionRegistrationError(String),
    /// The caller may not do this.
    Unauthorized(&'static str),
}

impl AuthError {
    /// The HTTP status that the error is answered with.
    pub open spec fn status_of(self) -> u16 {
        match self {
            AuthError::DatabaseError(_) => 500,
            AuthError::UsernameTaken(_) => 409,
            AuthError::InvalidInput(_) => 400,
            AuthError::SessionRegistrationError(_) => 500,
            AuthError::Unauthorized(_) => 401,
        }
    }

    /// The HTTP status that the error is answered with.
    pub fn status(&self) -> (code: u16)
        ensures
            code == self.status_of(),
    {
        match self {
            AuthError::DatabaseError(_) => 500,
            AuthError::UsernameTaken(_) => 409,
            AuthError::InvalidInput(_) => 400,
            AuthError::SessionRegistrationError(_) => 500,
            AuthError::Unauthorized(_) => 401,
        }
    }
}

/// The error for a session that could not be registered, with the reason.
pub fn session_registration_error(reason: &str) -> (e: AuthError)
    ensures
        e is SessionRegistrationError,
        e->SessionRegistrationError_0@ == "Error registering session "@ + reason@,
{
    let mut message = String::from_str("Error registering session ");
    message.append(reason);
    AuthError::SessionRegistrationError(message)
}

/// The role a new account gets. Only a signed-in caller can ask for a role,
/// and only for one that does not rank above their own; without a session or
/// without a wish the account is a regular user.
pub open spec fn signup_role_of(session_role: Option<UserRole>, requested: Option<UserRole>) -> Option<
    UserRole,
> {
    match (session_role, requested) {
        (Some(own), Some(wanted)) => if own.rank_of() >= wanted.rank_of() {
            Some(wanted)
        } else {
            None
        },
        _ => Some(UserRole::User),
    }
}

/// Decides on a signup once the database has said how many accounts bear the
/// wanted name: `None` if it could not say. A failed query, a taken name and
/// a role above the caller's own are refused, in that order; otherwise the
/// role of the new account is returned.
pub fn signup_role(
    name_matches: Option<usize>,
    session_role: Option<UserRole>,
    requested: Option<UserRole>,
) -> (r: Result<UserRole, AuthError>)
    ensures
        name_matches is None ==> r == Err::<UserRole, AuthError>(
            AuthError::DatabaseError(MSG_CREATE_FAILED),
        ),
        name_matches is Some && name_matches->Some_0 > 0 ==> r == Err::<UserRole, AuthError>(
            AuthError::UsernameTaken(MSG_USERNAME_TAKEN),
        ),
        name_matches == Some(0usize) ==> r == match signup_role_of(session_role, requested) {
            Some(role) => Ok::<UserRole, AuthError>(role),
            None => Err::<UserRole, AuthError>(AuthError::Unauthorized(MSG_INSUFFICIENT)),
        },
{
    match name_matches {
        None => Err(AuthError::DatabaseError(MSG_CREATE_FAILED)),
        Some(n) => {
            if n > 0 {
                return Err(AuthError::UsernameTaken(MSG_USERNAME_TAKEN));
            }
            match (session_role, requested) {
                (Some(own), Some(wanted)) => {
                    if own.at_least(wanted) {
                        Ok(wanted)
                    } else {
                        Err(AuthError::Unauthorized(MSG_INSUFFICIENT))
                    }
                },
                _ => Ok(UserRole::User),
            }
        },
    }
}

/// The answer to a signup once the account was, or was not, written.
pub fn signup_outcome(created: bool) -> (r: Result<(), AuthError>)
    ensures
        created ==> r == Ok::<(), AuthError>(()),
        !created ==> r == Err::<(), AuthError>(AuthError::DatabaseError(MSG_CREATE_FAILED)),
{
    if created {
        Ok(())
    } else {
        Err(AuthError::DatabaseError(MSG_CREATE_FAILED))
    }
}

/// What the database made of a login query.
#[derive(Clone, Debug, PartialEq, Eq)]
pub enum LoginQuery {
    /// The query failed.
    Failed,
    /// The query ran but its answer holds no list of users.
    Unreadable,
    /// The ids of the accounts that name and password match.
    Users(Vec<String>),
}

/// The user who has logged in, once the database has answered the login
/// query: the first account it names. A failed query is a database error, an
/// answer without a list of users means wrong credentials, and an empty list
/// is a database error of its own.
pub fn login_user(query: LoginQuery) -> (r: Result<String, AuthError>)
    ensures
        query is Failed ==> r == Err::<String, AuthError>(
            AuthError::DatabaseError(MSG_LOGIN_FAILED),
        ),
        query is Unreadable ==> r == Err::<String, AuthError>(
            AuthError::InvalidInput(MSG_WRONG_CREDENTIALS),
        ),
        query is Users && query->Users_0@.len() == 0 ==> r == Err::<String, AuthError>(
            AuthError::DatabaseError(MSG_LOGIN_NO_USER),
        ),
        query is Users && query->Users_0@.len() > 0 ==> r is Ok && r->Ok_0@
            == query->Users_0@[0]@,
{
    match query {
        LoginQuery::Failed => Err(AuthError::DatabaseError(MSG_LOGIN_FAILED)),
        LoginQuery::Unreadable => Err(AuthError::InvalidInput(MSG_WRONG_CREDENTIALS)),
        LoginQuery::Users(ids) => {
            if ids.len() == 0 {
                Err(AuthError::DatabaseError(MSG_LOGIN_NO_USER))
            } else {
                Ok(ids[0].clone())
            }
        },
    }
}

/// How far the check of a request's session got.
#[derive(Clone, Copy, Debug, PartialEq, Eq, Structural)]
pub enum SessionCheck {
    /// The request carries no session cookie.
    NoCookie,
    /// The cookie's value makes no record id.
    MalformedId,
    /// There is no database to ask.
    NoDatabase,
    /// The database failed on the query.
    QueryFailed,
    /// The database knows no such session.
    NoSession,
    /// The session is live.
    Valid,
}

impl SessionCheck {
    /// The HTTP status with which a request is passed on when its session
    /// does not check out; none for a live session.
    pub open spec fn forward_status_of(self) -> Option<u16> {
        match self {
            SessionCheck::NoCookie => Some(401u16),
            SessionCheck::MalformedId => Some(400u16),
            SessionCheck::NoDatabase => Some(500u16),
            SessionCheck::QueryFailed => Some(401u16),
            SessionCheck::NoSession => Some(500u16),
            SessionCheck::Valid => None,
        }
    }

    /// The HTTP status with which a request is passed on when its session
    /// does not check out; none for a live session.
    pub fn forward_status(&self) -> (status: Option<u16>)
        ensures
            status == self.forward_status_of(),
    {
        match self {
            SessionCheck::NoCookie => Some(401),
            SessionCheck::MalformedId => Some(400),
            SessionCheck::NoDatabase => Some(500),
            SessionCheck::QueryFailed => Some(401),
            SessionCheck::NoSession => Some(500),
            SessionCheck::Valid => None,
        }
    }
}

} // verus!
