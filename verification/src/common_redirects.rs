//! Where the entry routes of the front end send a browser.
use crate::auth::UserSession;
use vstd::prelude::*;

verus! {

/// The landing page.
pub const INDEX_PAGE: &'static str = "/index.html";

/// The login page.
pub const LOGIN_PAGE: &'static str = "/login.html";

/// The signup page.
pub const SIGNUP_PAGE: &'static str = "/signup.html";

/// The root of the site.
pub const SITE_ROOT: &'static str = "/";

/// The target of a request for the root: the landing page.
pub fn route_frontend_index() -> (target: &'static str)
    ensures
        target@ == INDEX_PAGE@,
{
    INDEX_PAGE
}

/// The target of a request for the login route: the root for a caller who
/// is signed in already, the login page for anybody else.
pub fn route_frontend_login(user: Option<UserSession>) -> (target: &'static str)
    ensures
        user is Some ==> target@ == SITE_ROOT@,
        user is None ==> target@ == LOGIN_PAGE@,
{
    if user.is_some() {
        SITE_ROOT
    } else {
        LOGIN_PAGE
    }
}

/// The target of a request for the signup route: the signup page.
pub fn route_frontend_signup() -> (target: &'static str)
    ensures
        target@ == SIGNUP_PAGE@,
{
    SIGNUP_PAGE
}

} // verus!
