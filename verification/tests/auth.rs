use admission::auth::{
    login_user, session_record_id, session_registration_error, signup_outcome, signup_role,
    AuthError, LoginQuery, SessionCheck, UserRole, UserSession, MSG_CREATE_FAILED,
    MSG_INSUFFICIENT, MSG_LOGIN_FAILED, MSG_LOGIN_NO_USER, MSG_USERNAME_TAKEN,
    MSG_WRONG_CREDENTIALS,
};
use std::cmp::Ordering;

#[derive(Debug)]
struct RoleTestCase((UserRole, &'static str, UserRole), bool);

#[test]
fn test_role_hierarchy() {
    let test_interpreter = |test: RoleTestCase| {
        println!("Running test case {:?}", &test);
        match test.0 .1 {
            "<" => assert_eq!(test.0 .0 < test.0 .2, test.1),
            "=" => assert_eq!(test.0 .0 == test.0 .2, test.1),
            ">" => assert_eq!(test.0 .0 > test.0 .2, test.1),
            "<=" => assert_eq!(test.0 .0 <= test.0 .2, test.1),
            ">=" => assert_eq!(test.0 .0 >= test.0 .2, test.1),
            _ => panic!("Invalid operator"),
        }
    };
    let tests = [
        RoleTestCase((UserRole::Admin, "<", UserRole::Admin), false),
        RoleTestCase((UserRole::Admin, "<", UserRole::User), false),
        RoleTestCase((UserRole::User, "<", UserRole::Admin), true),
        RoleTestCase((UserRole::User, "<", UserRole::User), false),
        RoleTestCase((UserRole::Admin, ">", UserRole::User), true),
        RoleTestCase((UserRole::Admin, ">", UserRole::Admin), false),
        RoleTestCase((UserRole::User, ">", UserRole::Admin), false),
        RoleTestCase((UserRole::User, ">", UserRole::User), false),
        RoleTestCase((UserRole::Admin, "=", UserRole::Admin), true),
        RoleTestCase((UserRole::Admin, "=", UserRole::User), false),
        RoleTestCase((UserRole::User, "=", UserRole::Admin), false),
        RoleTestCase((UserRole::User, "=", UserRole::User), true),
        RoleTestCase((UserRole::Admin, ">=", UserRole::Admin), true),
        RoleTestCase((UserRole::Admin, ">=", UserRole::User), true),
        RoleTestCase((UserRole::User, ">=", UserRole::Admin), false),
        RoleTestCase((UserRole::User, ">=", UserRole::User), true),
        RoleTestCase((UserRole::Admin, "<=", UserRole::Admin), true),
        RoleTestCase((UserRole::Admin, "<=", UserRole::User), false),
        RoleTestCase((UserRole::User, "<=", UserRole::Admin), true),
        RoleTestCase((UserRole::User, "<=", UserRole::User), true),
    ];
    for test in tests {
        test_interpreter(test);
    }
}

#[test]
fn roles_compare_by_rank() {
    assert_eq!(UserRole::Admin.cmp(&UserRole::User), Ordering::Greater);
    assert_eq!(UserRole::User.cmp(&UserRole::Admin), Ordering::Less);
    assert_eq!(UserRole::User.cmp(&UserRole::User), Ordering::Equal);
    assert_eq!(UserRole::Admin.cmp(&UserRole::Admin), Ordering::Equal);
    assert!(UserRole::Admin.at_least(UserRole::User));
    assert!(UserRole::User.at_least(UserRole::User));
    assert!(!UserRole::User.at_least(UserRole::Admin));
}

fn session(role: UserRole, session_id: &str) -> UserSession {
    UserSession { user_id: "Users:ann".to_string(), session_id: session_id.to_string(), role }
}

#[test]
fn session_knows_its_role() {
    assert!(session(UserRole::Admin, "Sessions:1").is_admin());
    assert!(!session(UserRole::Admin, "Sessions:1").is_user());
    assert!(session(UserRole::User, "Sessions:1").is_user());
    assert!(!session(UserRole::User, "Sessions:1").is_admin());
}

#[test]
fn bare_table_name_is_no_session_to_delete() {
    assert!(session(UserRole::User, "Sessions").names_whole_table());
    assert!(!session(UserRole::User, "Sessions:u'4d59'").names_whole_table());
    assert!(!session(UserRole::User, "").names_whole_table());
}

#[test]
fn session_cookie_becomes_record_id() {
    assert_eq!(
        session_record_id("4d593b5c-646e-484d-b434-d38f7b853987"),
        "Sessions:u'4d593b5c-646e-484d-b434-d38f7b853987'"
    );
    assert_eq!(session_record_id(""), "Sessions:u''");
}

#[test]
fn signup_refuses_failed_query_then_taken_name_then_role() {
    assert_eq!(
        signup_role(None, Some(UserRole::Admin), Some(UserRole::Admin)),
        Err(AuthError::DatabaseError(MSG_CREATE_FAILED))
    );
    assert_eq!(
        signup_role(Some(1), Some(UserRole::Admin), Some(UserRole::User)),
        Err(AuthError::UsernameTaken(MSG_USERNAME_TAKEN))
    );
    assert_eq!(
        signup_role(Some(0), Some(UserRole::User), Some(UserRole::Admin)),
        Err(AuthError::Unauthorized(MSG_INSUFFICIENT))
    );
}

#[test]
fn signup_grants_roles_up_to_the_callers_own() {
    assert_eq!(signup_role(Some(0), Some(UserRole::Admin), Some(UserRole::Admin)), Ok(UserRole::Admin));
    assert_eq!(signup_role(Some(0), Some(UserRole::Admin), Some(UserRole::User)), Ok(UserRole::User));
    assert_eq!(signup_role(Some(0), Some(UserRole::User), Some(UserRole::User)), Ok(UserRole::User));
    assert_eq!(signup_role(Some(0), None, Some(UserRole::Admin)), Ok(UserRole::User));
    assert_eq!(signup_role(Some(0), Some(UserRole::Admin), None), Ok(UserRole::User));
    assert_eq!(signup_role(Some(0), None, None), Ok(UserRole::User));
}

#[test]
fn signup_outcome_follows_the_write() {
    assert_eq!(signup_outcome(true), Ok(()));
    assert_eq!(signup_outcome(false), Err(AuthError::DatabaseError(MSG_CREATE_FAILED)));
}

#[test]
fn login_takes_the_first_user() {
    assert_eq!(
        login_user(LoginQuery::Users(vec!["Users:ann".to_string(), "Users:bob".to_string()])),
        Ok("Users:ann".to_string())
    );
    assert_eq!(
        login_user(LoginQuery::Users(vec![])),
        Err(AuthError::DatabaseError(MSG_LOGIN_NO_USER))
    );
    assert_eq!(login_user(LoginQuery::Failed), Err(AuthError::DatabaseError(MSG_LOGIN_FAILED)));
    assert_eq!(
        login_user(LoginQuery::Unreadable),
        Err(AuthError::InvalidInput(MSG_WRONG_CREDENTIALS))
    );
}

#[test]
fn auth_errors_have_their_status() {
    assert_eq!(AuthError::DatabaseError("x").status(), 500);
    assert_eq!(AuthError::UsernameTaken("x").status(), 409);
    assert_eq!(AuthError::InvalidInput("x").status(), 400);
    assert_eq!(AuthError::SessionRegistrationError("x".to_string()).status(), 500);
    assert_eq!(AuthError::Unauthorized("x").status(), 401);
    assert_eq!(
        session_registration_error("timeout"),
        AuthError::SessionRegistrationError("Error registering session timeout".to_string())
    );
}

#[test]
fn session_check_forwards_with_its_status() {
    assert_eq!(SessionCheck::NoCookie.forward_status(), Some(401));
    assert_eq!(SessionCheck::MalformedId.forward_status(), Some(400));
    assert_eq!(SessionCheck::NoDatabase.forward_status(), Some(500));
    assert_eq!(SessionCheck::QueryFailed.forward_status(), Some(401));
    assert_eq!(SessionCheck::NoSession.forward_status(), Some(500));
    assert_eq!(SessionCheck::Valid.forward_status(), None);
}
