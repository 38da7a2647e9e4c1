use admission::auth::{UserRole, UserSession};
use admission::common_redirects::{
    route_frontend_index, route_frontend_login, route_frontend_signup,
};
use admission::fingerprinting::{Fingerprinter, NnSearchResult};
use admission::text::{chars_of, has_prefix, push_decimal, same_chars, str_equal, str_starts_with};

#[test]
fn entry_routes_lead_to_their_pages() {
    assert_eq!(route_frontend_index(), "/index.html");
    assert_eq!(route_frontend_signup(), "/signup.html");
    assert_eq!(route_frontend_login(None), "/login.html");
    let user = UserSession {
        user_id: "ann".to_string(),
        session_id: "s".to_string(),
        role: UserRole::User,
    };
    assert_eq!(route_frontend_login(Some(user)), "/");
}

#[test]
fn fingerprint_document_names_its_parts() {
    let text = Fingerprinter::document(
        Some("Mozilla/5.0".to_string()),
        Some("107.2.95.249".to_string()),
        Some("4d593b5c-646e-484d-b434-d38f7b853987".to_string()),
    );
    assert_eq!(
        text,
        "user_agent: Mozilla/5.0, source_ip: 107.2.95.249, session_id: 4d593b5c-646e-484d-b434-d38f7b853987"
    );
    assert_eq!(
        Fingerprinter::document(None, None, None),
        "user_agent: No User-Agent, source_ip: No Source IP, session_id: No Cookie"
    );
}

#[test]
fn only_the_tracking_path_is_fingerprinted() {
    assert!(Fingerprinter::tracks("/trackme"));
    assert!(Fingerprinter::tracks("/trackme/now"));
    assert!(!Fingerprinter::tracks("/track"));
    assert!(!Fingerprinter::tracks("/api/trackme"));
}

#[test]
fn search_result_picks_its_page() {
    let id = "Fingerprints:1".to_string();
    assert_eq!(NnSearchResult::Known(id.clone()).page(), ("trackme-known", &id));
    assert_eq!(NnSearchResult::Created(id.clone()).page(), ("trackme-unknown", &id));
}

#[test]
fn text_helpers_work_on_characters() {
    assert_eq!(chars_of("héllo"), vec!['h', 'é', 'l', 'l', 'o']);
    assert_eq!(chars_of(""), Vec::<char>::new());
    assert!(str_equal("abc", "abc"));
    assert!(!str_equal("abc", "abd"));
    assert!(!str_equal("abc", "ab"));
    assert!(str_starts_with("abc", ""));
    assert!(str_starts_with("abc", "ab"));
    assert!(!str_starts_with("ab", "abc"));
    assert!(!str_starts_with("abc", "b"));
    assert!(has_prefix(&vec!['a', 'b'], &vec!['a']));
    assert!(same_chars(&vec![], &vec![]));
    let mut text = "n=".to_string();
    push_decimal(&mut text, 0);
    push_decimal(&mut text, 9);
    push_decimal(&mut text, 10);
    push_decimal(&mut text, 1234567890);
    assert_eq!(text, "n=09101234567890");
}
