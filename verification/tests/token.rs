use venmo_tui::error::ApiError;
use venmo_tui::token::{
    access_token_of_match, cookie_name, csrf_token_of_match, extract_access_token,
    extract_csrf_token, names_access_token,
};

#[test]
fn cookie_name_is_what_precedes_the_first_equals_sign() {
    assert_eq!(cookie_name("v_id=fp01-abc; Path=/; HttpOnly"), "v_id");
    assert_eq!(cookie_name("a=b=c"), "a");
    assert_eq!(cookie_name("no-equals-sign"), "no-equals-sign");
    assert_eq!(cookie_name(""), "");
    assert_eq!(cookie_name("=value"), "");
}

#[test]
fn access_token_cookie_is_recognised_by_its_exact_name() {
    assert!(names_access_token("api_access_token=abc123; Path=/"));
    assert!(names_access_token("api_access_token"));
    assert!(!names_access_token("api_access_token2=abc123"));
    assert!(!names_access_token("x_api_access_token=abc123"));
    assert!(!names_access_token("login_email=a%40b.c"));
}

#[test]
fn access_token_runs_up_to_the_next_semicolon() {
    assert_eq!(
        extract_access_token("api_access_token=abc123; Path=/"),
        Some("abc123".to_string())
    );
    assert_eq!(extract_access_token("api_access_token=abc123"), Some("abc123".to_string()));
    assert_eq!(extract_access_token("api_access_token=; Path=/"), Some(String::new()));
    assert_eq!(
        extract_access_token("api_access_token=a=b==; Secure"),
        Some("a=b==".to_string())
    );
}

#[test]
fn access_token_is_absent_without_the_cookie() {
    assert_eq!(extract_access_token("csrftoken2=xyz; Path=/"), None);
    assert_eq!(extract_access_token("api_access_token"), None);
    assert_eq!(extract_access_token(""), None);
}

#[test]
fn access_token_of_match_drops_the_name() {
    assert_eq!(access_token_of_match("api_access_token=tok"), Some("tok".to_string()));
    assert_eq!(access_token_of_match("api_access_token="), Some(String::new()));
    assert_eq!(access_token_of_match("short"), None);
}

#[test]
fn csrf_token_is_read_from_the_marker() {
    let page = "<script>window.__DATA__={\"csrfToken\":\"tok-42:x\",\"locale\":\"en\"}</script>";
    assert_eq!(extract_csrf_token(page).unwrap(), "tok-42:x");
    assert_eq!(extract_csrf_token("{\"csrfToken\":\"\"}").unwrap(), "");
}

#[test]
fn csrf_token_of_the_first_marker_wins() {
    let page = "\"csrfToken\":\"first\" \"csrfToken\":\"second\"";
    assert_eq!(extract_csrf_token(page).unwrap(), "first");
}

#[test]
fn csrf_extraction_fails_hard_without_the_marker() {
    match extract_csrf_token("<html><body>Sign in</body></html>") {
        Err(ApiError::CsrfFetchFailure(detail)) => assert_eq!(detail, "no csrf token in the page"),
        other => panic!("expected CsrfFetchFailure, got {:?}", other),
    }
    assert!(extract_csrf_token("\"csrfToken\":\"unterminated").is_err());
}

#[test]
fn csrf_token_of_match_drops_marker_and_closing_quote() {
    assert_eq!(csrf_token_of_match("\"csrfToken\":\"abc\""), Some("abc".to_string()));
    assert_eq!(csrf_token_of_match("\"csrfToken\":\"\""), Some(String::new()));
    assert_eq!(csrf_token_of_match("\"csrfToken\":"), None);
}

#[test]
fn error_messages_start_with_their_headline() {
    assert_eq!(
        ApiError::LoginFailure("timeout".to_string()).to_string(),
        "login failed! please retry... timeout"
    );
    assert_eq!(ApiError::Unauthorized("x".to_string()).to_string(), "unauthorized! x");
    assert_eq!(
        ApiError::LogoutFailure("x".to_string()).to_string(),
        "logout failed! please retry... x"
    );
    assert_eq!(
        ApiError::PaymentSendFailure("x".to_string()).to_string(),
        "payment request failed! please retry... x"
    );
    assert_eq!(
        ApiError::UserQueryFailure("x".to_string()).to_string(),
        "failed to query user! please retry... x"
    );
    assert_eq!(
        ApiError::SessionInitFailure("x".to_string()).to_string(),
        "session setup failed! x"
    );
    assert_eq!(
        ApiError::CsrfFetchFailure("x".to_string()).to_string(),
        "failed to fetch csrf token! x"
    );
    assert_eq!(ApiError::UserNotFound("".to_string()).to_string(), "no such user! ");
}
