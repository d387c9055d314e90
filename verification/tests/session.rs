use venmo_tui::api::{Api, ApiError, Reply, SessionState};
use venmo_tui::request::{Body, LoginQuery, Method};

const CSRF_PAGE: &str = "<html><script>{\"csrfToken\":\"csrf-1\",\"x\":1}</script></html>";

const LOGIN_BODY: &str = r#"{"displayName": "Ada Lovelace", "id": "1234567890",
    "username": "ada", "firstName": "Ada", "lastName": "Lovelace",
    "profilePictureUrl": "https://pics.example/ada.png", "friendCount": 42,
    "initials": "AL", "friendStatus": null, "isBlocked": false, "isActive": true,
    "identityType": "personal", "email": "ada@example.com", "phone": "15555550100"}"#;

fn reply(final_url: &str, set_cookies: &[&str], body: &str) -> Reply {
    Reply {
        final_url: final_url.to_string(),
        set_cookies: set_cookies.iter().map(|c| c.to_string()).collect(),
        body: body.to_string(),
    }
}

fn cookies(list: &[&str]) -> Vec<String> {
    list.iter().map(|c| c.to_string()).collect()
}

fn pair(name: &str, value: &str) -> (String, String) {
    (name.to_string(), value.to_string())
}

fn ready() -> Api {
    let mut api = Api::new();
    api.load_cookies(&Vec::new());
    api.initialize(Ok(reply("https://venmo.com/account/sign-in", &[], CSRF_PAGE))).unwrap();
    api
}

#[test]
fn a_new_session_knows_nothing() {
    let api = Api::new();
    assert_eq!(api.state(), SessionState::Uninitialized);
    assert_eq!(api.csrf(), "");
    assert_eq!(api.bearer(), "");
    assert!(api.identity().is_none());
    assert_eq!(api.store().len(), 0);
}

#[test]
fn login_response_sets_the_bearer_token() {
    let mut api = Api::new();
    api.set_cookies(&cookies(&["api_access_token=abc123; Path=/"]));
    assert_eq!(api.bearer(), "abc123");
}

#[test]
fn the_last_access_token_cookie_sets_the_bearer_token() {
    let mut api = Api::new();
    api.set_cookies(&cookies(&[
        "api_access_token=first; Path=/",
        "v_id=fp01; Path=/",
        "api_access_token=second; Path=/; HttpOnly",
        "login_email=a%40b.c; Path=/",
    ]));
    assert_eq!(api.bearer(), "second");
    api.set_cookies(&cookies(&["api_access_token=third"]));
    assert_eq!(api.bearer(), "third");
}

#[test]
fn cookies_of_other_names_leave_the_bearer_token_alone() {
    let mut api = Api::new();
    api.set_cookies(&cookies(&["api_access_token=abc123; Path=/"]));
    api.set_cookies(&cookies(&[
        "v_id=fp01; Path=/",
        "x_api_access_token=zzz",
        "tracker=api_access_token=zzz; Path=/",
    ]));
    assert_eq!(api.bearer(), "abc123");
    api.set_cookies(&Vec::new());
    assert_eq!(api.bearer(), "abc123");
}

#[test]
fn absorbing_in_two_calls_is_absorbing_in_one() {
    let first = cookies(&["a=1", "api_access_token=t1; Path=/"]);
    let second = cookies(&["a=2", "b=1"]);
    let mut in_two = Api::new();
    in_two.set_cookies(&first);
    in_two.set_cookies(&second);
    let mut in_one = Api::new();
    let mut all = first.clone();
    all.extend(second.clone());
    in_one.set_cookies(&all);
    assert_eq!(in_two.bearer(), in_one.bearer());
    assert_eq!(
        in_two.store().for_each_persisted_cookie(),
        in_one.store().for_each_persisted_cookie()
    );
}

#[test]
fn every_set_cookie_value_is_persisted_under_its_name() {
    let mut api = Api::new();
    api.set_cookies(&cookies(&[
        "v_id=fp01; Path=/",
        "api_access_token=abc123; Path=/",
        "v_id=fp02; Path=/",
    ]));
    assert_eq!(
        api.store().for_each_persisted_cookie(),
        vec![
            pair("v_id", "v_id=fp02; Path=/"),
            pair("api_access_token", "api_access_token=abc123; Path=/"),
        ]
    );
}

#[test]
fn an_access_token_cookie_without_a_value_empties_the_bearer_token() {
    let mut api = Api::new();
    api.set_cookies(&cookies(&["api_access_token=abc123"]));
    api.set_cookies(&cookies(&["api_access_token"]));
    assert_eq!(api.bearer(), "");
    assert_eq!(api.store().lookup("api_access_token"), Some("api_access_token".to_string()));
}

#[test]
fn loading_persisted_cookies_warms_the_bearer_token() {
    let mut api = Api::new();
    api.load_cookies(&vec![
        pair("v_id", "v_id=fp01; Path=/"),
        pair("api_access_token", "api_access_token=stored; Path=/"),
    ]);
    assert_eq!(api.state(), SessionState::Restoring);
    assert_eq!(api.bearer(), "stored");
    assert_eq!(api.store().len(), 2);
    assert_eq!(api.csrf(), "");
}

#[test]
fn loading_goes_by_the_persisted_name() {
    let mut api = Api::new();
    api.load_cookies(&vec![pair("other", "api_access_token=stored; Path=/")]);
    assert_eq!(api.bearer(), "");
    assert_eq!(api.store().lookup("other"), Some("api_access_token=stored; Path=/".to_string()));
}

#[test]
fn liveness_is_asked_of_the_landing_page() {
    let api = Api::new();
    let request = api.logged_in_request();
    assert_eq!(request.method, Method::Get);
    assert_eq!(request.url, "https://account.venmo.com/");
    assert!(request.headers.is_empty());
    assert_eq!(request.body, Body::Empty);
}

#[test]
fn somebody_is_signed_in_unless_the_exchange_ends_at_the_sign_in_page() {
    let api = Api::new();
    assert!(api.logged_in(&Ok(reply("https://account.venmo.com/", &[], ""))));
    assert!(!api.logged_in(&Ok(reply("https://venmo.com/account/sign-in?next=%2F", &[], ""))));
    assert!(api.logged_in(&Ok(reply("https://venmo.com/account/sign-in", &[], ""))));
    assert!(!api.logged_in(&Err("connection refused".to_string())));
}

#[test]
fn the_csrf_page_depends_on_whether_somebody_is_signed_in() {
    let api = Api::new();
    let signed_in = api.fetch_csrf_request(true);
    assert_eq!(signed_in.url, "https://account.venmo.com/");
    let anonymous = api.fetch_csrf_request(false);
    assert_eq!(anonymous.url, "https://venmo.com/account/sign-in");
    assert_eq!(anonymous.method, Method::Get);
    assert_eq!(
        anonymous.headers,
        vec![pair("accept", "*/*"), pair("accept-language", "en-US,en;q=0.5")]
    );
}

#[test]
fn the_csrf_page_is_chosen_by_the_liveness_check() {
    let api = Api::new();
    let landed = Ok(reply("https://account.venmo.com/", &[], ""));
    assert_eq!(api.refresh_csrf_request(&landed), api.fetch_csrf_request(true));
    let redirected = Ok(reply("https://venmo.com/account/sign-in?next=%2F", &[], ""));
    assert_eq!(api.refresh_csrf_request(&redirected), api.fetch_csrf_request(false));
    let failed = Err("offline".to_string());
    assert_eq!(api.refresh_csrf_request(&failed).url, "https://venmo.com/account/sign-in");
}

#[test]
fn fetching_the_csrf_token_absorbs_the_reply() {
    let mut api = Api::new();
    api.load_cookies(&Vec::new());
    let fetched = api.fetch_csrf(Ok(reply(
        "https://venmo.com/account/sign-in",
        &["v_id=fp01; Path=/"],
        CSRF_PAGE,
    )));
    assert!(fetched.is_ok());
    assert_eq!(api.csrf(), "csrf-1");
    assert_eq!(api.store().lookup("v_id"), Some("v_id=fp01; Path=/".to_string()));
    assert_eq!(api.state(), SessionState::Restoring);
}

#[test]
fn fetching_the_csrf_token_fails_without_the_marker() {
    let mut api = ready();
    let fetched = api.fetch_csrf(Ok(reply("https://account.venmo.com/", &["a=1"], "<html/>")));
    match fetched {
        Err(ApiError::CsrfFetchFailure(detail)) => assert_eq!(detail, "no csrf token in the page"),
        other => panic!("expected CsrfFetchFailure, got {:?}", other),
    }
    assert_eq!(api.csrf(), "csrf-1");
    assert_eq!(api.store().lookup("a"), Some("a=1".to_string()));
}

#[test]
fn fetching_the_csrf_token_fails_with_the_exchange() {
    let mut api = ready();
    match api.fetch_csrf(Err("dns failure".to_string())) {
        Err(ApiError::CsrfFetchFailure(detail)) => assert_eq!(detail, "dns failure"),
        other => panic!("expected CsrfFetchFailure, got {:?}", other),
    }
    assert_eq!(api.csrf(), "csrf-1");
}

#[test]
fn startup_ends_ready_with_the_csrf_token() {
    let mut api = Api::new();
    api.load_cookies(&vec![pair("api_access_token", "api_access_token=stored")]);
    let done = api.initialize(Ok(reply("https://account.venmo.com/", &[], CSRF_PAGE)));
    assert!(done.is_ok());
    assert_eq!(api.state(), SessionState::Ready);
    assert_eq!(api.csrf(), "csrf-1");
    assert_eq!(api.bearer(), "stored");
}

#[test]
fn startup_fails_when_the_csrf_fetch_fails() {
    let mut api = Api::new();
    api.load_cookies(&Vec::new());
    match api.initialize(Err("timed out".to_string())) {
        Err(ApiError::SessionInitFailure(detail)) => assert_eq!(detail, "timed out"),
        other => panic!("expected SessionInitFailure, got {:?}", other),
    }
    assert_eq!(api.state(), SessionState::Restoring);
    match api.initialize(Ok(reply("https://venmo.com/account/sign-in", &[], "no marker"))) {
        Err(ApiError::SessionInitFailure(detail)) => {
            assert_eq!(detail, "no csrf token in the page")
        }
        other => panic!("expected SessionInitFailure, got {:?}", other),
    }
    assert_eq!(api.state(), SessionState::Restoring);
    assert!(api.initialize(Ok(reply("", &[], CSRF_PAGE))).is_ok());
    assert_eq!(api.state(), SessionState::Ready);
}

#[test]
fn login_sends_the_csrf_token_under_two_names() {
    let mut api = ready();
    let request = api.login_request("ada", "analytical");
    assert_eq!(api.state(), SessionState::Authenticating);
    assert_eq!(request.method, Method::Post);
    assert_eq!(request.url, "https://venmo.com/api/login");
    assert_eq!(
        request.headers,
        vec![
            pair("content-type", "application/json"),
            pair("csrf-token", "csrf-1"),
            pair("xsrf-token", "csrf-1"),
        ]
    );
    assert!(request.parameters.is_empty());
    assert_eq!(
        request.body,
        Body::Login(LoginQuery {
            username: "ada".to_string(),
            password: "analytical".to_string(),
            is_group: false,
        })
    );
}

#[test]
fn login_absorbs_the_reply_and_reads_the_answer() {
    let mut api = ready();
    api.login_request("ada", "analytical");
    let answer = api
        .login(Ok(reply(
            "https://venmo.com/api/login",
            &["api_access_token=abc123; Path=/", "v_id=fp01"],
            LOGIN_BODY,
        )))
        .unwrap();
    assert_eq!(answer.username, "ada");
    assert_eq!(answer.friend_count, 42);
    assert_eq!(api.bearer(), "abc123");
    assert_eq!(api.state(), SessionState::Ready);
    assert_eq!(api.store().len(), 2);
}

#[test]
fn login_fails_with_the_exchange() {
    let mut api = ready();
    api.login_request("ada", "analytical");
    match api.login(Err("connection reset".to_string())) {
        Err(ApiError::LoginFailure(detail)) => assert_eq!(detail, "connection reset"),
        other => panic!("expected LoginFailure, got {:?}", other),
    }
    assert_eq!(api.state(), SessionState::Ready);
    assert_eq!(api.bearer(), "");
}

#[test]
fn login_fails_on_an_unreadable_body_and_still_absorbs_the_cookies() {
    let mut api = ready();
    api.login_request("ada", "wrong");
    match api.login(Ok(reply("", &["v_id=fp01"], "{\"error\": \"bad password\"}"))) {
        Err(ApiError::LoginFailure(detail)) => assert_eq!(detail, "the answer could not be read"),
        other => panic!("expected LoginFailure, got {:?}", other),
    }
    assert_eq!(api.state(), SessionState::Ready);
    assert_eq!(api.store().lookup("v_id"), Some("v_id=fp01".to_string()));
    let again = api.login_request("ada", "analytical");
    assert_eq!(again.url, "https://venmo.com/api/login");
}

#[test]
fn logout_clears_the_session_whatever_the_status() {
    let mut api = ready();
    api.set_cookies(&cookies(&["api_access_token=abc123", "v_id=fp01"]));
    let request = api.logout_request();
    assert_eq!(api.state(), SessionState::Authenticating);
    assert_eq!(request.method, Method::Get);
    assert_eq!(request.url, "https://account.venmo.com/account/logout");
    let done = api.logout(&Ok(reply("https://venmo.com/", &[], "Internal Server Error")));
    assert!(done.is_ok());
    assert_eq!(api.state(), SessionState::Uninitialized);
    assert_eq!(api.store().len(), 0);
    assert_eq!(api.bearer(), "");
    assert_eq!(api.csrf(), "");
    assert!(api.identity().is_none());
}

#[test]
fn logout_that_cannot_be_sent_keeps_the_session() {
    let mut api = ready();
    api.set_cookies(&cookies(&["api_access_token=abc123", "v_id=fp01"]));
    api.logout_request();
    match api.logout(&Err("offline".to_string())) {
        Err(ApiError::LogoutFailure(detail)) => {
            assert_eq!(detail, "logout request failed! please try again")
        }
        other => panic!("expected LogoutFailure, got {:?}", other),
    }
    assert_eq!(api.state(), SessionState::Ready);
    assert_eq!(api.store().len(), 2);
    assert_eq!(api.bearer(), "abc123");
    assert_eq!(api.csrf(), "csrf-1");
}
