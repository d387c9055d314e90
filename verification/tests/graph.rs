use venmo_tui::answers::{read_identity, read_instruments, read_user_id};
use venmo_tui::api::{
    Api, ApiError, GqlQuery, Reply, SessionState, UserVariablesName, Variables,
};
use venmo_tui::request::{Body, EligibilityQuery, Method};
use venmo_tui::types::FundingInstrument;

const CSRF_PAGE: &str = "{\"csrfToken\":\"csrf-1\"}";

const IDENTITY: &str = r#"{"isDenylisted": false, "isSuspended": false, "type": "personal",
    "avatar": {"url": "https://pics.example/ada.png"}, "displayName": "Ada Lovelace",
    "handle": "ada", "id": "1234567890", "balance": {"userBalance": {"value": 12.5}}}"#;

fn reply(set_cookies: &[&str], body: &str) -> Reply {
    Reply {
        final_url: "https://api.venmo.com/graphql".to_string(),
        set_cookies: set_cookies.iter().map(|c| c.to_string()).collect(),
        body: body.to_string(),
    }
}

fn pair(name: &str, value: &str) -> (String, String) {
    (name.to_string(), value.to_string())
}

fn ready() -> Api {
    let mut api = Api::new();
    api.load_cookies(&vec![pair("api_access_token", "api_access_token=tok; Path=/")]);
    api.initialize(Ok(reply(&[], CSRF_PAGE))).unwrap();
    api
}

fn profile_body() -> String {
    format!("{{\"data\": {{\"profile\": {{\"availableIdentities\": [{}]}}}}}}", IDENTITY)
}

fn people_body(edges: &str) -> String {
    format!("{{\"data\": {{\"search\": {{\"people\": {{\"edges\": {}}}}}}}}}", edges)
}

fn wallet_body(wallet: &str) -> String {
    format!("{{\"data\": {{\"profile\": {{\"wallet\": {}}}}}}}", wallet)
}

fn bank() -> FundingInstrument {
    FundingInstrument {
        id: "f1".to_string(),
        name: "Big Bank".to_string(),
        instrument_type: "bank".to_string(),
    }
}

const BANK: &str = r#"{"id": "f1", "name": "Big Bank", "instrumentType": "bank",
    "metadata": {"bankName": "Big Bank", "lastFourDigits": "1234"}}"#;

#[test]
fn graphql_requests_carry_the_bearer_token() {
    let api = ready();
    let request = api.get_profile_request("query Identity { profile }");
    assert_eq!(request.method, Method::Post);
    assert_eq!(request.url, "https://api.venmo.com/graphql");
    assert_eq!(
        request.headers,
        vec![
            pair("Host", "api.venmo.com"),
            pair("accept", "*/*"),
            pair("content-type", "application/json"),
            pair("authorization", "Bearer tok"),
        ]
    );
    assert_eq!(
        request.body,
        Body::Graphql(GqlQuery {
            operation_name: "Identity".to_string(),
            variables: None,
            query: "query Identity { profile }".to_string(),
        })
    );
}

#[test]
fn the_profile_is_kept_in_the_session() {
    let mut api = ready();
    assert!(api.identity().is_none());
    let identity = api.get_profile(Ok(reply(&["v_id=fp01"], &profile_body()))).unwrap();
    assert_eq!(identity.handle, "ada");
    assert_eq!(identity.balance.user_balance.value, "12.5");
    assert_eq!(api.identity(), Some(&identity));
    assert_eq!(api.store().lookup("v_id"), Some("v_id=fp01".to_string()));
}

#[test]
fn a_profile_answer_without_an_identity_is_unauthorized() {
    let mut api = ready();
    let answers = [
        "{\"errors\": [{\"message\": \"Unauthenticated\"}], \"data\": null}",
        "{\"data\": {\"profile\": {\"availableIdentities\": []}}}",
        "not json",
    ];
    for body in answers {
        match api.get_profile(Ok(reply(&[], body))) {
            Err(ApiError::Unauthorized(detail)) => assert_eq!(detail, "Identity not found."),
            other => panic!("expected Unauthorized, got {:?}", other),
        }
        assert!(api.identity().is_none());
    }
}

#[test]
fn a_failed_profile_exchange_is_a_login_failure() {
    let mut api = ready();
    match api.get_profile(Err("reset".to_string())) {
        Err(ApiError::LoginFailure(detail)) => assert_eq!(detail, "reset"),
        other => panic!("expected LoginFailure, got {:?}", other),
    }
}

#[test]
fn the_first_identity_is_the_one_read() {
    let second = IDENTITY.replace("\"ada\"", "\"ada-business\"");
    let body = format!(
        "{{\"data\": {{\"profile\": {{\"availableIdentities\": [{}, {}]}}}}}}",
        IDENTITY, second
    );
    assert_eq!(read_identity(&body).unwrap().handle, "ada");
}

#[test]
fn a_search_names_the_user_in_its_variables() {
    let api = ready();
    let request = api.fetch_user_id_request("charles", "query People { search }");
    assert_eq!(
        request.body,
        Body::Graphql(GqlQuery {
            operation_name: "People".to_string(),
            variables: Some(Variables {
                input: UserVariablesName { name: "charles".to_string() },
            }),
            query: "query People { search }".to_string(),
        })
    );
    assert_eq!(request.headers[3], pair("authorization", "Bearer tok"));
}

#[test]
fn a_search_gives_the_id_of_the_first_person() {
    let mut api = ready();
    let body = people_body(
        "[{\"node\": {\"id\": \"42\", \"handle\": \"charles\"}}, {\"node\": {\"id\": \"43\"}}]",
    );
    assert_eq!(api.fetch_user_id(Ok(reply(&[], &body))).unwrap(), "42");
}

#[test]
fn search_user_with_zero_edges_is_no_match() {
    let mut api = ready();
    match api.fetch_user_id(Ok(reply(&["v_id=fp01"], &people_body("[]")))) {
        Err(ApiError::UserNotFound(detail)) => assert_eq!(detail, "the search matched nobody"),
        other => panic!("expected UserNotFound, got {:?}", other),
    }
    assert_eq!(api.store().lookup("v_id"), Some("v_id=fp01".to_string()));
    assert_eq!(api.state(), SessionState::Ready);
}

#[test]
fn a_search_answer_that_cannot_be_read_is_a_query_failure() {
    let bodies = [
        "not json".to_string(),
        "{\"data\": null}".to_string(),
        people_body("{}"),
        people_body("[{\"node\": {\"id\": 42}}]"),
        people_body("[{\"node\": {}}]"),
    ];
    for body in bodies {
        match read_user_id(&body) {
            Err(ApiError::UserQueryFailure(detail)) => {
                assert_eq!(detail, "the answer could not be read")
            }
            other => panic!("expected UserQueryFailure for {}, got {:?}", body, other),
        }
    }
}

#[test]
fn a_failed_search_exchange_is_a_query_failure() {
    let mut api = ready();
    match api.fetch_user_id(Err("timed out".to_string())) {
        Err(ApiError::UserQueryFailure(detail)) => assert_eq!(detail, "timed out"),
        other => panic!("expected UserQueryFailure, got {:?}", other),
    }
}

#[test]
fn the_wallet_query_names_its_operation() {
    let api = ready();
    let request = api.get_funding_instruments_request("query getUserFundingInstruments { x }");
    assert_eq!(
        request.body,
        Body::Graphql(GqlQuery {
            operation_name: "getUserFundingInstruments".to_string(),
            variables: None,
            query: "query getUserFundingInstruments { x }".to_string(),
        })
    );
}

#[test]
fn funding_instruments_drop_the_entry_of_an_unrecognized_subtype() {
    let mut api = ready();
    let unrecognized = "{\"id\": \"f2\", \"name\": \"Mystery\", \"instrumentType\": {\"kind\": 9}}";
    let body = wallet_body(&format!("[{}, {}]", BANK, unrecognized));
    let instruments = api.get_funding_instruments(Ok(reply(&[], &body))).unwrap();
    assert_eq!(instruments, vec![bank()]);
}

#[test]
fn funding_instruments_keep_their_order() {
    let card = "{\"id\": \"f3\", \"name\": \"Card\", \"instrumentType\": \"card\"}";
    let balance = "{\"id\": \"f0\", \"name\": \"Venmo balance\", \"instrumentType\": \"balance\"}";
    let body = wallet_body(&format!("[{}, null, {}, {{}}, {}]", balance, BANK, card));
    let ids: Vec<String> =
        read_instruments(&body).unwrap().into_iter().map(|i| i.id).collect();
    assert_eq!(ids, vec!["f0", "f1", "f3"]);
}

#[test]
fn an_empty_wallet_is_an_empty_list() {
    assert_eq!(read_instruments(&wallet_body("[]")), Some(Vec::new()));
    assert_eq!(read_instruments(&wallet_body("[1, 2]")), Some(Vec::new()));
}

#[test]
fn an_answer_without_a_wallet_is_a_query_failure() {
    let mut api = ready();
    for body in ["not json".to_string(), "{\"data\": null}".to_string(), wallet_body("{}")] {
        match api.get_funding_instruments(Ok(reply(&[], &body))) {
            Err(ApiError::UserQueryFailure(detail)) => {
                assert_eq!(detail, "the answer could not be read")
            }
            other => panic!("expected UserQueryFailure, got {:?}", other),
        }
    }
    match api.get_funding_instruments(Err("offline".to_string())) {
        Err(ApiError::UserQueryFailure(detail)) => assert_eq!(detail, "offline"),
        other => panic!("expected UserQueryFailure, got {:?}", other),
    }
}

#[test]
fn the_eligibility_check_is_guarded_by_the_csrf_token() {
    let api = ready();
    let request = api.fetch_eligibility_request(1250, "lunch", "42");
    assert_eq!(request.method, Method::Post);
    assert_eq!(request.url, "https://account.venmo.com/api/eligibility");
    assert_eq!(
        request.headers,
        vec![
            pair("content-type", "application/json"),
            pair("csrf-token", "csrf-1"),
            pair("xsrf-token", "csrf-1"),
        ]
    );
    assert_eq!(
        request.body,
        Body::Eligibility(EligibilityQuery {
            action: "pay".to_string(),
            amount_in_cents: 1250,
            note: "lunch".to_string(),
            target_id: "42".to_string(),
            target_type: "user_id".to_string(),
        })
    );
}

#[test]
fn the_eligibility_answer_is_read_and_the_reply_absorbed() {
    let mut api = ready();
    let answer = api
        .fetch_eligibility(Ok(reply(
            &["api_access_token=fresh"],
            "{\"eligible\": true, \"eligibility_token\": \"grant-1\"}",
        )))
        .unwrap();
    assert!(answer.eligible);
    assert_eq!(answer.eligibility_token, Some("grant-1".to_string()));
    assert_eq!(api.bearer(), "fresh");
}

#[test]
fn an_eligibility_check_that_fails_is_a_payment_failure() {
    let mut api = ready();
    match api.fetch_eligibility(Err("offline".to_string())) {
        Err(ApiError::PaymentSendFailure(detail)) => assert_eq!(detail, "offline"),
        other => panic!("expected PaymentSendFailure, got {:?}", other),
    }
    match api.fetch_eligibility(Ok(reply(&[], "<html/>"))) {
        Err(ApiError::PaymentSendFailure(detail)) => {
            assert_eq!(detail, "the answer could not be read")
        }
        other => panic!("expected PaymentSendFailure, got {:?}", other),
    }
}
