use venmo_tui::request::{
    csrf_page, eligibility, graphql, liveness, login, logout, payment, stories, Audience, Body,
    Method, PaymentQuery, PaymentType, TargetUserDetails,
};

fn pair(name: &str, value: &str) -> (String, String) {
    (name.to_string(), value.to_string())
}

fn guarded(csrf: &str) -> Vec<(String, String)> {
    vec![
        pair("content-type", "application/json"),
        pair("csrf-token", csrf),
        pair("xsrf-token", csrf),
    ]
}

#[test]
fn requests_without_a_body_are_gets() {
    for request in [liveness(), logout(), csrf_page(true), csrf_page(false), stories("t", "1", "c")]
    {
        assert_eq!(request.method, Method::Get);
        assert_eq!(request.body, Body::Empty);
    }
    assert_eq!(liveness().url, "https://account.venmo.com/");
    assert_eq!(logout().url, "https://account.venmo.com/account/logout");
    assert!(logout().headers.is_empty());
    assert!(logout().parameters.is_empty());
}

#[test]
fn requests_with_a_body_are_posts() {
    let query = PaymentQuery {
        amount_in_cents: 1,
        audience: Audience::Private,
        note: "n".to_string(),
        target_user_details: TargetUserDetails { user_id: "u".to_string() },
        payment_type: PaymentType::Request,
        eligibility_token: None,
        funding_source_id: None,
    };
    for request in [
        login("c", "u", "p"),
        graphql("t", "Identity", None, "q"),
        eligibility("c", 1, "n", "u"),
        payment("c", query.clone()),
    ] {
        assert_eq!(request.method, Method::Post);
        assert_ne!(request.body, Body::Empty);
        assert!(request.parameters.is_empty());
    }
    let submitted = payment("csrf-9", query.clone());
    assert_eq!(submitted.url, "https://account.venmo.com/api/payments");
    assert_eq!(submitted.headers, guarded("csrf-9"));
    assert_eq!(submitted.body, Body::Payment(query));
}

#[test]
fn state_changing_requests_carry_the_csrf_token_twice() {
    assert_eq!(login("csrf-9", "u", "p").headers, guarded("csrf-9"));
    assert_eq!(eligibility("csrf-9", 1, "n", "u").headers, guarded("csrf-9"));
    assert_eq!(login("", "u", "p").headers, guarded(""));
}

#[test]
fn bearer_requests_carry_the_authorization_header() {
    let request = graphql("tok en", "People", Some("ada"), "q");
    assert_eq!(request.headers[3], pair("authorization", "Bearer tok en"));
    assert_eq!(request.headers[0], pair("Host", "api.venmo.com"));
    let feed = stories("", "1", "");
    assert_eq!(feed.headers, vec![pair("accept", "*/*"), pair("authorization", "Bearer ")]);
    assert_eq!(
        feed.parameters,
        vec![pair("feedType", "me"), pair("externalId", "1"), pair("nextId", "")]
    );
}
