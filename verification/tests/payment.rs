use venmo_tui::api::{
    Api, ApiError, Audience, PaymentQuery, PaymentType, Reply, TargetUserDetails,
};
use venmo_tui::payment::{Payment, PaymentPhase, PaymentStep};
use venmo_tui::request::{Body, Method, Request};
use venmo_tui::types::{Eligibility, PayRequestResponse, PayRequestResponseStatus};

fn reply(set_cookies: &[&str], body: &str) -> Reply {
    Reply {
        final_url: String::new(),
        set_cookies: set_cookies.iter().map(|c| c.to_string()).collect(),
        body: body.to_string(),
    }
}

fn pair(name: &str, value: &str) -> (String, String) {
    (name.to_string(), value.to_string())
}

fn ready() -> Api {
    let mut api = Api::new();
    api.load_cookies(&Vec::new());
    api.initialize(Ok(reply(&[], "{\"csrfToken\":\"csrf-1\"}"))).unwrap();
    api
}

/// A server that records what it is asked and answers by the address.
struct Double {
    eligibility: Result<Reply, String>,
    settlement: Result<Reply, String>,
    eligibility_checks: usize,
    submissions: Vec<PaymentQuery>,
}

impl Double {
    fn new(eligibility: Result<Reply, String>, settlement: Result<Reply, String>) -> Double {
        Double { eligibility, settlement, eligibility_checks: 0, submissions: Vec::new() }
    }

    fn answer(&mut self, request: &Request) -> Result<Reply, String> {
        match &request.body {
            Body::Eligibility(_) => {
                assert_eq!(request.url, "https://account.venmo.com/api/eligibility");
                self.eligibility_checks += 1;
                self.eligibility.clone()
            }
            Body::Payment(query) => {
                assert_eq!(request.url, "https://account.venmo.com/api/payments");
                self.submissions.push(query.clone());
                self.settlement.clone()
            }
            other => panic!("unexpected request {:?}", other),
        }
    }
}

fn run(
    api: &mut Api,
    double: &mut Double,
    payment_type: PaymentType,
    funding: Option<&str>,
) -> Result<PayRequestResponse, ApiError> {
    let (mut payment, mut request) = api.submit_payment(1250, "lunch", "42", payment_type, funding);
    loop {
        let outcome = double.answer(&request);
        match api.submit_payment_reply(payment, outcome) {
            PaymentStep::Submit(next, again) => {
                payment = next;
                request = again;
            }
            PaymentStep::Settled(answer) => return Ok(answer),
            PaymentStep::Failed(error) => return Err(error),
        }
    }
}

fn granted() -> Result<Reply, String> {
    Ok(reply(&[], "{\"eligible\": true, \"eligibility_token\": \"grant-1\"}"))
}

fn settled() -> Result<Reply, String> {
    Ok(reply(&[], "{\"balance\": \"$7.50\", \"status\": \"settled\"}"))
}

fn expect_failure(result: Result<PayRequestResponse, ApiError>, expected: &str) {
    match result {
        Err(ApiError::PaymentSendFailure(detail)) => assert_eq!(detail, expected),
        other => panic!("expected PaymentSendFailure, got {:?}", other),
    }
}

#[test]
fn a_payment_begins_with_the_eligibility_check() {
    let api = ready();
    let (payment, request) = api.submit_payment(1250, "lunch", "42", PaymentType::Pay, None);
    assert_eq!(payment.phase(), PaymentPhase::AwaitingEligibility);
    assert_eq!(request.method, Method::Post);
    assert_eq!(request.url, "https://account.venmo.com/api/eligibility");
    assert!(matches!(request.body, Body::Eligibility(_)));
}

#[test]
fn a_granted_payment_is_submitted_with_the_token() {
    let mut api = ready();
    let mut double = Double::new(granted(), settled());
    let answer = run(&mut api, &mut double, PaymentType::Pay, Some("f1")).unwrap();
    assert_eq!(
        answer,
        PayRequestResponse { balance: "$7.50".to_string(), status: PayRequestResponseStatus::Settled }
    );
    assert_eq!(double.eligibility_checks, 1);
    assert_eq!(
        double.submissions,
        vec![PaymentQuery {
            amount_in_cents: 1250,
            audience: Audience::Private,
            note: "lunch".to_string(),
            target_user_details: TargetUserDetails { user_id: "42".to_string() },
            payment_type: PaymentType::Pay,
            eligibility_token: Some("grant-1".to_string()),
            funding_source_id: Some("f1".to_string()),
        }]
    );
}

#[test]
fn the_submission_is_guarded_by_the_csrf_token() {
    let mut api = ready();
    let (payment, _) = api.submit_payment(1250, "lunch", "42", PaymentType::Pay, None);
    match api.submit_payment_reply(payment, granted()) {
        PaymentStep::Submit(payment, request) => {
            assert_eq!(payment.phase(), PaymentPhase::AwaitingSettlement);
            assert_eq!(request.method, Method::Post);
            assert_eq!(request.url, "https://account.venmo.com/api/payments");
            assert_eq!(
                request.headers,
                vec![
                    pair("content-type", "application/json"),
                    pair("csrf-token", "csrf-1"),
                    pair("xsrf-token", "csrf-1"),
                ]
            );
        }
        other => panic!("expected Submit, got {:?}", other),
    }
}

#[test]
fn an_ineligible_payment_never_reaches_the_submission() {
    let mut api = ready();
    let ineligible = Ok(reply(&[], "{\"eligible\": false}"));
    let mut double = Double::new(ineligible, settled());
    expect_failure(run(&mut api, &mut double, PaymentType::Pay, None), "not eligible");
    assert_eq!(double.eligibility_checks, 1);
    assert!(double.submissions.is_empty());
}

#[test]
fn an_ineligible_payment_with_a_token_is_not_submitted_either() {
    let mut api = ready();
    let ineligible = Ok(reply(&[], "{\"eligible\": false, \"eligibility_token\": \"grant-1\"}"));
    let mut double = Double::new(ineligible, settled());
    expect_failure(run(&mut api, &mut double, PaymentType::Pay, None), "not eligible");
    assert!(double.submissions.is_empty());
}

#[test]
fn an_eligible_payment_without_a_token_is_not_submitted() {
    for body in [
        "{\"eligible\": true}",
        "{\"eligible\": true, \"eligibility_token\": null}",
        "{\"eligible\": true, \"eligibility_token\": \"\"}",
    ] {
        let mut api = ready();
        let mut double = Double::new(Ok(reply(&[], body)), settled());
        expect_failure(run(&mut api, &mut double, PaymentType::Pay, None), "not eligible");
        assert!(double.submissions.is_empty());
    }
}

#[test]
fn a_failed_eligibility_check_ends_the_payment() {
    let mut api = ready();
    let mut double = Double::new(Err("offline".to_string()), settled());
    expect_failure(run(&mut api, &mut double, PaymentType::Pay, None), "offline");
    assert!(double.submissions.is_empty());
    let mut double = Double::new(Ok(reply(&[], "<html/>")), settled());
    expect_failure(
        run(&mut api, &mut double, PaymentType::Pay, None),
        "the answer could not be read",
    );
    assert!(double.submissions.is_empty());
}

#[test]
fn a_request_for_money_never_checks_eligibility() {
    let mut api = ready();
    let mut double = Double::new(granted(), Ok(reply(&[], "{\"balance\": \"$7.50\", \"status\": \"pending\"}")));
    let answer = run(&mut api, &mut double, PaymentType::Request, None).unwrap();
    assert_eq!(answer.status, PayRequestResponseStatus::Pending);
    assert_eq!(double.eligibility_checks, 0);
    assert_eq!(
        double.submissions,
        vec![PaymentQuery {
            amount_in_cents: 1250,
            audience: Audience::Private,
            note: "lunch".to_string(),
            target_user_details: TargetUserDetails { user_id: "42".to_string() },
            payment_type: PaymentType::Request,
            eligibility_token: None,
            funding_source_id: None,
        }]
    );
}

#[test]
fn a_request_for_money_begins_with_the_submission() {
    let api = ready();
    let (payment, request) = api.submit_payment(5, "", "42", PaymentType::Request, None);
    assert_eq!(payment.phase(), PaymentPhase::AwaitingSettlement);
    assert_eq!(request.url, "https://account.venmo.com/api/payments");
}

#[test]
fn a_failed_submission_is_not_retried() {
    let mut api = ready();
    let mut double = Double::new(granted(), Err("connection reset".to_string()));
    expect_failure(run(&mut api, &mut double, PaymentType::Pay, None), "connection reset");
    assert_eq!(double.eligibility_checks, 1);
    assert_eq!(double.submissions.len(), 1);
    let mut double = Double::new(granted(), Ok(reply(&[], "Bad Gateway")));
    expect_failure(
        run(&mut api, &mut double, PaymentType::Request, None),
        "the answer could not be read",
    );
    assert_eq!(double.submissions.len(), 1);
}

#[test]
fn each_payment_asks_for_a_grant_of_its_own() {
    let mut api = ready();
    let mut double = Double::new(granted(), settled());
    run(&mut api, &mut double, PaymentType::Pay, None).unwrap();
    run(&mut api, &mut double, PaymentType::Pay, None).unwrap();
    assert_eq!(double.eligibility_checks, 2);
    assert_eq!(double.submissions.len(), 2);
}

#[test]
fn replies_of_the_payment_flow_are_absorbed() {
    let mut api = ready();
    let (payment, _) = api.submit_payment(1250, "lunch", "42", PaymentType::Pay, None);
    let outcome = Ok(reply(
        &["api_access_token=fresh; Path=/"],
        "{\"eligible\": true, \"eligibility_token\": \"grant-1\"}",
    ));
    let payment = match api.submit_payment_reply(payment, outcome) {
        PaymentStep::Submit(payment, _) => payment,
        other => panic!("expected Submit, got {:?}", other),
    };
    assert_eq!(api.bearer(), "fresh");
    let outcome = Ok(reply(&["v_id=fp01"], "{\"balance\": \"$1\", \"status\": \"settled\"}"));
    assert!(matches!(api.submit_payment_reply(payment, outcome), PaymentStep::Settled(_)));
    assert_eq!(api.store().lookup("v_id"), Some("v_id=fp01".to_string()));
}

#[test]
fn the_answer_to_the_eligibility_check_decides_on_the_submission() {
    let answer = |eligible: bool, token: Option<&str>| Eligibility {
        eligible,
        eligibility_token: token.map(|t| t.to_string()),
    };
    let begin = || Payment::begin("csrf-7", 300, "tea", "42", PaymentType::Pay, Some("f1")).0;
    match begin().take_eligibility(answer(true, Some("grant-9")), "csrf-8") {
        PaymentStep::Submit(payment, request) => {
            assert_eq!(payment.phase(), PaymentPhase::AwaitingSettlement);
            assert_eq!(request.headers[1], pair("csrf-token", "csrf-8"));
            match request.body {
                Body::Payment(query) => {
                    assert_eq!(query.eligibility_token, Some("grant-9".to_string()));
                    assert_eq!(query.amount_in_cents, 300);
                    assert_eq!(query.note, "tea");
                    assert_eq!(query.target_user_details.user_id, "42");
                    assert_eq!(query.funding_source_id, Some("f1".to_string()));
                    assert_eq!(query.payment_type, PaymentType::Pay);
                    assert_eq!(query.audience, Audience::Private);
                }
                other => panic!("expected a payment, got {:?}", other),
            }
        }
        other => panic!("expected Submit, got {:?}", other),
    }
    for refused in [
        answer(false, Some("grant-9")),
        answer(false, None),
        answer(true, None),
        answer(true, Some("")),
    ] {
        match begin().take_eligibility(refused, "csrf-8") {
            PaymentStep::Failed(ApiError::PaymentSendFailure(detail)) => {
                assert_eq!(detail, "not eligible")
            }
            other => panic!("expected PaymentSendFailure, got {:?}", other),
        }
    }
}
