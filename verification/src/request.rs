//! The requests that the client sends, as values.
//!
//! A `Request` says everything about an exchange but how it is carried out:
//! the caller turns the body into JSON, sends the request with its cookies,
//! and hands back what came. For each remote operation a spec function says
//! what its request is, and a function of the same name builds it.

use crate::text::Pairs;
use vstd::prelude::*;
use vstd::string::StringExecFns;

verus! {

/// Who may see a payment.
#[derive(Debug, Clone, Copy, PartialEq, Eq, Structural)]
pub enum Audience {
    Private,
}

/// Whether money is sent or asked for.
#[derive(Debug, Clone, Copy, PartialEq, Eq, Structural)]
pub enum PaymentType {
    Pay,
    Request,
}

/// The other side of a payment.
#[derive(Debug, Clone, PartialEq, Eq)]
pub struct TargetUserDetails {
    pub user_id: String,
}

/// The body of a payment submission.
#[derive(Debug, Clone, PartialEq, Eq)]
pub struct PaymentQuery {
    pub amount_in_cents: u32,
    pub audience: Audience,
    pub note: String,
    pub target_user_details: TargetUserDetails,
    pub payment_type: PaymentType,
    pub eligibility_token: Option<String>,
    pub funding_source_id: Option<String>,
}

/// The mathematical value of a `PaymentQuery`.
pub struct PaymentQueryView {
    pub amount_in_cents: u32,
    pub audience: Audience,
    pub note: Seq<char>,
    pub user_id: Seq<char>,
    pub payment_type: PaymentType,
    pub eligibility_token: Option<Seq<char>>,
    pub funding_source_id: Option<Seq<char>>,
}

impl PaymentQueryView {
    /// The rule on eligibility tokens: a payment carries one, which is not
    /// empty, and a request for money carries none.
    pub open spec fn well_formed(self) -> bool {
        match self.payment_type {
            PaymentType::Pay => self.eligibility_token is Some && self.eligibility_token->0.len()
                > 0,
            PaymentType::Request => self.eligibility_token is None,
        }
    }
}

impl View for PaymentQuery {
    type V = PaymentQueryView;

    open spec fn view(&self) -> PaymentQueryView {
        PaymentQueryView {
            amount_in_cents: self.amount_in_cents,
            audience: self.audience,
            note: self.note@,
            user_id: self.target_user_details.user_id@,
            payment_type: self.payment_type,
            eligibility_token: self.eligibility_token.deep_view(),
            funding_source_id: self.funding_source_id.deep_view(),
        }
    }
}

/// The name that a search looks for.
#[derive(Debug, Clone, PartialEq, Eq)]
pub struct UserVariablesName {
    pub name: String,
}

/// The variables of a GraphQL search.
#[derive(Debug, Clone, PartialEq, Eq)]
pub struct Variables {
    pub input: UserVariablesName,
}

/// The body of a GraphQL request: the name of the operation, its variables
/// and the document.
#[derive(Debug, Clone, PartialEq, Eq)]
pub struct GqlQuery {
    pub operation_name: String,
    pub variables: Option<Variables>,
    pub query: String,
}

/// The mathematical value of a `GqlQuery`. The variables hold one thing, the
/// name searched for.
pub struct GqlQueryView {
    pub operation_name: Seq<char>,
    pub searched_name: Option<Seq<char>>,
    pub query: Seq<char>,
}

impl View for GqlQuery {
    type V = GqlQueryView;

    open spec fn view(&self) -> GqlQueryView {
        GqlQueryView {
            operation_name: self.operation_name@,
            searched_name: match self.variables {
                Some(variables) => Some(variables.input.name@),
                None => None,
            },
            query: self.query@,
        }
    }
}

/// The body of an eligibility check.
#[derive(Debug, Clone, PartialEq, Eq)]
pub struct EligibilityQuery {
    pub action: String,
    pub amount_in_cents: u32,
    pub note: String,
    pub target_id: String,
    pub target_type: String,
}

/// The mathematical value of an `EligibilityQuery`.
pub struct EligibilityQueryView {
    pub action: Seq<char>,
    pub amount_in_cents: u32,
    pub note: Seq<char>,
    pub target_id: Seq<char>,
    pub target_type: Seq<char>,
}

impl View for EligibilityQuery {
    type V = EligibilityQueryView;

    open spec fn view(&self) -> EligibilityQueryView {
        EligibilityQueryView {
            action: self.action@,
            amount_in_cents: self.amount_in_cents,
            note: self.note@,
            target_id: self.target_id@,
            target_type: self.target_type@,
        }
    }
}

/// The body of a login.
#[derive(Debug, Clone, PartialEq, Eq)]
pub struct LoginQuery {
    pub username: String,
    pub password: String,
    pub is_group: bool,
}

/// The mathematical value of a `LoginQuery`.
pub struct LoginQueryView {
    pub username: Seq<char>,
    pub password: Seq<char>,
    pub is_group: bool,
}

impl View for LoginQuery {
    type V = LoginQueryView;

    open spec fn view(&self) -> LoginQueryView {
        LoginQueryView {
            username: self.username@,
            password: self.password@,
            is_group: self.is_group,
        }
    }
}

/// The method of a request.
#[derive(Debug, Clone, Copy, PartialEq, Eq, Structural)]
pub enum Method {
    Get,
    Post,
}

/// What a request carries, to be sent as JSON.
#[derive(Debug, Clone, PartialEq, Eq)]
pub enum Body {
    Empty,
    Login(LoginQuery),
    Eligibility(EligibilityQuery),
    Payment(PaymentQuery),
    Graphql(GqlQuery),
}

/// The mathematical value of a `Body`.
pub enum BodyView {
    Empty,
    Login(LoginQueryView),
    Eligibility(EligibilityQueryView),
    Payment(PaymentQueryView),
    Graphql(GqlQueryView),
}

impl View for Body {
    type V = BodyView;

    open spec fn view(&self) -> BodyView {
        match self {
            Body::Empty => BodyView::Empty,
            Body::Login(query) => BodyView::Login(query@),
            Body::Eligibility(query) => BodyView::Eligibility(query@),
            Body::Payment(query) => BodyView::Payment(query@),
            Body::Graphql(query) => BodyView::Graphql(query@),
        }
    }
}

/// One request: where it goes, the headers to set besides the cookies, the
/// parameters to add to the address, and the body.
#[derive(Debug, Clone, PartialEq, Eq)]
pub struct Request {
    pub method: Method,
    pub url: String,
    pub headers: Vec<(String, String)>,
    pub parameters: Vec<(String, String)>,
    pub body: Body,
}

/// The mathematical value of a `Request`.
pub struct RequestView {
    pub method: Method,
    pub url: Seq<char>,
    pub headers: Pairs,
    pub parameters: Pairs,
    pub body: BodyView,
}

impl View for Request {
    type V = RequestView;

    open spec fn view(&self) -> RequestView {
        RequestView {
            method: self.method,
            url: self.url@,
            headers: self.headers.deep_view(),
            parameters: self.parameters.deep_view(),
            body: self.body@,
        }
    }
}

impl DeepView for Request {
    type V = RequestView;

    open spec fn deep_view(&self) -> RequestView {
        self@
    }
}

/// The landing page of a signed-in user.
pub const ACCOUNT_URL: &'static str = "https://account.venmo.com/";

/// The page that asks the user to sign in.
pub const SIGN_IN_URL: &'static str = "https://venmo.com/account/sign-in";

/// Where a request for the landing page ends up when nobody is signed in.
pub const SIGN_IN_REDIRECT_URL: &'static str = "https://venmo.com/account/sign-in?next=%2F";

/// The root of the service, to which the persisted cookies belong.
pub const ROOT_URL: &'static str = "https://venmo.com";

pub const LOGIN_URL: &'static str = "https://venmo.com/api/login";

pub const LOGOUT_URL: &'static str = "https://account.venmo.com/account/logout";

pub const GRAPHQL_URL: &'static str = "https://api.venmo.com/graphql";

pub const STORIES_URL: &'static str = "https://account.venmo.com/api/stories";

pub const ELIGIBILITY_URL: &'static str = "https://account.venmo.com/api/eligibility";

pub const PAYMENTS_URL: &'static str = "https://account.venmo.com/api/payments";

/// The headers of a request that carries JSON and is guarded by the
/// anti-forgery token: the token goes out under two names, since servers
/// differ in which one they read.
pub open spec fn forgery_guarded(csrf: Seq<char>) -> Pairs {
    seq![
        ("content-type"@, "application/json"@),
        ("csrf-token"@, csrf),
        ("xsrf-token"@, csrf),
    ]
}

/// The headers of a GraphQL request, which is authorized by the bearer token.
pub open spec fn bearer_authorized(bearer: Seq<char>) -> Pairs {
    seq![
        ("Host"@, "api.venmo.com"@),
        ("accept"@, "*/*"@),
        ("content-type"@, "application/json"@),
        ("authorization"@, "Bearer "@ + bearer),
    ]
}

/// The request that tells whether somebody is signed in.
pub open spec fn liveness_request() -> RequestView {
    RequestView {
        method: Method::Get,
        url: ACCOUNT_URL@,
        headers: Pairs::empty(),
        parameters: Pairs::empty(),
        body: BodyView::Empty,
    }
}

/// The request for a page that embeds the anti-forgery token: the landing
/// page for a signed-in user, the sign-in page otherwise.
pub open spec fn csrf_request(authenticated: bool) -> RequestView {
    RequestView {
        method: Method::Get,
        url: if authenticated {
            ACCOUNT_URL@
        } else {
            SIGN_IN_URL@
        },
        headers: seq![("accept"@, "*/*"@), ("accept-language"@, "en-US,en;q=0.5"@)],
        parameters: Pairs::empty(),
        body: BodyView::Empty,
    }
}

/// The login request.
pub open spec fn login_request(csrf: Seq<char>, username: Seq<char>, password: Seq<char>)
    -> RequestView {
    RequestView {
        method: Method::Post,
        url: LOGIN_URL@,
        headers: forgery_guarded(csrf),
        parameters: Pairs::empty(),
        body: BodyView::Login(LoginQueryView { username, password, is_group: false }),
    }
}

/// The logout request.
pub open spec fn logout_request() -> RequestView {
    RequestView {
        method: Method::Get,
        url: LOGOUT_URL@,
        headers: Pairs::empty(),
        parameters: Pairs::empty(),
        body: BodyView::Empty,
    }
}

/// A GraphQL request for the operation `operation_name` of the document
/// `query`, with the name searched for where the operation is a search.
pub open spec fn graphql_request(
    bearer: Seq<char>,
    operation_name: Seq<char>,
    searched_name: Option<Seq<char>>,
    query: Seq<char>,
) -> RequestView {
    RequestView {
        method: Method::Post,
        url: GRAPHQL_URL@,
        headers: bearer_authorized(bearer),
        parameters: Pairs::empty(),
        body: BodyView::Graphql(GqlQueryView { operation_name, searched_name, query }),
    }
}

/// The request for the page of the feed of the account `external_id` that
/// follows the cursor `next_id`.
pub open spec fn stories_request(bearer: Seq<char>, external_id: Seq<char>, next_id: Seq<char>)
    -> RequestView {
    RequestView {
        method: Method::Get,
        url: STORIES_URL@,
        headers: seq![("accept"@, "*/*"@), ("authorization"@, "Bearer "@ + bearer)],
        parameters: seq![
            ("feedType"@, "me"@),
            ("externalId"@, external_id),
            ("nextId"@, next_id),
        ],
        body: BodyView::Empty,
    }
}

/// The body of the eligibility check for a payment.
pub open spec fn eligibility_query(amount_in_cents: u32, note: Seq<char>, user_id: Seq<char>)
    -> EligibilityQueryView {
    EligibilityQueryView {
        action: "pay"@,
        amount_in_cents,
        note,
        target_id: user_id,
        target_type: "user_id"@,
    }
}

/// The request that asks whether a payment may be made.
pub open spec fn eligibility_request(
    csrf: Seq<char>,
    amount_in_cents: u32,
    note: Seq<char>,
    user_id: Seq<char>,
) -> RequestView {
    RequestView {
        method: Method::Post,
        url: ELIGIBILITY_URL@,
        headers: forgery_guarded(csrf),
        parameters: Pairs::empty(),
        body: BodyView::Eligibility(eligibility_query(amount_in_cents, note, user_id)),
    }
}

/// The request that submits a payment or a request for money.
pub open spec fn payment_request(csrf: Seq<char>, query: PaymentQueryView) -> RequestView {
    RequestView {
        method: Method::Post,
        url: PAYMENTS_URL@,
        headers: forgery_guarded(csrf),
        parameters: Pairs::empty(),
        body: BodyView::Payment(query),
    }
}

fn pair(name: &str, value: &str) -> (both: (String, String))
    ensures
        both.deep_view() == (name@, value@),
{
    (String::from_str(name), String::from_str(value))
}

fn no_pairs() -> (none: Vec<(String, String)>)
    ensures
        none.deep_view() == Pairs::empty(),
{
    let none: Vec<(String, String)> = Vec::new();
    none
}

fn forgery_guarded_headers(csrf: &str) -> (headers: Vec<(String, String)>)
    ensures
        headers.deep_view() == forgery_guarded(csrf@),
{
    let mut headers: Vec<(String, String)> = Vec::new();
    headers.push(pair("content-type", "application/json"));
    headers.push(pair("csrf-token", csrf));
    headers.push(pair("xsrf-token", csrf));
    headers
}

fn bearer_value(bearer: &str) -> (value: String)
    ensures
        value@ == "Bearer "@ + bearer@,
{
    String::from_str("Bearer ").concat(bearer)
}

fn bearer_authorized_headers(bearer: &str) -> (headers: Vec<(String, String)>)
    ensures
        headers.deep_view() == bearer_authorized(bearer@),
{
    let mut headers: Vec<(String, String)> = Vec::new();
    headers.push(pair("Host", "api.venmo.com"));
    headers.push(pair("accept", "*/*"));
    headers.push(pair("content-type", "application/json"));
    headers.push(pair("authorization", bearer_value(bearer).as_str()));
    headers
}

/// Builds the request that tells whether somebody is signed in.
pub fn liveness() -> (request: Request)
    ensures
        request@ == liveness_request(),
{
    Request {
        method: Method::Get,
        url: String::from_str(ACCOUNT_URL),
        headers: no_pairs(),
        parameters: no_pairs(),
        body: Body::Empty,
    }
}

/// Builds the request for a page that embeds the anti-forgery token.
pub fn csrf_page(authenticated: bool) -> (request: Request)
    ensures
        request@ == csrf_request(authenticated),
{
    let mut headers: Vec<(String, String)> = Vec::new();
    headers.push(pair("accept", "*/*"));
    headers.push(pair("accept-language", "en-US,en;q=0.5"));
    assert(headers.deep_view() =~= csrf_request(authenticated).headers);
    Request {
        method: Method::Get,
        url: String::from_str(
            if authenticated {
                ACCOUNT_URL
            } else {
                SIGN_IN_URL
            },
        ),
        headers,
        parameters: no_pairs(),
        body: Body::Empty,
    }
}

/// Builds the login request.
pub fn login(csrf: &str, username: &str, password: &str) -> (request: Request)
    ensures
        request@ == login_request(csrf@, username@, password@),
{
    Request {
        method: Method::Post,
        url: String::from_str(LOGIN_URL),
        headers: forgery_guarded_headers(csrf),
        parameters: no_pairs(),
        body: Body::Login(
            LoginQuery {
                username: String::from_str(username),
                password: String::from_str(password),
                is_group: false,
            },
        ),
    }
}

/// Builds the logout request.
pub fn logout() -> (request: Request)
    ensures
        request@ == logout_request(),
{
    Request {
        method: Method::Get,
        url: String::from_str(LOGOUT_URL),
        headers: no_pairs(),
        parameters: no_pairs(),
        body: Body::Empty,
    }
}

/// Builds a GraphQL request.
pub fn graphql(bearer: &str, operation_name: &str, searched_name: Option<&str>, query: &str) -> (request:
    Request)
    ensures
        request@ == graphql_request(bearer@, operation_name@, searched_name.deep_view(), query@),
{
    let variables = match searched_name {
        Some(name) => Some(Variables { input: UserVariablesName { name: String::from_str(name) } }),
        None => None,
    };
    Request {
        method: Method::Post,
        url: String::from_str(GRAPHQL_URL),
        headers: bearer_authorized_headers(bearer),
        parameters: no_pairs(),
        body: Body::Graphql(
            GqlQuery {
                operation_name: String::from_str(operation_name),
                variables,
                query: String::from_str(query),
            },
        ),
    }
}

/// Builds the request for one page of the feed.
pub fn stories(bearer: &str, external_id: &str, next_id: &str) -> (request: Request)
    ensures
        request@ == stories_request(bearer@, external_id@, next_id@),
{
    let mut headers: Vec<(String, String)> = Vec::new();
    headers.push(pair("accept", "*/*"));
    headers.push(pair("authorization", bearer_value(bearer).as_str()));
    let mut parameters: Vec<(String, String)> = Vec::new();
    parameters.push(pair("feedType", "me"));
    parameters.push(pair("externalId", external_id));
    parameters.push(pair("nextId", next_id));
    assert(headers.deep_view() =~= stories_request(bearer@, external_id@, next_id@).headers);
    assert(parameters.deep_view() =~= stories_request(
        bearer@,
        external_id@,
        next_id@,
    ).parameters);
    Request {
        method: Method::Get,
        url: String::from_str(STORIES_URL),
        headers,
        parameters,
        body: Body::Empty,
    }
}

/// Builds the request that asks whether a payment may be made.
pub fn eligibility(csrf: &str, amount_in_cents: u32, note: &str, user_id: &str) -> (request:
    Request)
    ensures
        request@ == eligibility_request(csrf@, amount_in_cents, note@, user_id@),
{
    Request {
        method: Method::Post,
        url: String::from_str(ELIGIBILITY_URL),
        headers: forgery_guarded_headers(csrf),
        parameters: no_pairs(),
        body: Body::Eligibility(
            EligibilityQuery {
                action: String::from_str("pay"),
                amount_in_cents,
                note: String::from_str(note),
                target_id: String::from_str(user_id),
                target_type: String::from_str("user_id"),
            },
        ),
    }
}

/// Builds the request that submits `query`.
pub fn payment(csrf: &str, query: PaymentQuery) -> (request: Request)
    ensures
        request@ == payment_request(csrf@, query@),
{
    Request {
        method: Method::Post,
        url: String::from_str(PAYMENTS_URL),
        headers: forgery_guarded_headers(csrf),
        parameters: no_pairs(),
        body: Body::Payment(query),
    }
}

} // verus!
