//! The session and the operations on it.
//!
//! `Api` holds what the client knows between exchanges: the persisted
//! cookies, the anti-forgery token, the bearer token, the identity and how far
//! the session has come. It sends nothing. For each remote operation one
//! method builds the request and another takes in what came back:
//! the caller carries out the exchange in between.

pub use crate::error::ApiError;
use crate::error::{result_view, ApiErrorView};
pub use crate::request::{
    Audience, EligibilityQuery, GqlQuery, PaymentQuery, PaymentType, TargetUserDetails,
    UserVariablesName, Variables,
};
use crate::answers::{
    identity_in, instruments_in, read_identity, read_instruments, read_user_id, user_id_in,
    IDENTITY_NOT_FOUND, UNREADABLE_ANSWER,
};
use crate::request;
use crate::request::{Request, SIGN_IN_REDIRECT_URL};
use crate::scan::lemma_first_index;
use crate::store::{
    lemma_put_keeps_others, lemma_put_then_get, names, put, value_of, CredentialStore,
};
use crate::text::{same_text, Pairs};
use crate::token::{
    access_token_in, cookie_name, cookie_name_of, csrf_token_in, extract_access_token,
    extract_csrf_token, ACCESS_TOKEN_COOKIE, CSRF_MISSING,
};
use crate::types::{
    Eligibility, EligibilityView, FundingInstrument, FundingInstrumentView, Identity, IdentityView,
    LoginResponse, LoginResponseView,
};
use vstd::prelude::*;
use vstd::string::StringExecFns;

verus! {

/// How far a session has come.
#[derive(Debug, Clone, Copy, PartialEq, Eq, Structural)]
pub enum SessionState {
    /// Nothing was loaded yet.
    Uninitialized,
    /// The persisted cookies are loaded; the anti-forgery token is not.
    Restoring,
    /// Requests can be made.
    Ready,
    /// A login or a logout is under way.
    Authenticating,
}

/// What came back from the server: the address at which the exchange ended
/// after redirects, the value of each `Set-Cookie` header in the order
/// received, and the body.
#[derive(Debug, Clone, PartialEq, Eq)]
pub struct Reply {
    pub final_url: String,
    pub set_cookies: Vec<String>,
    pub body: String,
}

/// The mathematical value of a `Reply`.
pub struct ReplyView {
    pub final_url: Seq<char>,
    pub set_cookies: Seq<Seq<char>>,
    pub body: Seq<char>,
}

impl View for Reply {
    type V = ReplyView;

    open spec fn view(&self) -> ReplyView {
        ReplyView {
            final_url: self.final_url@,
            set_cookies: self.set_cookies.deep_view(),
            body: self.body@,
        }
    }
}

impl DeepView for Reply {
    type V = ReplyView;

    open spec fn deep_view(&self) -> ReplyView {
        self@
    }
}

/// How an exchange ended, to the verifier: with a reply, or with the text of
/// the error that kept it from completing.
pub type OutcomeView = Result<ReplyView, Seq<char>>;

/// The mathematical value of the end of an exchange.
pub open spec fn outcome_view(outcome: Result<Reply, String>) -> OutcomeView {
    match outcome {
        Ok(reply) => Ok(reply@),
        Err(detail) => Err(detail@),
    }
}

/// The name of the GraphQL operation that fetches the identity.
pub const PROFILE_OPERATION: &'static str = "Identity";

/// The name of the GraphQL operation that searches for people.
pub const SEARCH_OPERATION: &'static str = "People";

/// The name of the GraphQL operation that lists the payment methods.
pub const WALLET_OPERATION: &'static str = "getUserFundingInstruments";

/// The detail of the error for a logout that could not be sent.
pub const LOGOUT_FAILED: &'static str = "logout request failed! please try again";

/// The bearer token that the raw cookie value `raw` stands for: the token it
/// holds, or the empty text where it holds none.
pub open spec fn bearer_in(raw: Seq<char>) -> Seq<char> {
    match access_token_in(raw) {
        Some(token) => token,
        None => Seq::empty(),
    }
}

/// The bearer token that a set of persisted cookies stands for: that of the
/// access-token cookie, or the empty text where no such cookie is kept.
pub open spec fn bearer_of(cookies: Pairs) -> Seq<char> {
    match value_of(cookies, ACCESS_TOKEN_COOKIE@) {
        Some(raw) => bearer_in(raw),
        None => Seq::empty(),
    }
}

/// The pairs that `Set-Cookie` values make: each raw value under the name
/// of its cookie.
pub open spec fn named(raws: Seq<Seq<char>>) -> Pairs {
    raws.map_values(|raw: Seq<char>| (cookie_name_of(raw), raw))
}

/// The cookies after the pairs `written` were written, one after the other.
pub open spec fn stored(cookies: Pairs, written: Pairs) -> Pairs
    decreases written.len(),
{
    if written.len() == 0 {
        cookies
    } else {
        put(stored(cookies, written.drop_last()), written.last().0, written.last().1)
    }
}

/// The bearer token set by the last of `written` that bears the name of the
/// access-token cookie; `None` where none of them bears it.
pub open spec fn last_bearer(written: Pairs) -> Option<Seq<char>>
    decreases written.len(),
{
    if written.len() == 0 {
        None
    } else if written.last().0 == ACCESS_TOKEN_COOKIE@ {
        Some(bearer_in(written.last().1))
    } else {
        last_bearer(written.drop_last())
    }
}

/// The bearer token set by the last of the `Set-Cookie` values `raws` that
/// names the access-token cookie; `None` where none of them names it.
pub open spec fn last_token(raws: Seq<Seq<char>>) -> Option<Seq<char>> {
    last_bearer(named(raws))
}

/// The mathematical value of a session.
pub struct Session {
    pub identity: Option<IdentityView>,
    pub csrf: Seq<char>,
    pub bearer: Seq<char>,
    pub cookies: Pairs,
    pub state: SessionState,
}

impl Session {
    /// The session at the start of a run: nothing known, nothing loaded.
    pub open spec fn fresh() -> Session {
        Session {
            identity: None,
            csrf: Seq::empty(),
            bearer: Seq::empty(),
            cookies: Pairs::empty(),
            state: SessionState::Uninitialized,
        }
    }

    /// The bearer token is the one that the persisted cookies stand for.
    pub open spec fn in_step(self) -> bool {
        self.bearer == bearer_of(self.cookies)
    }

    /// The session in another state.
    pub open spec fn at(self, state: SessionState) -> Session {
        Session { state, ..self }
    }

    /// The session after the raw value `value` was seen for the cookie
    /// `name`: the value is kept under the name, and where the name is that of
    /// the access-token cookie the bearer token follows.
    pub open spec fn written(self, name: Seq<char>, value: Seq<char>) -> Session {
        Session {
            cookies: put(self.cookies, name, value),
            bearer: if name == ACCESS_TOKEN_COOKIE@ {
                bearer_in(value)
            } else {
                self.bearer
            },
            ..self
        }
    }

    /// The session after the pairs `persisted` were written, in their
    /// order: each value is kept under its name, and the bearer token is the
    /// one set by the last pair that bears the name of the access-token
    /// cookie, or the one it was if there is no such pair.
    pub open spec fn loaded(self, persisted: Pairs) -> Session {
        Session {
            cookies: stored(self.cookies, persisted),
            bearer: match last_bearer(persisted) {
                Some(token) => token,
                None => self.bearer,
            },
            ..self
        }
    }

    /// The session after the `Set-Cookie` values `raws`, in their order:
    /// each is kept under the name of its cookie, and the bearer token is the
    /// one set by the last value that names the access-token cookie, or the
    /// one it was if none names it.
    pub open spec fn absorbed(self, raws: Seq<Seq<char>>) -> Session {
        self.loaded(named(raws))
    }

    /// The session after an attempt to fetch the anti-forgery token ended
    /// with `outcome`: a reply is absorbed, and the token it embeds, if any,
    /// becomes the session's.
    pub open spec fn csrf_fetched(self, outcome: OutcomeView) -> Session {
        match outcome {
            Err(_) => self,
            Ok(reply) => {
                let absorbed = self.absorbed(reply.set_cookies);
                match csrf_token_in(reply.body) {
                    Some(token) => Session { csrf: token, ..absorbed },
                    None => absorbed,
                }
            },
        }
    }

    /// What an attempt to fetch the anti-forgery token that ended with
    /// `outcome` gives: nothing, or a `CsrfFetchFailure` for an exchange that
    /// failed or a page without the marker.
    pub open spec fn csrf_result(outcome: OutcomeView) -> Result<(), ApiErrorView> {
        match outcome {
            Err(detail) => Err(ApiErrorView::CsrfFetchFailure(detail)),
            Ok(reply) => match csrf_token_in(reply.body) {
                Some(_) => Ok(()),
                None => Err(ApiErrorView::CsrfFetchFailure(CSRF_MISSING@)),
            },
        }
    }

    /// What the startup gives when the fetch of the anti-forgery token ended
    /// with `outcome`: the failure of the fetch is a `SessionInitFailure`.
    pub open spec fn initialize_result(outcome: OutcomeView) -> Result<(), ApiErrorView> {
        match Self::csrf_result(outcome) {
            Ok(_) => Ok(()),
            Err(e) => Err(ApiErrorView::SessionInitFailure(e->CsrfFetchFailure_0)),
        }
    }

    /// The session after the startup ended with `outcome`.
    pub open spec fn initialized(self, outcome: OutcomeView) -> Session {
        match Self::csrf_result(outcome) {
            Ok(_) => self.csrf_fetched(outcome).at(SessionState::Ready),
            Err(_) => self.csrf_fetched(outcome),
        }
    }

    /// The session after an exchange that ended with `outcome`: a reply is
    /// absorbed.
    pub open spec fn answered(self, outcome: OutcomeView) -> Session {
        match outcome {
            Err(_) => self,
            Ok(reply) => self.absorbed(reply.set_cookies),
        }
    }

    /// The session after a profile query ended with `outcome`: a reply is
    /// absorbed, and the identity it holds is kept.
    pub open spec fn profiled(self, outcome: OutcomeView) -> Session {
        match outcome {
            Err(_) => self,
            Ok(reply) => match identity_in(reply.body) {
                Some(identity) => Session {
                    identity: Some(identity),
                    ..self.absorbed(reply.set_cookies)
                },
                None => self.absorbed(reply.set_cookies),
            },
        }
    }

    /// The session after a login ended with `outcome`.
    pub open spec fn logged_in_with(self, outcome: OutcomeView) -> Session {
        match outcome {
            Err(_) => self.at(SessionState::Ready),
            Ok(reply) => self.absorbed(reply.set_cookies).at(SessionState::Ready),
        }
    }

    /// The session after a logout ended with `outcome`: any reply at all,
    /// whatever its status, clears the session.
    pub open spec fn logged_out_with(self, outcome: OutcomeView) -> Session {
        match outcome {
            Err(_) => self.at(SessionState::Ready),
            Ok(_) => Session::fresh(),
        }
    }
}

/// Writing the last of several pairs is writing one more.
pub proof fn lemma_loaded_step(session: Session, written: Pairs)
    requires
        written.len() > 0,
    ensures
        session.loaded(written) == session.loaded(written.drop_last()).written(
            written.last().0,
            written.last().1,
        ),
{
}

/// Writing a value leaves the bearer token in step with the cookies.
pub proof fn lemma_written_keeps_step(session: Session, name: Seq<char>, value: Seq<char>)
    requires
        session.in_step(),
    ensures
        session.written(name, value).in_step(),
{
    lemma_put_then_get(session.cookies, name, value);
    if name != ACCESS_TOKEN_COOKIE@ {
        lemma_put_keeps_others(session.cookies, name, value, ACCESS_TOKEN_COOKIE@);
    }
}

/// Whatever cookies were persisted, after loading them the bearer token is
/// the one that they stand for.
pub proof fn lemma_loaded_keeps_step(session: Session, persisted: Pairs)
    requires
        session.in_step(),
    ensures
        session.loaded(persisted).in_step(),
    decreases persisted.len(),
{
    if persisted.len() > 0 {
        lemma_loaded_keeps_step(session, persisted.drop_last());
        lemma_loaded_step(session, persisted);
        lemma_written_keeps_step(
            session.loaded(persisted.drop_last()),
            persisted.last().0,
            persisted.last().1,
        );
    }
}

/// Whatever cookies the server sets, the bearer token stays the one that the
/// persisted cookies stand for.
pub proof fn lemma_absorbed_keeps_step(session: Session, raws: Seq<Seq<char>>)
    requires
        session.in_step(),
    ensures
        session.absorbed(raws).in_step(),
{
    lemma_loaded_keeps_step(session, named(raws));
}

/// Writing one list of pairs and then another is writing the two lists in a
/// row.
pub proof fn lemma_loaded_twice(session: Session, first: Pairs, second: Pairs)
    ensures
        session.loaded(first).loaded(second) == session.loaded(first + second),
    decreases second.len(),
{
    if second.len() > 0 {
        lemma_loaded_twice(session, first, second.drop_last());
        assert((first + second).drop_last() =~= first + second.drop_last());
        lemma_loaded_step(session.loaded(first), second);
        lemma_loaded_step(session, first + second);
    }
}

/// Absorbing one list of values and then another is absorbing the two lists
/// in a row.
pub proof fn lemma_absorbed_twice(session: Session, first: Seq<Seq<char>>, second: Seq<Seq<char>>)
    ensures
        session.absorbed(first).absorbed(second) == session.absorbed(first + second),
{
    assert(named(first + second) =~= named(first) + named(second));
    lemma_loaded_twice(session, named(first), named(second));
}

/// The `Set-Cookie` values of several replies, in a row.
pub open spec fn in_a_row(replies: Seq<Seq<Seq<char>>>) -> Seq<Seq<char>>
    decreases replies.len(),
{
    if replies.len() == 0 {
        Seq::empty()
    } else {
        in_a_row(replies.drop_last()) + replies.last()
    }
}

/// The session after one reply after the other was absorbed.
pub open spec fn absorbed_in_turn(session: Session, replies: Seq<Seq<Seq<char>>>) -> Session
    decreases replies.len(),
{
    if replies.len() == 0 {
        session
    } else {
        absorbed_in_turn(session, replies.drop_last()).absorbed(replies.last())
    }
}

/// After any sequence of replies the bearer token is the one set by the last
/// `Set-Cookie` value, of all that came, that names the access-token cookie,
/// and is unchanged if none names it.
pub proof fn lemma_bearer_after_replies(session: Session, replies: Seq<Seq<Seq<char>>>)
    ensures
        absorbed_in_turn(session, replies) == session.absorbed(in_a_row(replies)),
        absorbed_in_turn(session, replies).bearer == match last_token(in_a_row(replies)) {
            Some(token) => token,
            None => session.bearer,
        },
    decreases replies.len(),
{
    if replies.len() > 0 {
        lemma_bearer_after_replies(session, replies.drop_last());
        lemma_absorbed_twice(session, in_a_row(replies.drop_last()), replies.last());
    }
}

/// Whatever an operation makes of a session, the bearer token stays the one
/// that the persisted cookies stand for.
pub proof fn lemma_session_stays_in_step(session: Session, outcome: OutcomeView)
    requires
        session.in_step(),
    ensures
        Session::fresh().in_step(),
        session.answered(outcome).in_step(),
        session.csrf_fetched(outcome).in_step(),
        session.initialized(outcome).in_step(),
        session.profiled(outcome).in_step(),
        session.logged_in_with(outcome).in_step(),
        session.logged_out_with(outcome).in_step(),
{
    lemma_first_index(names(Pairs::empty()), ACCESS_TOKEN_COOKIE@);
    if outcome is Ok {
        lemma_absorbed_keeps_step(session, outcome->Ok_0.set_cookies);
    }
}

/// The session of a client.
#[derive(Debug)]
pub struct Api {
    identity: Option<Identity>,
    csrf: String,
    bearer: String,
    store: CredentialStore,
    state: SessionState,
}

impl View for Api {
    type V = Session;

    closed spec fn view(&self) -> Session {
        Session {
            identity: self.identity.deep_view(),
            csrf: self.csrf@,
            bearer: self.bearer@,
            cookies: self.store@,
            state: self.state,
        }
    }
}

impl Api {
    /// A session at the start of a run.
    pub fn new() -> (api: Api)
        ensures
            api@ == Session::fresh(),
    {
        Api {
            identity: None,
            csrf: String::new(),
            bearer: String::new(),
            store: CredentialStore::new(),
            state: SessionState::Uninitialized,
        }
    }

    /// How far the session has come.
    pub fn state(&self) -> (state: SessionState)
        ensures
            state == self@.state,
    {
        self.state
    }

    /// The anti-forgery token.
    pub fn csrf(&self) -> (csrf: &str)
        ensures
            csrf@ == self@.csrf,
    {
        self.csrf.as_str()
    }

    /// The bearer token. It is empty until an access-token cookie was seen.
    pub fn bearer(&self) -> (bearer: &str)
        ensures
            bearer@ == self@.bearer,
    {
        self.bearer.as_str()
    }

    /// The persisted cookies.
    pub fn store(&self) -> (store: &CredentialStore)
        ensures
            store@ == self@.cookies,
    {
        &self.store
    }

    /// The account that the session acts for, once it was fetched.
    pub fn identity(&self) -> (identity: Option<&Identity>)
        ensures
            identity.deep_view() == self@.identity,
    {
        self.identity.as_ref()
    }

    fn write_cookie(&mut self, name: &str, value: &str)
        ensures
            final(self)@ == old(self)@.written(name@, value@),
    {
        if same_text(name, ACCESS_TOKEN_COOKIE) {
            self.bearer = match extract_access_token(value) {
                Some(token) => token,
                None => String::new(),
            };
        }
        self.store.persist_cookie(name, value);
    }

    /// Takes in the `Set-Cookie` values of a reply: each is kept under the
    /// name of its cookie, and one that names the access-token cookie sets the
    /// bearer token.
    pub fn set_cookies(&mut self, set_cookies: &Vec<String>)
        ensures
            final(self)@ == old(self)@.absorbed(set_cookies.deep_view()),
    {
        let ghost raws = set_cookies.deep_view();
        let n = set_cookies.len();
        let mut i: usize = 0;
        while i < n
            invariant
                n == set_cookies@.len(),
                raws == set_cookies.deep_view(),
                i <= n,
                self@ == old(self)@.absorbed(raws.take(i as int)),
            decreases n - i,
        {
            let raw = set_cookies[i].as_str();
            let name = cookie_name(raw);
            self.write_cookie(name.as_str(), raw);
            proof {
                let written = named(raws.take(i + 1));
                assert(written.drop_last() =~= named(raws.take(i as int)));
                lemma_loaded_step(old(self)@, written);
            }
            i = i + 1;
        }
        assert(raws.take(n as int) =~= raws);
    }

    /// Loads the cookies that an earlier run persisted, in their order, and
    /// warms the bearer token from them. The session goes from
    /// `Uninitialized` to `Restoring`.
    pub fn load_cookies(&mut self, persisted: &Vec<(String, String)>)
        requires
            old(self)@.state == SessionState::Uninitialized,
        ensures
            final(self)@ == old(self)@.loaded(persisted.deep_view()).at(SessionState::Restoring),
    {
        let ghost pairs = persisted.deep_view();
        let n = persisted.len();
        let mut i: usize = 0;
        while i < n
            invariant
                n == persisted@.len(),
                pairs == persisted.deep_view(),
                i <= n,
                self@ == old(self)@.loaded(pairs.take(i as int)),
            decreases n - i,
        {
            let entry = &persisted[i];
            self.write_cookie(entry.0.as_str(), entry.1.as_str());
            proof {
                assert(pairs.take(i + 1).drop_last() =~= pairs.take(i as int));
                lemma_loaded_step(old(self)@, pairs.take(i + 1));
            }
            i = i + 1;
        }
        assert(pairs.take(n as int) =~= pairs);
        self.state = SessionState::Restoring;
    }

    /// The request that tells whether somebody is signed in.
    pub fn logged_in_request(&self) -> (request: Request)
        ensures
            request@ == request::liveness_request(),
    {
        request::liveness()
    }

    /// Whether `outcome` shows the landing page.
    pub open spec fn shows_landing_page(outcome: OutcomeView) -> bool {
        match outcome {
            Err(_) => false,
            Ok(reply) => reply.final_url != SIGN_IN_REDIRECT_URL@,
        }
    }

    /// Whether somebody is signed in, going by what came of the request for
    /// the landing page: yes, unless it ended at the sign-in page. A request
    /// that failed says no.
    pub fn logged_in(&self, outcome: &Result<Reply, String>) -> (authenticated: bool)
        ensures
            authenticated == Self::shows_landing_page(outcome_view(*outcome)),
    {
        match outcome {
            Err(_) => false,
            Ok(reply) => !same_text(reply.final_url.as_str(), SIGN_IN_REDIRECT_URL),
        }
    }

    /// The request for a page that embeds the anti-forgery token.
    pub fn fetch_csrf_request(&self, authenticated: bool) -> (request: Request)
        ensures
            request@ == request::csrf_request(authenticated),
    {
        request::csrf_page(authenticated)
    }

    /// The request for a page that embeds the anti-forgery token, chosen by
    /// what came of the request for the landing page: the landing page again
    /// where somebody is signed in, the sign-in page otherwise.
    pub fn refresh_csrf_request(&self, liveness: &Result<Reply, String>) -> (request: Request)
        ensures
            request@ == request::csrf_request(Self::shows_landing_page(outcome_view(*liveness))),
    {
        let authenticated = self.logged_in(liveness);
        self.fetch_csrf_request(authenticated)
    }

    /// Takes in the page asked for with `fetch_csrf_request`: the reply is
    /// absorbed and the anti-forgery token read from its body. A failed
    /// exchange, or a body without the marker, is a `CsrfFetchFailure`.
    pub fn fetch_csrf(&mut self, outcome: Result<Reply, String>) -> (fetched: Result<(), ApiError>)
        ensures
            final(self)@ == old(self)@.csrf_fetched(outcome_view(outcome)),
            result_view(fetched) == Session::csrf_result(outcome_view(outcome)),
    {
        match outcome {
            Err(detail) => Err(ApiError::CsrfFetchFailure(detail)),
            Ok(reply) => {
                self.set_cookies(&reply.set_cookies);
                match extract_csrf_token(reply.body.as_str()) {
                    Ok(token) => {
                        self.csrf = token;
                        Ok(())
                    },
                    Err(e) => Err(e),
                }
            },
        }
    }

    /// Ends the startup: takes in the page asked for with
    /// `fetch_csrf_request` as `fetch_csrf` does. With the token fetched the
    /// session is `Ready`; otherwise it stays `Restoring` and the failure is a
    /// `SessionInitFailure`.
    pub fn initialize(&mut self, outcome: Result<Reply, String>) -> (done: Result<(), ApiError>)
        requires
            old(self)@.state == SessionState::Restoring,
        ensures
            final(self)@ == old(self)@.initialized(outcome_view(outcome)),
            result_view(done) == Session::initialize_result(outcome_view(outcome)),
    {
        match self.fetch_csrf(outcome) {
            Ok(_) => {
                self.state = SessionState::Ready;
                Ok(())
            },
            Err(e) => {
                let detail = match e {
                    ApiError::CsrfFetchFailure(detail) => detail,
                    _ => String::new(),
                };
                Err(ApiError::SessionInitFailure(detail))
            },
        }
    }

    /// The login request. The session becomes `Authenticating`.
    pub fn login_request(&mut self, username: &str, password: &str) -> (request: Request)
        requires
            old(self)@.state == SessionState::Ready,
        ensures
            request@ == request::login_request(old(self)@.csrf, username@, password@),
            final(self)@ == old(self)@.at(SessionState::Authenticating),
    {
        self.state = SessionState::Authenticating;
        request::login(self.csrf.as_str(), username, password)
    }

    /// What a login that ended with `outcome` gives: the answer in the body
    /// of the reply, or the detail of a `LoginFailure`.
    pub open spec fn login_result(outcome: OutcomeView) -> Result<LoginResponseView, ApiErrorView> {
        match outcome {
            Err(detail) => Err(ApiErrorView::LoginFailure(detail)),
            Ok(reply) => match LoginResponse::in_body(reply.body) {
                Some(answer) => Ok(answer),
                None => Err(ApiErrorView::LoginFailure(UNREADABLE_ANSWER@)),
            },
        }
    }

    /// Takes in what came of the login request. A reply is absorbed, whatever
    /// its body holds. A failed exchange, or a body that is no login answer,
    /// is a `LoginFailure`. The session is `Ready` again.
    pub fn login(&mut self, outcome: Result<Reply, String>) -> (answer: Result<
        LoginResponse,
        ApiError,
    >)
        requires
            old(self)@.state == SessionState::Authenticating,
        ensures
            final(self)@ == old(self)@.logged_in_with(outcome_view(outcome)),
            result_view(answer) == Self::login_result(outcome_view(outcome)),
    {
        match outcome {
            Err(detail) => {
                self.state = SessionState::Ready;
                Err(ApiError::LoginFailure(detail))
            },
            Ok(reply) => {
                self.set_cookies(&reply.set_cookies);
                self.state = SessionState::Ready;
                match LoginResponse::from_body(reply.body.as_str()) {
                    Some(answer) => Ok(answer),
                    None => Err(ApiError::LoginFailure(String::from_str(UNREADABLE_ANSWER))),
                }
            },
        }
    }

    /// The logout request. The session becomes `Authenticating`.
    pub fn logout_request(&mut self) -> (request: Request)
        requires
            old(self)@.state == SessionState::Ready,
        ensures
            request@ == request::logout_request(),
            final(self)@ == old(self)@.at(SessionState::Authenticating),
    {
        self.state = SessionState::Authenticating;
        request::logout()
    }

    /// What a logout that ended with `outcome` gives: nothing, or a
    /// `LogoutFailure` for an exchange that failed.
    pub open spec fn logout_result(outcome: OutcomeView) -> Result<(), ApiErrorView> {
        match outcome {
            Err(_) => Err(ApiErrorView::LogoutFailure(LOGOUT_FAILED@)),
            Ok(_) => Ok(()),
        }
    }

    /// Takes in what came of the logout request. Any reply, whatever its
    /// status, clears the session: cookies, tokens and identity are forgotten
    /// and the session is `Uninitialized`. An exchange that failed is a
    /// `LogoutFailure` and leaves the session as it was, `Ready`.
    pub fn logout(&mut self, outcome: &Result<Reply, String>) -> (done: Result<(), ApiError>)
        requires
            old(self)@.state == SessionState::Authenticating,
        ensures
            final(self)@ == old(self)@.logged_out_with(outcome_view(*outcome)),
            result_view(done) == Self::logout_result(outcome_view(*outcome)),
    {
        match outcome {
            Err(_) => {
                self.state = SessionState::Ready;
                Err(ApiError::LogoutFailure(String::from_str(LOGOUT_FAILED)))
            },
            Ok(_) => {
                self.identity = None;
                self.csrf = String::new();
                self.bearer = String::new();
                self.store.clear_all();
                self.state = SessionState::Uninitialized;
                Ok(())
            },
        }
    }
    /// The request for the identity of the signed-in user: the operation
    /// `Identity` of the GraphQL document `query`.
    pub fn get_profile_request(&self, query: &str) -> (request: Request)
        requires
            self@.state == SessionState::Ready,
        ensures
            request@ == request::graphql_request(self@.bearer, PROFILE_OPERATION@, None, query@),
    {
        request::graphql(self.bearer.as_str(), PROFILE_OPERATION, None, query)
    }

    /// What a profile query that ended with `outcome` gives: the identity in
    /// the body of the reply; a `LoginFailure` for an exchange that failed;
    /// `Unauthorized` for a reply without an identity, which is what the
    /// server sends to somebody who is not signed in.
    pub open spec fn profile_result(outcome: OutcomeView) -> Result<IdentityView, ApiErrorView> {
        match outcome {
            Err(detail) => Err(ApiErrorView::LoginFailure(detail)),
            Ok(reply) => match identity_in(reply.body) {
                Some(identity) => Ok(identity),
                None => Err(ApiErrorView::Unauthorized(IDENTITY_NOT_FOUND@)),
            },
        }
    }

    /// Takes in what came of the profile query. A reply is absorbed, and the
    /// identity it holds is kept in the session and handed out.
    pub fn get_profile(&mut self, outcome: Result<Reply, String>) -> (identity: Result<
        Identity,
        ApiError,
    >)
        requires
            old(self)@.state == SessionState::Ready,
        ensures
            final(self)@ == old(self)@.profiled(outcome_view(outcome)),
            result_view(identity) == Self::profile_result(outcome_view(outcome)),
    {
        match outcome {
            Err(detail) => Err(ApiError::LoginFailure(detail)),
            Ok(reply) => {
                self.set_cookies(&reply.set_cookies);
                match read_identity(reply.body.as_str()) {
                    Some(identity) => {
                        self.identity = Some(identity.duplicate());
                        Ok(identity)
                    },
                    None => Err(ApiError::Unauthorized(String::from_str(IDENTITY_NOT_FOUND))),
                }
            },
        }
    }

    /// The request that searches for the user called `name`: the operation
    /// `People` of the GraphQL document `query`.
    pub fn fetch_user_id_request(&self, name: &str, query: &str) -> (request: Request)
        requires
            self@.state == SessionState::Ready,
        ensures
            request@ == request::graphql_request(
                self@.bearer,
                SEARCH_OPERATION@,
                Some(name@),
                query@,
            ),
    {
        request::graphql(self.bearer.as_str(), SEARCH_OPERATION, Some(name), query)
    }

    /// What a search that ended with `outcome` gives: the id of the first
    /// person found; `UserNotFound` where nobody was found; a
    /// `UserQueryFailure` for an exchange that failed or an answer that cannot
    /// be read.
    pub open spec fn search_result(outcome: OutcomeView) -> Result<Seq<char>, ApiErrorView> {
        match outcome {
            Err(detail) => Err(ApiErrorView::UserQueryFailure(detail)),
            Ok(reply) => user_id_in(reply.body),
        }
    }

    /// Takes in what came of a search. A reply is absorbed.
    pub fn fetch_user_id(&mut self, outcome: Result<Reply, String>) -> (id: Result<String, ApiError>)
        requires
            old(self)@.state == SessionState::Ready,
        ensures
            final(self)@ == old(self)@.answered(outcome_view(outcome)),
            result_view(id) == Self::search_result(outcome_view(outcome)),
    {
        match outcome {
            Err(detail) => Err(ApiError::UserQueryFailure(detail)),
            Ok(reply) => {
                self.set_cookies(&reply.set_cookies);
                read_user_id(reply.body.as_str())
            },
        }
    }

    /// The request for the payment methods of the signed-in user: the
    /// operation `getUserFundingInstruments` of the GraphQL document `query`.
    pub fn get_funding_instruments_request(&self, query: &str) -> (request: Request)
        requires
            self@.state == SessionState::Ready,
        ensures
            request@ == request::graphql_request(self@.bearer, WALLET_OPERATION@, None, query@),
    {
        request::graphql(self.bearer.as_str(), WALLET_OPERATION, None, query)
    }

    /// What a wallet query that ended with `outcome` gives: the payment
    /// methods among the entries of the wallet, unreadable entries being
    /// passed over; a `UserQueryFailure` for an exchange that failed or an
    /// answer without a wallet.
    pub open spec fn wallet_result(outcome: OutcomeView) -> Result<
        Seq<FundingInstrumentView>,
        ApiErrorView,
    > {
        match outcome {
            Err(detail) => Err(ApiErrorView::UserQueryFailure(detail)),
            Ok(reply) => match instruments_in(reply.body) {
                Some(instruments) => Ok(instruments),
                None => Err(ApiErrorView::UserQueryFailure(UNREADABLE_ANSWER@)),
            },
        }
    }

    /// Takes in what came of the wallet query. A reply is absorbed.
    pub fn get_funding_instruments(&mut self, outcome: Result<Reply, String>) -> (instruments:
        Result<Vec<FundingInstrument>, ApiError>)
        requires
            old(self)@.state == SessionState::Ready,
        ensures
            final(self)@ == old(self)@.answered(outcome_view(outcome)),
            result_view(instruments) == Self::wallet_result(outcome_view(outcome)),
    {
        match outcome {
            Err(detail) => Err(ApiError::UserQueryFailure(detail)),
            Ok(reply) => {
                self.set_cookies(&reply.set_cookies);
                match read_instruments(reply.body.as_str()) {
                    Some(instruments) => Ok(instruments),
                    None => Err(ApiError::UserQueryFailure(String::from_str(UNREADABLE_ANSWER))),
                }
            },
        }
    }

    /// The request that asks whether `amount_in_cents` may be paid to the
    /// user `user_id` with the note `note`.
    pub fn fetch_eligibility_request(&self, amount_in_cents: u32, note: &str, user_id: &str) -> (request:
        Request)
        requires
            self@.state == SessionState::Ready,
        ensures
            request@ == request::eligibility_request(
                self@.csrf,
                amount_in_cents,
                note@,
                user_id@,
            ),
    {
        request::eligibility(self.csrf.as_str(), amount_in_cents, note, user_id)
    }

    /// What an eligibility check that ended with `outcome` gives: the answer
    /// in the body of the reply, or a `PaymentSendFailure` for an exchange
    /// that failed or an answer that cannot be read.
    pub open spec fn eligibility_result(outcome: OutcomeView) -> Result<
        EligibilityView,
        ApiErrorView,
    > {
        match outcome {
            Err(detail) => Err(ApiErrorView::PaymentSendFailure(detail)),
            Ok(reply) => match Eligibility::in_body(reply.body) {
                Some(answer) => Ok(answer),
                None => Err(ApiErrorView::PaymentSendFailure(UNREADABLE_ANSWER@)),
            },
        }
    }

    /// Takes in what came of an eligibility check. A reply is absorbed.
    pub fn fetch_eligibility(&mut self, outcome: Result<Reply, String>) -> (answer: Result<
        Eligibility,
        ApiError,
    >)
        requires
            old(self)@.state == SessionState::Ready,
        ensures
            final(self)@ == old(self)@.answered(outcome_view(outcome)),
            result_view(answer) == Self::eligibility_result(outcome_view(outcome)),
    {
        match outcome {
            Err(detail) => Err(ApiError::PaymentSendFailure(detail)),
            Ok(reply) => {
                self.set_cookies(&reply.set_cookies);
                match Eligibility::from_body(reply.body.as_str()) {
                    Some(answer) => Ok(answer),
                    None => Err(ApiError::PaymentSendFailure(String::from_str(UNREADABLE_ANSWER))),
                }
            },
        }
    }
}

} // verus!
