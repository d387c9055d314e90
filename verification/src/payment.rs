//! Paying and asking for money: one exchange for a request for money, two
//! for a payment, which the server must first find eligible.
//!
//! `Api::submit_payment` begins a submission and gives its first request.
//! What comes back goes to `Api::submit_payment_reply`, which answers with the
//! submission itself where an eligibility check allowed it, with the
//! settlement, or with the error that ended the attempt. Nothing is retried.

use crate::answers::UNREADABLE_ANSWER;
use crate::api::{outcome_view, Api, OutcomeView, Reply, Session, SessionState};
use crate::error::{ApiError, ApiErrorView};
use crate::request;
use crate::request::{
    eligibility_request, payment_request, Audience, BodyView, PaymentQuery, PaymentQueryView,
    PaymentType, Request, RequestView, TargetUserDetails,
};
use crate::types::{Eligibility, EligibilityView, PayRequestResponse, PayRequestResponseView};
use vstd::prelude::*;
use vstd::string::StringExecFns;

verus! {

/// The detail of the error for a payment that the server does not allow.
pub const NOT_ELIGIBLE: &'static str = "not eligible";

/// What a submission waits for.
#[derive(Debug, Clone, Copy, PartialEq, Eq, Structural)]
pub enum PaymentPhase {
    /// The server was asked whether the payment may be made.
    AwaitingEligibility,
    /// The payment, or the request for money, was submitted.
    AwaitingSettlement,
}

/// A submission that is under way.
#[derive(Debug)]
pub struct Payment {
    amount_in_cents: u32,
    note: String,
    user_id: String,
    payment_type: PaymentType,
    funding_source_id: Option<String>,
    phase: PaymentPhase,
}

/// The mathematical value of a submission.
pub struct PaymentView {
    pub amount_in_cents: u32,
    pub note: Seq<char>,
    pub user_id: Seq<char>,
    pub payment_type: PaymentType,
    pub funding_source_id: Option<Seq<char>>,
    pub phase: PaymentPhase,
}

impl View for Payment {
    type V = PaymentView;

    closed spec fn view(&self) -> PaymentView {
        PaymentView {
            amount_in_cents: self.amount_in_cents,
            note: self.note@,
            user_id: self.user_id@,
            payment_type: self.payment_type,
            funding_source_id: self.funding_source_id.deep_view(),
            phase: self.phase,
        }
    }
}

/// What a submission does next.
#[derive(Debug)]
pub enum PaymentStep {
    /// The payment may be made: it is submitted with this request.
    Submit(Payment, Request),
    /// The server took the submission: its answer.
    Settled(PayRequestResponse),
    /// The attempt ended with an error.
    Failed(ApiError),
}

/// The mathematical value of a `PaymentStep`.
pub enum PaymentStepView {
    Submit(PaymentView, RequestView),
    Settled(PayRequestResponseView),
    Failed(ApiErrorView),
}

impl View for PaymentStep {
    type V = PaymentStepView;

    open spec fn view(&self) -> PaymentStepView {
        match self {
            PaymentStep::Submit(payment, request) => PaymentStepView::Submit(payment@, request@),
            PaymentStep::Settled(answer) => PaymentStepView::Settled(answer@),
            PaymentStep::Failed(error) => PaymentStepView::Failed(error@),
        }
    }
}

/// Whether `request` asks the server if a payment may be made.
pub open spec fn is_eligibility_check(request: RequestView) -> bool {
    request.body is Eligibility
}

/// Whether `request` submits a payment or a request for money.
pub open spec fn is_submission(request: RequestView) -> bool {
    request.body is Payment
}

/// What a submission that ended with `outcome` gives: the answer in the body
/// of the reply, or a `PaymentSendFailure` for an exchange that failed or an
/// answer that cannot be read.
pub open spec fn settlement_result(outcome: OutcomeView) -> Result<
    PayRequestResponseView,
    ApiErrorView,
> {
    match outcome {
        Err(detail) => Err(ApiErrorView::PaymentSendFailure(detail)),
        Ok(reply) => match PayRequestResponse::in_body(reply.body) {
            Some(answer) => Ok(answer),
            None => Err(ApiErrorView::PaymentSendFailure(UNREADABLE_ANSWER@)),
        },
    }
}

impl PaymentView {
    /// The body of the submission, with the eligibility token `token`.
    pub open spec fn query(self, token: Option<Seq<char>>) -> PaymentQueryView {
        PaymentQueryView {
            amount_in_cents: self.amount_in_cents,
            audience: Audience::Private,
            note: self.note,
            user_id: self.user_id,
            payment_type: self.payment_type,
            eligibility_token: token,
            funding_source_id: self.funding_source_id,
        }
    }

    /// The submission in another phase.
    pub open spec fn waiting_for(self, phase: PaymentPhase) -> PaymentView {
        PaymentView { phase, ..self }
    }

    /// How a submission begins: a payment with the eligibility check, a
    /// request for money with the submission itself, which carries no token.
    pub open spec fn begin(
        csrf: Seq<char>,
        amount_in_cents: u32,
        note: Seq<char>,
        user_id: Seq<char>,
        payment_type: PaymentType,
        funding_source_id: Option<Seq<char>>,
    ) -> (PaymentView, RequestView) {
        let payment = PaymentView {
            amount_in_cents,
            note,
            user_id,
            payment_type,
            funding_source_id,
            phase: PaymentPhase::AwaitingEligibility,
        };
        match payment_type {
            PaymentType::Pay => (
                payment,
                eligibility_request(csrf, amount_in_cents, note, user_id),
            ),
            PaymentType::Request => (
                payment.waiting_for(PaymentPhase::AwaitingSettlement),
                payment_request(csrf, payment.query(None)),
            ),
        }
    }

    /// What the submission does with the answer to the eligibility check:
    /// the payment is submitted if and only if the answer grants it, that is,
    /// the server found it eligible and sent a token. The submission then
    /// carries that token, and is guarded by the anti-forgery token `csrf`.
    /// Any other answer is a `PaymentSendFailure`.
    pub open spec fn with_eligibility(self, answer: EligibilityView, csrf: Seq<char>)
        -> PaymentStepView {
        match answer.granted() {
            Some(token) => PaymentStepView::Submit(
                self.waiting_for(PaymentPhase::AwaitingSettlement),
                payment_request(csrf, self.query(Some(token))),
            ),
            None => PaymentStepView::Failed(ApiErrorView::PaymentSendFailure(NOT_ELIGIBLE@)),
        }
    }

    /// What the submission does after the request it waits for ended with
    /// `outcome`, in a session that was `session` before.
    ///
    /// An eligibility check that failed, or whose answer cannot be read, is
    /// a `PaymentSendFailure`; an answer that can be read decides as
    /// `with_eligibility` tells. After the submission, the answer of the
    /// server ends the attempt.
    pub open spec fn step(self, session: Session, outcome: OutcomeView) -> PaymentStepView {
        match self.phase {
            PaymentPhase::AwaitingEligibility => match Api::eligibility_result(outcome) {
                Err(error) => PaymentStepView::Failed(error),
                Ok(answer) => self.with_eligibility(answer, session.answered(outcome).csrf),
            },
            PaymentPhase::AwaitingSettlement => match settlement_result(outcome) {
                Ok(answer) => PaymentStepView::Settled(answer),
                Err(error) => PaymentStepView::Failed(error),
            },
        }
    }

    /// The requests that the submission makes from here on, when those
    /// exchanges end with `outcomes`, in their order.
    pub open spec fn requests_after(self, session: Session, outcomes: Seq<OutcomeView>) -> Seq<
        RequestView,
    >
        decreases outcomes.len(),
    {
        if outcomes.len() == 0 {
            Seq::empty()
        } else {
            match self.step(session, outcomes[0]) {
                PaymentStepView::Submit(next, request) => seq![request] + next.requests_after(
                    session.answered(outcomes[0]),
                    outcomes.drop_first(),
                ),
                _ => Seq::empty(),
            }
        }
    }
}

/// Every request that a submission makes when it is begun in `session` and
/// its exchanges end with `outcomes`, in their order.
pub open spec fn requests_made(
    session: Session,
    amount_in_cents: u32,
    note: Seq<char>,
    user_id: Seq<char>,
    payment_type: PaymentType,
    funding_source_id: Option<Seq<char>>,
    outcomes: Seq<OutcomeView>,
) -> Seq<RequestView> {
    let begun = PaymentView::begin(
        session.csrf,
        amount_in_cents,
        note,
        user_id,
        payment_type,
        funding_source_id,
    );
    seq![begun.1] + begun.0.requests_after(session, outcomes)
}

/// Once a submission is made, no request follows it.
pub proof fn lemma_nothing_follows_a_submission(
    payment: PaymentView,
    session: Session,
    outcomes: Seq<OutcomeView>,
)
    requires
        payment.phase == PaymentPhase::AwaitingSettlement,
    ensures
        payment.requests_after(session, outcomes) == Seq::<RequestView>::empty(),
{
}

/// A payment that the server does not find eligible is never submitted:
/// whatever comes after the answer to the eligibility check, the check is the
/// only request made.
pub proof fn lemma_ineligible_payment_is_never_submitted(
    session: Session,
    amount_in_cents: u32,
    note: Seq<char>,
    user_id: Seq<char>,
    funding_source_id: Option<Seq<char>>,
    outcomes: Seq<OutcomeView>,
)
    requires
        outcomes.len() > 0,
        outcomes[0] is Ok,
        Eligibility::in_body(outcomes[0]->Ok_0.body) is Some,
        !Eligibility::in_body(outcomes[0]->Ok_0.body)->0.eligible,
    ensures
        forall|i: int|
            0 <= i < requests_made(
                session,
                amount_in_cents,
                note,
                user_id,
                PaymentType::Pay,
                funding_source_id,
                outcomes,
            ).len() ==> !is_submission(
                #[trigger] requests_made(
                    session,
                    amount_in_cents,
                    note,
                    user_id,
                    PaymentType::Pay,
                    funding_source_id,
                    outcomes,
                )[i],
            ),
{
}

/// A request for money never asks whether it is eligible: whatever comes
/// back, the submission is the only request made, and it carries no token.
pub proof fn lemma_request_never_checks_eligibility(
    session: Session,
    amount_in_cents: u32,
    note: Seq<char>,
    user_id: Seq<char>,
    funding_source_id: Option<Seq<char>>,
    outcomes: Seq<OutcomeView>,
)
    ensures
        forall|i: int|
            0 <= i < requests_made(
                session,
                amount_in_cents,
                note,
                user_id,
                PaymentType::Request,
                funding_source_id,
                outcomes,
            ).len() ==> !is_eligibility_check(
                #[trigger] requests_made(
                    session,
                    amount_in_cents,
                    note,
                    user_id,
                    PaymentType::Request,
                    funding_source_id,
                    outcomes,
                )[i],
            ),
        requests_made(
            session,
            amount_in_cents,
            note,
            user_id,
            PaymentType::Request,
            funding_source_id,
            outcomes,
        ).len() == 1,
        requests_made(
            session,
            amount_in_cents,
            note,
            user_id,
            PaymentType::Request,
            funding_source_id,
            outcomes,
        )[0].body matches BodyView::Payment(query) && query.eligibility_token is None,
{
    let begun = PaymentView::begin(
        session.csrf,
        amount_in_cents,
        note,
        user_id,
        PaymentType::Request,
        funding_source_id,
    );
    lemma_nothing_follows_a_submission(begun.0, session, outcomes);
}

/// Every submission obeys the rule on eligibility tokens, and a payment is
/// submitted only with the token that the answer just before it granted.
pub proof fn lemma_submissions_are_well_formed(
    session: Session,
    amount_in_cents: u32,
    note: Seq<char>,
    user_id: Seq<char>,
    payment_type: PaymentType,
    funding_source_id: Option<Seq<char>>,
    outcomes: Seq<OutcomeView>,
)
    ensures
        forall|i: int|
            0 <= i < requests_made(
                session,
                amount_in_cents,
                note,
                user_id,
                payment_type,
                funding_source_id,
                outcomes,
            ).len() ==> match (#[trigger] requests_made(
                session,
                amount_in_cents,
                note,
                user_id,
                payment_type,
                funding_source_id,
                outcomes,
            )[i]).body {
                BodyView::Payment(query) => {
                    &&& query.well_formed()
                    &&& payment_type == PaymentType::Pay ==> i == 1
                        && Api::eligibility_result(outcomes[0]) is Ok && query.eligibility_token
                        == Api::eligibility_result(outcomes[0])->Ok_0.granted()
                },
                _ => true,
            },
{
    let begun = PaymentView::begin(
        session.csrf,
        amount_in_cents,
        note,
        user_id,
        payment_type,
        funding_source_id,
    );
    match payment_type {
        PaymentType::Request => {
            lemma_nothing_follows_a_submission(begun.0, session, outcomes);
        },
        PaymentType::Pay => {
            if outcomes.len() > 0 {
                match begun.0.step(session, outcomes[0]) {
                    PaymentStepView::Submit(next, _) => {
                        lemma_nothing_follows_a_submission(
                            next,
                            session.answered(outcomes[0]),
                            outcomes.drop_first(),
                        );
                    },
                    _ => {},
                }
            }
        },
    }
}

fn copy_of(text: &Option<String>) -> (copy: Option<String>)
    ensures
        copy == *text,
{
    match text {
        Some(t) => Some(t.clone()),
        None => None,
    }
}

impl Payment {
    /// Begins a submission, guarded by the anti-forgery token `csrf`, and
    /// gives its first request.
    pub fn begin(
        csrf: &str,
        amount_in_cents: u32,
        note: &str,
        user_id: &str,
        payment_type: PaymentType,
        funding_source_id: Option<&str>,
    ) -> (begun: (Payment, Request))
        ensures
            (begun.0@, begun.1@) == PaymentView::begin(
                csrf@,
                amount_in_cents,
                note@,
                user_id@,
                payment_type,
                funding_source_id.deep_view(),
            ),
    {
        let funding_source_id = match funding_source_id {
            Some(id) => Some(String::from_str(id)),
            None => None,
        };
        let mut payment = Payment {
            amount_in_cents,
            note: String::from_str(note),
            user_id: String::from_str(user_id),
            payment_type,
            funding_source_id,
            phase: PaymentPhase::AwaitingEligibility,
        };
        match payment_type {
            PaymentType::Pay => {
                let request = request::eligibility(csrf, amount_in_cents, note, user_id);
                (payment, request)
            },
            PaymentType::Request => {
                let query = payment.query(None);
                payment.phase = PaymentPhase::AwaitingSettlement;
                let request = request::payment(csrf, query);
                (payment, request)
            },
        }
    }

    /// Takes in the answer to the eligibility check, and tells what the
    /// submission does next.
    pub fn take_eligibility(self, answer: Eligibility, csrf: &str) -> (step: PaymentStep)
        requires
            self@.phase == PaymentPhase::AwaitingEligibility,
        ensures
            step@ == self@.with_eligibility(answer@, csrf@),
    {
        match answer.grant() {
            Some(token) => {
                let query = self.query(Some(token));
                let mut payment = self;
                payment.phase = PaymentPhase::AwaitingSettlement;
                let request = request::payment(csrf, query);
                PaymentStep::Submit(payment, request)
            },
            None => PaymentStep::Failed(
                ApiError::PaymentSendFailure(String::from_str(NOT_ELIGIBLE)),
            ),
        }
    }

    /// What the submission waits for.
    pub fn phase(&self) -> (phase: PaymentPhase)
        ensures
            phase == self@.phase,
    {
        self.phase
    }

    fn query(&self, token: Option<String>) -> (query: PaymentQuery)
        ensures
            query@ == self@.query(token.deep_view()),
    {
        PaymentQuery {
            amount_in_cents: self.amount_in_cents,
            audience: Audience::Private,
            note: self.note.clone(),
            target_user_details: TargetUserDetails { user_id: self.user_id.clone() },
            payment_type: self.payment_type,
            eligibility_token: token,
            funding_source_id: copy_of(&self.funding_source_id),
        }
    }
}

impl Api {
    /// Begins the submission of a payment of `amount_in_cents` to the user
    /// `user_id`, or of a request for that amount from them, and gives the
    /// first request to make: the eligibility check for a payment, the
    /// submission itself for a request for money.
    pub fn submit_payment(
        &self,
        amount_in_cents: u32,
        note: &str,
        user_id: &str,
        payment_type: PaymentType,
        funding_source_id: Option<&str>,
    ) -> (begun: (Payment, Request))
        requires
            self@.state == SessionState::Ready,
        ensures
            (begun.0@, begun.1@) == PaymentView::begin(
                self@.csrf,
                amount_in_cents,
                note@,
                user_id@,
                payment_type,
                funding_source_id.deep_view(),
            ),
    {
        Payment::begin(
            self.csrf(),
            amount_in_cents,
            note,
            user_id,
            payment_type,
            funding_source_id,
        )
    }

    /// Takes in what came of the request that `payment` waits for, and tells
    /// what the submission does next. A reply is absorbed.
    pub fn submit_payment_reply(&mut self, payment: Payment, outcome: Result<Reply, String>) -> (step:
        PaymentStep)
        requires
            old(self)@.state == SessionState::Ready,
        ensures
            final(self)@ == old(self)@.answered(outcome_view(outcome)),
            step@ == payment@.step(old(self)@, outcome_view(outcome)),
    {
        match payment.phase {
            PaymentPhase::AwaitingEligibility => match self.fetch_eligibility(outcome) {
                Err(error) => PaymentStep::Failed(error),
                Ok(answer) => payment.take_eligibility(answer, self.csrf()),
            },
            PaymentPhase::AwaitingSettlement => match outcome {
                Err(detail) => PaymentStep::Failed(ApiError::PaymentSendFailure(detail)),
                Ok(reply) => {
                    self.set_cookies(&reply.set_cookies);
                    match PayRequestResponse::from_body(reply.body.as_str()) {
                        Some(answer) => PaymentStep::Settled(answer),
                        None => PaymentStep::Failed(
                            ApiError::PaymentSendFailure(String::from_str(UNREADABLE_ANSWER)),
                        ),
                    }
                },
            },
        }
    }
}

} // verus!
