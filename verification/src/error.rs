//! The error kinds that the operations of this crate report.

use vstd::prelude::*;
use vstd::string::StringExecFns;

verus! {

/// What went wrong in an operation. Each kind carries a detail text.
#[derive(Debug)]
pub enum ApiError {
    /// Cookies or the anti-forgery token could not be set up at startup.
    SessionInitFailure(String),
    /// No anti-forgery token could be read from a page expected to hold one.
    CsrfFetchFailure(String),
    /// The login exchange, or a page of the feed, failed or was unreadable.
    LoginFailure(String),
    /// An identity was needed and none had been fetched.
    Unauthorized(String),
    /// The logout request could not be sent.
    LogoutFailure(String),
    /// The eligibility check or the payment failed, or the payment is not allowed.
    PaymentSendFailure(String),
    /// A search or wallet query failed or was unreadable.
    UserQueryFailure(String),
    /// A search completed and matched nobody.
    UserNotFound(String),
}

/// The mathematical value of an `ApiError`.
pub enum ApiErrorView {
    SessionInitFailure(Seq<char>),
    CsrfFetchFailure(Seq<char>),
    LoginFailure(Seq<char>),
    Unauthorized(Seq<char>),
    LogoutFailure(Seq<char>),
    PaymentSendFailure(Seq<char>),
    UserQueryFailure(Seq<char>),
    UserNotFound(Seq<char>),
}

impl View for ApiError {
    type V = ApiErrorView;

    open spec fn view(&self) -> ApiErrorView {
        match self {
            ApiError::SessionInitFailure(e) => ApiErrorView::SessionInitFailure(e@),
            ApiError::CsrfFetchFailure(e) => ApiErrorView::CsrfFetchFailure(e@),
            ApiError::LoginFailure(e) => ApiErrorView::LoginFailure(e@),
            ApiError::Unauthorized(e) => ApiErrorView::Unauthorized(e@),
            ApiError::LogoutFailure(e) => ApiErrorView::LogoutFailure(e@),
            ApiError::PaymentSendFailure(e) => ApiErrorView::PaymentSendFailure(e@),
            ApiError::UserQueryFailure(e) => ApiErrorView::UserQueryFailure(e@),
            ApiError::UserNotFound(e) => ApiErrorView::UserNotFound(e@),
        }
    }
}

impl DeepView for ApiError {
    type V = ApiErrorView;

    open spec fn deep_view(&self) -> ApiErrorView {
        self@
    }
}

/// The mathematical value of what an operation gives: that of its result, or
/// that of its error.
pub open spec fn result_view<T: DeepView>(result: Result<T, ApiError>) -> Result<
    T::V,
    ApiErrorView,
> {
    match result {
        Ok(value) => Ok(value.deep_view()),
        Err(error) => Err(error@),
    }
}

impl ApiError {
    /// The detail text carried by the error.
    pub open spec fn detail(self) -> Seq<char> {
        match self {
            ApiError::SessionInitFailure(e) => e@,
            ApiError::CsrfFetchFailure(e) => e@,
            ApiError::LoginFailure(e) => e@,
            ApiError::Unauthorized(e) => e@,
            ApiError::LogoutFailure(e) => e@,
            ApiError::PaymentSendFailure(e) => e@,
            ApiError::UserQueryFailure(e) => e@,
            ApiError::UserNotFound(e) => e@,
        }
    }

    /// The fixed text that introduces an error of this kind to the user.
    pub open spec fn headline(self) -> Seq<char> {
        match self {
            ApiError::SessionInitFailure(_) => "session setup failed! "@,
            ApiError::CsrfFetchFailure(_) => "failed to fetch csrf token! "@,
            ApiError::LoginFailure(_) => "login failed! please retry... "@,
            ApiError::Unauthorized(_) => "unauthorized! "@,
            ApiError::LogoutFailure(_) => "logout failed! please retry... "@,
            ApiError::PaymentSendFailure(_) => "payment request failed! please retry... "@,
            ApiError::UserQueryFailure(_) => "failed to query user! please retry... "@,
            ApiError::UserNotFound(_) => "no such user! "@,
        }
    }

    /// The message shown to the user: the headline followed by the detail.
    pub open spec fn message(self) -> Seq<char> {
        self.headline() + self.detail()
    }

    /// Renders the error as the message shown to the user.
    pub fn to_string(&self) -> (text: String)
        ensures
            text@ == self.message(),
    {
        match self {
            ApiError::SessionInitFailure(e) => String::from_str("session setup failed! ").concat(
                e.as_str(),
            ),
            ApiError::CsrfFetchFailure(e) => String::from_str(
                "failed to fetch csrf token! ",
            ).concat(e.as_str()),
            ApiError::LoginFailure(e) => String::from_str("login failed! please retry... ").concat(
                e.as_str(),
            ),
            ApiError::Unauthorized(e) => String::from_str("unauthorized! ").concat(e.as_str()),
            ApiError::LogoutFailure(e) => String::from_str(
                "logout failed! please retry... ",
            ).concat(e.as_str()),
            ApiError::PaymentSendFailure(e) => String::from_str(
                "payment request failed! please retry... ",
            ).concat(e.as_str()),
            ApiError::UserQueryFailure(e) => String::from_str(
                "failed to query user! please retry... ",
            ).concat(e.as_str()),
            ApiError::UserNotFound(e) => String::from_str("no such user! ").concat(e.as_str()),
        }
    }
}

} // verus!
