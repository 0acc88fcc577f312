//! What can go wrong with a call.

use vstd::prelude::*;
use vstd::std_specs::convert::FromSpecImpl;
use url::ParseError;
use crate::api::token::{CurrencyPair, Token};
use crate::models::auth::{
    LoginResponseError, NonFieldsError, OtpLoginResponseError, RegisterUserError,
};
use crate::models::exchange::NewOrderError;
use crate::models::feedback::ContactUsError;
use crate::models::withdraw::WithdrawError;

verus! {

#[verifier::external_type_specification]
#[verifier::external_body]
pub struct ExTransportError(reqwest::Error);

#[verifier::external_type_specification]
#[verifier::external_body]
pub struct ExJsonError(serde_json::Error);

/// Why a call gave no result. Every failure is handed to the caller with
/// what is needed to show it: nothing is retried and nothing is dropped.
#[derive(Debug)]
pub enum RichamsterError {
    /// The request could not be sent, or the response could not be read.
    Reqwest(reqwest::Error),
    /// The exchange knows no active account with these credentials.
    InvalidCredential(LoginResponseError),
    /// The exchange did not accept the proof of identity.
    UnauthorizedAccess,
    InvalidAuthorizationType,
    /// The exchange refused a login for what its fields hold.
    Login(LoginResponseError),
    /// The exchange refused the second factor.
    Otp(OtpLoginResponseError),
    /// The status was one that the endpoint knows, but the body did not have
    /// the shape that belongs to it.
    Serde(serde_json::Error),
    /// The exchange refused a registration.
    Register(RegisterUserError),
    /// The status is none that the endpoint knows. The status and the body
    /// are kept as they came.
    UnsupportedResponseCode(u16, String),
    ContactUs(ContactUsError),
    /// The exchange has no market for the pair.
    IllegalCurrencyPair(CurrencyPair),
    ServiceUnavailable,
    /// An address could not be formed.
    UrlParse(ParseError),
    /// The exchange refused to renew a token.
    InvalidJwtToken(NonFieldsError),
    /// The exchange knows no order with this number.
    OrderNotFound(i32),
    WithdrawError(WithdrawError),
    NewOrderError(NewOrderError),
    /// The exchange has nothing on replenishing the currency through the
    /// channel.
    ReplenishInfoNotFound(Token, String),
}

impl FromSpecImpl<reqwest::Error> for RichamsterError {
    open spec fn obeys_from_spec() -> bool {
        true
    }

    open spec fn from_spec(error: reqwest::Error) -> RichamsterError {
        RichamsterError::Reqwest(error)
    }
}

impl From<reqwest::Error> for RichamsterError {
    fn from(error: reqwest::Error) -> (wrapped: RichamsterError) {
        RichamsterError::Reqwest(error)
    }
}

impl FromSpecImpl<serde_json::Error> for RichamsterError {
    open spec fn obeys_from_spec() -> bool {
        true
    }

    open spec fn from_spec(error: serde_json::Error) -> RichamsterError {
        RichamsterError::Serde(error)
    }
}

impl From<serde_json::Error> for RichamsterError {
    fn from(error: serde_json::Error) -> (wrapped: RichamsterError) {
        RichamsterError::Serde(error)
    }
}

impl FromSpecImpl<ParseError> for RichamsterError {
    open spec fn obeys_from_spec() -> bool {
        true
    }

    open spec fn from_spec(error: ParseError) -> RichamsterError {
        RichamsterError::UrlParse(error)
    }
}

impl From<ParseError> for RichamsterError {
    fn from(error: ParseError) -> (wrapped: RichamsterError) {
        RichamsterError::UrlParse(error)
    }
}

} // verus!
