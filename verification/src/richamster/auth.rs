//! The authentication service: logging in, registering, and renewing a
//! token. Its calls carry no proof of identity: they are how one is got.

use vstd::prelude::*;
use crate::api::address::url_string;
use crate::api::{Api, AuthenticationApi, Method, RequestData};
use crate::errors::RichamsterError;
use crate::models::auth::{LoginResponse, OtpLogin, OtpLoginResponse, RefreshToken, TokenData};
use crate::richamster::common::AuthState;
use crate::richamster::request::{endpoint, plans, target, Call};
use crate::richamster::response::{ErrorShape, Outcome, StatusTable, UNAUTHORIZED};

verus! {

pub struct Auth;

/// The table of the login: a success without a body asks for the second
/// factor, a success with a body brings the tokens.
pub open spec fn login_outcomes() -> Map<u16, Outcome> {
    map![
        UNAUTHORIZED => Outcome::Unauthorized,
        200u16 => Outcome::Empty,
        201u16 => Outcome::Success,
        503u16 => Outcome::ServiceUnavailable,
        400u16 => Outcome::Rejected(ErrorShape::Login),
        403u16 => Outcome::Rejected(ErrorShape::InvalidCredential),
    ]
}

/// The table of the registration.
pub open spec fn register_outcomes() -> Map<u16, Outcome> {
    map![
        UNAUTHORIZED => Outcome::Unauthorized,
        201u16 => Outcome::Success,
        400u16 => Outcome::Rejected(ErrorShape::Register),
    ]
}

/// The table of the login with the second factor.
pub open spec fn two_factor_outcomes() -> Map<u16, Outcome> {
    map![
        UNAUTHORIZED => Outcome::Unauthorized,
        201u16 => Outcome::Success,
        400u16 => Outcome::Rejected(ErrorShape::Otp),
    ]
}

/// The table of the renewal of a token.
pub open spec fn refresh_outcomes() -> Map<u16, Outcome> {
    map![
        UNAUTHORIZED => Outcome::Unauthorized,
        200u16 => Outcome::Success,
        400u16 => Outcome::Rejected(ErrorShape::InvalidJwtToken),
    ]
}

impl Auth {
    /// The call to an endpoint of this service: `payload` is sent as JSON,
    /// without a proof of identity.
    fn send_request(api: Api, payload: String, outcomes: StatusTable) -> (call: Result<
        Call,
        RichamsterError,
    >)
        ensures
            plans(
                call,
                target(api, None, Seq::empty()),
                api.method(),
                AuthState::Unauthorized,
                Some(payload@),
                outcomes@,
            ),
    {
        let RequestData(url, method) = match endpoint(api) {
            Ok(found) => found,
            Err(e) => {
                return Err(e);
            },
        };
        Ok(
            Call::signed_with_body(
                url_string(&url),
                method,
                &AuthState::Unauthorized,
                payload,
                outcomes,
            ),
        )
    }

    /// The call that logs in. `login` is a `Login` written as JSON.
    pub fn login(login: String) -> (call: Result<Call, RichamsterError>)
        ensures
            plans(
                call,
                target(Api::Authentication(AuthenticationApi::Login), None, Seq::empty()),
                Method::POST,
                AuthState::Unauthorized,
                Some(login@),
                login_outcomes(),
            ),
    {
        let outcomes = StatusTable::new().with(200, Outcome::Empty).with(
            201,
            Outcome::Success,
        ).with(503, Outcome::ServiceUnavailable).with(
            400,
            Outcome::Rejected(ErrorShape::Login),
        ).with(403, Outcome::Rejected(ErrorShape::InvalidCredential));
        assert(outcomes@ =~= login_outcomes());
        Auth::send_request(Api::Authentication(AuthenticationApi::Login), login, outcomes)
    }

    /// How a login ended, from what its response was read as: without a
    /// body the second factor is asked for, with one the access token is
    /// there.
    pub fn login_response(decoded: Option<TokenData>) -> (response: LoginResponse)
        ensures
            match decoded {
                None => response == LoginResponse::RequiresTwoFactor(true),
                Some(token) => response == LoginResponse::Jwt(token.access),
            },
    {
        match decoded {
            None => LoginResponse::RequiresTwoFactor(true),
            Some(token) => LoginResponse::Jwt(token.access),
        }
    }

    /// The call that registers a user. `register_user` is a `RegisterUser`
    /// written as JSON.
    pub fn register_user(register_user: String) -> (call: Result<Call, RichamsterError>)
        ensures
            plans(
                call,
                target(Api::Authentication(AuthenticationApi::Register), None, Seq::empty()),
                Method::POST,
                AuthState::Unauthorized,
                Some(register_user@),
                register_outcomes(),
            ),
    {
        let outcomes = StatusTable::new().with(201, Outcome::Success).with(
            400,
            Outcome::Rejected(ErrorShape::Register),
        );
        assert(outcomes@ =~= register_outcomes());
        Auth::send_request(
            Api::Authentication(AuthenticationApi::Register),
            register_user,
            outcomes,
        )
    }

    /// What is sent to log in with the second factor.
    pub fn otp_login(otp_token: String) -> (login: OtpLogin)
        ensures
            login.otp_token == otp_token,
    {
        OtpLogin { otp_token }
    }

    /// The call that logs in with the second factor. `otp_login` is what
    /// `otp_login` returns, written as JSON.
    pub fn two_factor_login(otp_login: String) -> (call: Result<Call, RichamsterError>)
        ensures
            plans(
                call,
                target(Api::Authentication(AuthenticationApi::TwoFactorLogin), None, Seq::empty()),
                Method::POST,
                AuthState::Unauthorized,
                Some(otp_login@),
                two_factor_outcomes(),
            ),
    {
        let outcomes = StatusTable::new().with(201, Outcome::Success).with(
            400,
            Outcome::Rejected(ErrorShape::Otp),
        );
        assert(outcomes@ =~= two_factor_outcomes());
        Auth::send_request(
            Api::Authentication(AuthenticationApi::TwoFactorLogin),
            otp_login,
            outcomes,
        )
    }

    /// How a login with the second factor ended: with the access token.
    pub fn two_factor_response(token: TokenData) -> (response: OtpLoginResponse)
        ensures
            response == OtpLoginResponse::Jwt(token.access),
    {
        OtpLoginResponse::Jwt(token.access)
    }

    /// What is sent to renew a token.
    pub fn refresh(jwt_token: String) -> (refresh: RefreshToken)
        ensures
            refresh.refresh == jwt_token,
    {
        RefreshToken { refresh: jwt_token }
    }

    /// The call that renews a token. `refresh` is what `refresh` returns,
    /// written as JSON.
    pub fn refresh_token(refresh: String) -> (call: Result<Call, RichamsterError>)
        ensures
            plans(
                call,
                target(Api::Authentication(AuthenticationApi::RefreshToken), None, Seq::empty()),
                Method::POST,
                AuthState::Unauthorized,
                Some(refresh@),
                refresh_outcomes(),
            ),
    {
        let outcomes = StatusTable::new().with(200, Outcome::Success).with(
            400,
            Outcome::Rejected(ErrorShape::InvalidJwtToken),
        );
        assert(outcomes@ =~= refresh_outcomes());
        Auth::send_request(Api::Authentication(AuthenticationApi::RefreshToken), refresh, outcomes)
    }
}

} // verus!
