//! The withdrawal service for withdrawals that name a channel.
//!
//! The list of endpoints has no entry of its own for these calls: the caller
//! names the endpoint at which each one is made.

use vstd::prelude::*;
use crate::api::address::url_string;
use crate::api::token::Token;
use crate::api::{Api, RequestData};
use crate::errors::RichamsterError;
use crate::richamster::common::{ApiKey, AuthState, JwtToken, SecretKey};
use crate::richamster::request::{endpoint, plans, resolve, standard_outcomes, target, Call};
use crate::richamster::response::{ErrorShape, Outcome, StatusTable, UNAUTHORIZED};

verus! {

/// A client of the withdrawal service. Its proof of identity is chosen when
/// it is made and stays the same for all its calls.
#[derive(Debug, Clone)]
pub struct Withdraw {
    auth_state: AuthState,
}

/// The table of the endpoint that withdraws funds through a channel.
pub open spec fn channel_withdraw_outcomes() -> Map<u16, Outcome> {
    map![
        UNAUTHORIZED => Outcome::Unauthorized,
        200u16 => Outcome::Success,
        400u16 => Outcome::Rejected(ErrorShape::WithdrawFields),
        403u16 => Outcome::Rejected(ErrorShape::WithdrawDetail),
    ]
}

impl Default for Withdraw {
    fn default() -> (client: Self)
        ensures
            client.auth() is Unauthorized,
    {
        Withdraw { auth_state: AuthState::Unauthorized }
    }
}

impl Withdraw {
    /// The client's proof of identity.
    pub closed spec fn auth(&self) -> AuthState {
        self.auth_state
    }

    pub fn auth_state(&self) -> (auth_state: &AuthState)
        ensures
            *auth_state == self.auth(),
    {
        &self.auth_state
    }

    /// A client that presents a bearer token.
    pub fn with_jwt_token(token: String) -> (client: Self)
        ensures
            client.auth() matches AuthState::JwtTokenAuth(held) && held@ == token@,
    {
        Withdraw { auth_state: AuthState::JwtTokenAuth(JwtToken::new(token)) }
    }

    /// A client that signs with a key pair.
    pub fn with_keys(api_key: String, secret_key: String) -> (client: Self)
        ensures
            client.auth() matches AuthState::ApiSecretKeyAuth(api, secret) && api@ == api_key@
                && secret@ == secret_key@,
    {
        Withdraw {
            auth_state: AuthState::ApiSecretKeyAuth(
                ApiKey::new(api_key),
                SecretKey::new(secret_key),
            ),
        }
    }

    /// A client without credentials.
    pub fn new() -> (client: Self)
        ensures
            client.auth() is Unauthorized,
    {
        Withdraw { auth_state: AuthState::Unauthorized }
    }

    /// The call that asks what withdrawing a currency costs and through
    /// which channels it can go, made at `at` with the currency's name added
    /// to the address.
    pub fn withdraw_info(&self, at: Api, token: Token) -> (call: Result<Call, RichamsterError>)
        ensures
            plans(
                call,
                target(at, Some(token.name()), Seq::empty()),
                at.method(),
                self.auth(),
                None,
                standard_outcomes(),
            ),
    {
        let RequestData(url, method) = match endpoint(at) {
            Ok(found) => found,
            Err(e) => {
                return Err(e);
            },
        };
        let url = match resolve(&url, token.as_ref()) {
            Ok(url) => url,
            Err(e) => {
                return Err(e);
            },
        };
        Ok(Call::signed(url_string(&url), method, &self.auth_state, StatusTable::standard()))
    }

    /// The call that withdraws funds of a currency, made at `at` with the
    /// currency's name added to the address. `withdraw` is a `WithdrawData`
    /// written as JSON; it is sent as it is, and it is what is signed.
    pub fn withdraw(&self, at: Api, token: Token, withdraw: String) -> (call: Result<
        Call,
        RichamsterError,
    >)
        ensures
            plans(
                call,
                target(at, Some(token.name()), Seq::empty()),
                at.method(),
                self.auth(),
                Some(withdraw@),
                channel_withdraw_outcomes(),
            ),
    {
        let RequestData(url, method) = match endpoint(at) {
            Ok(found) => found,
            Err(e) => {
                return Err(e);
            },
        };
        let url = match resolve(&url, token.as_ref()) {
            Ok(url) => url,
            Err(e) => {
                return Err(e);
            },
        };
        let outcomes = StatusTable::new().with(200, Outcome::Success).with(
            400,
            Outcome::Rejected(ErrorShape::WithdrawFields),
        ).with(403, Outcome::Rejected(ErrorShape::WithdrawDetail));
        assert(outcomes@ =~= channel_withdraw_outcomes());
        Ok(Call::signed_with_body(url_string(&url), method, &self.auth_state, withdraw, outcomes))
    }
}

} // verus!
