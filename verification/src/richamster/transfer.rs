//! The transfer service: moving funds to another user.

use vstd::prelude::*;
use crate::api::address::url_string;
use crate::api::token::Token;
use crate::api::{Api, Method, RequestData, TransferApi};
use crate::errors::RichamsterError;
use crate::models::transfer::TransferQuery;
use crate::richamster::common::{ApiKey, AuthState, JwtToken, SecretKey};
use crate::richamster::request::{endpoint, plans, target, Call};
use crate::richamster::response::{Outcome, StatusTable, UNAUTHORIZED};
use crate::text::{decimal, decimal_u64};

verus! {

/// A client of the transfer service. It proves its identity with a bearer
/// token and a key pair together.
#[derive(Debug, Clone)]
pub struct Transfer {
    auth_state: AuthState,
}

/// The table of the endpoint that moves funds: a success has no body that
/// is read.
pub open spec fn transfer_outcomes() -> Map<u16, Outcome> {
    map![
        UNAUTHORIZED => Outcome::Unauthorized,
        200u16 => Outcome::Empty,
        201u16 => Outcome::Empty,
    ]
}

impl Transfer {
    /// The client's proof of identity.
    pub closed spec fn auth(&self) -> AuthState {
        self.auth_state
    }

    pub fn auth_state(&self) -> (auth_state: &AuthState)
        ensures
            *auth_state == self.auth(),
    {
        &self.auth_state
    }

    pub fn new(jwt: String, api_key: String, secret_key: String) -> (client: Self)
        ensures
            client.auth() matches AuthState::JwtTokenWithApiSecretKeyAuth(token, api, secret)
                && token@ == jwt@ && api@ == api_key@ && secret@ == secret_key@,
    {
        Transfer {
            auth_state: AuthState::JwtTokenWithApiSecretKeyAuth(
                JwtToken::new(jwt),
                ApiKey::new(api_key),
                SecretKey::new(secret_key),
            ),
        }
    }

    /// What is sent to move `amount` of a currency to the user `to`: the
    /// amount as a decimal numeral and the currency by its name.
    pub fn query(amount: u64, token: Token, to: String, pin_code: String) -> (query: TransferQuery)
        ensures
            query.amount@ == decimal(amount as int),
            query.currency@ == token.name(),
            query.to == to,
            query.pin_code == pin_code,
    {
        TransferQuery { amount: decimal_u64(amount), currency: token.to_string(), to, pin_code }
    }

    /// The call that moves funds. `query` is what `query` returns, written
    /// as JSON; it is sent as it is, and it is what is signed.
    pub fn transfer(&self, query: String) -> (call: Result<Call, RichamsterError>)
        ensures
            plans(
                call,
                target(Api::Transfer(TransferApi::Transfer), None, Seq::empty()),
                Method::POST,
                self.auth(),
                Some(query@),
                transfer_outcomes(),
            ),
    {
        let RequestData(url, method) = match endpoint(Api::Transfer(TransferApi::Transfer)) {
            Ok(found) => found,
            Err(e) => {
                return Err(e);
            },
        };
        let outcomes = StatusTable::new().with(200, Outcome::Empty).with(201, Outcome::Empty);
        assert(outcomes@ =~= transfer_outcomes());
        Ok(Call::signed_with_body(url_string(&url), method, &self.auth_state, query, outcomes))
    }
}

} // verus!
