//! The payments service: where to send funds to, and withdrawing them.

use vstd::prelude::*;
use crate::api::address::url_string;
use crate::api::token::Token;
use crate::api::{Api, Method, PaymentsApi, RequestData};
use crate::errors::RichamsterError;
use crate::models::payments::Withdraw;
use crate::richamster::common::{ApiKey, AuthState, JwtToken, SecretKey};
use crate::richamster::request::{endpoint, plans, resolve, standard_outcomes, target, Call};
use crate::richamster::response::{ErrorShape, Outcome, StatusTable, UNAUTHORIZED};

verus! {

/// A client of the payments service. Its proof of identity is chosen when it
/// is made and stays the same for all its calls.
#[derive(Debug, Clone)]
pub struct Payments {
    auth_state: AuthState,
}

/// The number of confirmations that a withdrawal waits for.
pub const MINIMUM_CONFIRMATIONS: u8 = 5;

/// The table of the endpoint that withdraws funds.
pub open spec fn withdraw_outcomes() -> Map<u16, Outcome> {
    map![
        UNAUTHORIZED => Outcome::Unauthorized,
        201u16 => Outcome::Success,
        400u16 => Outcome::Rejected(ErrorShape::WithdrawFields),
        403u16 => Outcome::Rejected(ErrorShape::WithdrawDetail),
    ]
}

impl Payments {
    /// The client's proof of identity.
    pub closed spec fn auth(&self) -> AuthState {
        self.auth_state
    }

    pub fn auth_state(&self) -> (auth_state: &AuthState)
        ensures
            *auth_state == self.auth(),
    {
        &self.auth_state
    }

    /// A client that presents a bearer token.
    pub fn with_jwt_token(token: String) -> (client: Self)
        ensures
            client.auth() matches AuthState::JwtTokenAuth(held) && held@ == token@,
    {
        Payments { auth_state: AuthState::JwtTokenAuth(JwtToken::new(token)) }
    }

    /// A client that signs with a key pair.
    pub fn with_keys(api_key: String, secret_key: String) -> (client: Self)
        ensures
            client.auth() matches AuthState::ApiSecretKeyAuth(api, secret) && api@ == api_key@
                && secret@ == secret_key@,
    {
        Payments {
            auth_state: AuthState::ApiSecretKeyAuth(
                ApiKey::new(api_key),
                SecretKey::new(secret_key),
            ),
        }
    }

    /// The call that asks where to send funds of a currency to.
    pub fn replenish_info(&self, token: Token) -> (call: Result<Call, RichamsterError>)
        ensures
            plans(
                call,
                target(Api::Payments(PaymentsApi::ReplenishInfo), Some(token.name()), Seq::empty()),
                Method::GET,
                self.auth(),
                None,
                standard_outcomes(),
            ),
    {
        self.about(Api::Payments(PaymentsApi::ReplenishInfo), token)
    }

    /// The call that asks what withdrawing a currency costs.
    pub fn withdraw_info(&self, token: Token) -> (call: Result<Call, RichamsterError>)
        ensures
            plans(
                call,
                target(Api::Payments(PaymentsApi::WithdrawInfo), Some(token.name()), Seq::empty()),
                Method::GET,
                self.auth(),
                None,
                standard_outcomes(),
            ),
    {
        self.about(Api::Payments(PaymentsApi::WithdrawInfo), token)
    }

    /// What is sent to withdraw `sum` to `address`: no fee is named, and the
    /// withdrawal waits for `MINIMUM_CONFIRMATIONS` confirmations.
    pub fn withdraw_order(address: String, sum: String, pin_code: String) -> (order: Withdraw)
        ensures
            order.address == address,
            order.sum == sum,
            order.fee is None,
            order.pin_code == pin_code,
            order.minimum_confirmations == MINIMUM_CONFIRMATIONS,
    {
        Withdraw { address, sum, fee: None, pin_code, minimum_confirmations: MINIMUM_CONFIRMATIONS }
    }

    /// The call that withdraws funds of a currency. `order` is what
    /// `withdraw_order` returns, written as JSON; it is sent as it is, and
    /// it is what is signed.
    pub fn withdraw(&self, token: Token, order: String) -> (call: Result<Call, RichamsterError>)
        ensures
            plans(
                call,
                target(Api::Payments(PaymentsApi::Withdraw), Some(token.name()), Seq::empty()),
                Method::POST,
                self.auth(),
                Some(order@),
                withdraw_outcomes(),
            ),
    {
        let RequestData(url, method) = match endpoint(Api::Payments(PaymentsApi::Withdraw)) {
            Ok(found) => found,
            Err(e) => {
                return Err(e);
            },
        };
        let url = match resolve(&url, token.as_ref()) {
            Ok(url) => url,
            Err(e) => {
                return Err(e);
            },
        };
        let outcomes = StatusTable::new().with(201, Outcome::Success).with(
            400,
            Outcome::Rejected(ErrorShape::WithdrawFields),
        ).with(403, Outcome::Rejected(ErrorShape::WithdrawDetail));
        assert(outcomes@ =~= withdraw_outcomes());
        Ok(Call::signed_with_body(url_string(&url), method, &self.auth_state, order, outcomes))
    }

    fn about(&self, api: Api, token: Token) -> (call: Result<Call, RichamsterError>)
        ensures
            plans(
                call,
                target(api, Some(token.name()), Seq::empty()),
                api.method(),
                self.auth(),
                None,
                standard_outcomes(),
            ),
    {
        let RequestData(url, method) = match endpoint(api) {
            Ok(found) => found,
            Err(e) => {
                return Err(e);
            },
        };
        let url = match resolve(&url, token.as_ref()) {
            Ok(url) => url,
            Err(e) => {
                return Err(e);
            },
        };
        Ok(Call::signed(url_string(&url), method, &self.auth_state, StatusTable::standard()))
    }
}

} // verus!
