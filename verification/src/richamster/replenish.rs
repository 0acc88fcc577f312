//! The replenishment service: where to send funds to, through which
//! channels, and replenishing from a bank card.
//!
//! The list of endpoints has no entry of its own for these calls: the caller
//! names the endpoint at which each one is made.

use vstd::prelude::*;
use vstd::string::*;
use crate::api::address::url_string;
use crate::api::token::Token;
use crate::api::{Api, RequestData};
use crate::errors::RichamsterError;
use crate::richamster::common::{ApiKey, AuthState, JwtToken, SecretKey};
use crate::richamster::request::{endpoint, plans, resolve, standard_outcomes, target, Call};
use crate::richamster::response::{Outcome, StatusTable, UNAUTHORIZED};

verus! {

/// A client of the replenishment service. Its proof of identity is chosen
/// when it is made and stays the same for all its calls.
#[derive(Debug, Clone)]
pub struct Replenish {
    auth_state: AuthState,
}

/// The table of the endpoint that tells where to send funds to: "not
/// found" is read as the failure that carries the currency and the channel
/// that were asked for.
pub open spec fn replenish_info_outcomes(token: Token, channel: String) -> Map<u16, Outcome> {
    map![
        UNAUTHORIZED => Outcome::Unauthorized,
        200u16 => Outcome::Success,
        404u16 => Outcome::ReplenishInfoNotFound(token, channel),
    ]
}

/// The table of the endpoint that replenishes from a bank card.
pub open spec fn replenish_p2p_outcomes() -> Map<u16, Outcome> {
    map![UNAUTHORIZED => Outcome::Unauthorized, 201u16 => Outcome::Success]
}

/// The reference that names a currency and a channel: both, each followed
/// by a slash.
pub open spec fn channel_reference(token: Token, channel: Seq<char>) -> Seq<char> {
    token.name() + "/"@ + channel + "/"@
}

impl Replenish {
    /// The client's proof of identity.
    pub closed spec fn auth(&self) -> AuthState {
        self.auth_state
    }

    pub fn auth_state(&self) -> (auth_state: &AuthState)
        ensures
            *auth_state == self.auth(),
    {
        &self.auth_state
    }

    /// A client that presents a bearer token.
    pub fn with_jwt_token(token: String) -> (client: Self)
        ensures
            client.auth() matches AuthState::JwtTokenAuth(held) && held@ == token@,
    {
        Replenish { auth_state: AuthState::JwtTokenAuth(JwtToken::new(token)) }
    }

    /// A client that signs with a key pair.
    pub fn with_keys(api_key: String, secret_key: String) -> (client: Self)
        ensures
            client.auth() matches AuthState::ApiSecretKeyAuth(api, secret) && api@ == api_key@
                && secret@ == secret_key@,
    {
        Replenish {
            auth_state: AuthState::ApiSecretKeyAuth(
                ApiKey::new(api_key),
                SecretKey::new(secret_key),
            ),
        }
    }

    /// The call that asks where to send funds of a currency to through a
    /// channel, made at `at` with the currency's name and the channel added
    /// to the address.
    pub fn replenish_info(&self, at: Api, currency_name: Token, currency_channel: String) -> (call:
        Result<Call, RichamsterError>)
        ensures
            plans(
                call,
                target(at, Some(channel_reference(currency_name, currency_channel@)), Seq::empty()),
                at.method(),
                self.auth(),
                None,
                replenish_info_outcomes(currency_name, currency_channel),
            ),
    {
        let RequestData(url, method) = match endpoint(at) {
            Ok(found) => found,
            Err(e) => {
                return Err(e);
            },
        };
        let mut path = currency_name.to_string();
        path.append("/");
        path.append(currency_channel.as_str());
        path.append("/");
        let url = match resolve(&url, path.as_str()) {
            Ok(url) => url,
            Err(e) => {
                return Err(e);
            },
        };
        let outcomes = StatusTable::new().with(200, Outcome::Success).with(
            404,
            Outcome::ReplenishInfoNotFound(currency_name, currency_channel),
        );
        assert(outcomes@ =~= replenish_info_outcomes(currency_name, currency_channel));
        Ok(Call::signed(url_string(&url), method, &self.auth_state, outcomes))
    }

    /// The call that lists the channels through which a currency can be
    /// replenished, made at `at` with the currency's name added to the
    /// address.
    pub fn replenish_channels_info(&self, at: Api, currency_name: Token) -> (call: Result<
        Call,
        RichamsterError,
    >)
        ensures
            plans(
                call,
                target(at, Some(currency_name.name()), Seq::empty()),
                at.method(),
                self.auth(),
                None,
                standard_outcomes(),
            ),
    {
        let RequestData(url, method) = match endpoint(at) {
            Ok(found) => found,
            Err(e) => {
                return Err(e);
            },
        };
        let url = match resolve(&url, currency_name.as_ref()) {
            Ok(url) => url,
            Err(e) => {
                return Err(e);
            },
        };
        Ok(Call::signed(url_string(&url), method, &self.auth_state, StatusTable::standard()))
    }

    /// The call that replenishes from a bank card, made at `at`.
    /// `replenish` is a `P2PReplenish` written as JSON; it is sent as it is,
    /// and it is what is signed.
    pub fn replenish_p2p(&self, at: Api, replenish: String) -> (call: Result<Call, RichamsterError>)
        ensures
            plans(
                call,
                target(at, None, Seq::empty()),
                at.method(),
                self.auth(),
                Some(replenish@),
                replenish_p2p_outcomes(),
            ),
    {
        let RequestData(url, method) = match endpoint(at) {
            Ok(found) => found,
            Err(e) => {
                return Err(e);
            },
        };
        let outcomes = StatusTable::new().with(201, Outcome::Success);
        assert(outcomes@ =~= replenish_p2p_outcomes());
        Ok(Call::signed_with_body(url_string(&url), method, &self.auth_state, replenish, outcomes))
    }
}

} // verus!
