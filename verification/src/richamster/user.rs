//! The user service: balances, details, transactions and orders of the
//! user who calls.

use vstd::prelude::*;
use url::ParseError;
use crate::api::address::{pair_views, try_append_pairs, url_string};
use crate::api::token::Token;
use crate::api::{Api, Method, RequestData, UserApi};
use crate::errors::RichamsterError;
use crate::models::user::{TransactionsFilter, UserOrdersFilter};
use crate::richamster::common::{ApiKey, AuthState, JwtToken, SecretKey};
use crate::richamster::exchange::optional_query;
use crate::richamster::request::{endpoint, plans, standard_outcomes, target, Call};
use crate::richamster::response::StatusTable;

verus! {

/// A client of the user service. Its proof of identity is chosen when it is
/// made and stays the same for all its calls.
#[derive(Debug, Clone)]
pub struct User {
    auth_state: AuthState,
}

impl Default for User {
    fn default() -> (user: Self)
        ensures
            user.auth() is Unauthorized,
    {
        User { auth_state: AuthState::Unauthorized }
    }
}

impl User {
    /// The client's proof of identity.
    pub closed spec fn auth(&self) -> AuthState {
        self.auth_state
    }

    pub fn auth_state(&self) -> (auth_state: &AuthState)
        ensures
            *auth_state == self.auth(),
    {
        &self.auth_state
    }

    /// A client without credentials.
    pub fn new() -> (client: Self)
        ensures
            client.auth() is Unauthorized,
    {
        User { auth_state: AuthState::Unauthorized }
    }

    /// A client that presents a bearer token.
    pub fn with_jwt_token(token: String) -> (client: Self)
        ensures
            client.auth() matches AuthState::JwtTokenAuth(held) && held@ == token@,
    {
        User { auth_state: AuthState::JwtTokenAuth(JwtToken::new(token)) }
    }

    /// A client that signs with a key pair.
    pub fn with_keys(api_key: String, secret_key: String) -> (client: Self)
        ensures
            client.auth() matches AuthState::ApiSecretKeyAuth(api, secret) && api@ == api_key@
                && secret@ == secret_key@,
    {
        User {
            auth_state: AuthState::ApiSecretKeyAuth(
                ApiKey::new(api_key),
                SecretKey::new(secret_key),
            ),
        }
    }

    /// The call that reads the balances, of one currency or of all.
    pub fn balances(&self, currency: Option<Token>) -> (call: Result<Call, RichamsterError>)
        ensures
            plans(
                call,
                target(
                    Api::User(UserApi::Balances),
                    None,
                    optional_query(
                        "currency"@,
                        match currency {
                            Some(token) => Some(token.name()),
                            None => None,
                        },
                    ),
                ),
                Method::GET,
                self.auth(),
                None,
                standard_outcomes(),
            ),
    {
        let mut pairs: Vec<(String, String)> = Vec::new();
        if let Some(token) = currency {
            pairs.push(("currency".to_owned(), token.to_string()));
        }
        assert(pair_views(pairs@) =~= optional_query(
            "currency"@,
            match currency {
                Some(token) => Some(token.name()),
                None => None,
            },
        ));
        let RequestData(mut url, method) = match endpoint(Api::User(UserApi::Balances)) {
            Ok(found) => found,
            Err(e) => {
                return Err(e);
            },
        };
        if !try_append_pairs(&mut url, &pairs) {
            return Err(RichamsterError::UrlParse(ParseError::Overflow));
        }
        Ok(Call::signed(url_string(&url), method, &self.auth_state, StatusTable::standard()))
    }

    /// The call that reads the user's details.
    pub fn detail_info(&self) -> (call: Result<Call, RichamsterError>)
        ensures
            plans(
                call,
                target(Api::User(UserApi::Detail), None, Seq::empty()),
                Method::GET,
                self.auth(),
                None,
                standard_outcomes(),
            ),
    {
        let RequestData(url, method) = match endpoint(Api::User(UserApi::Detail)) {
            Ok(found) => found,
            Err(e) => {
                return Err(e);
            },
        };
        Ok(Call::signed(url_string(&url), method, &self.auth_state, StatusTable::standard()))
    }

    /// The call that lists the user's transactions.
    pub fn transactions_list(&self, parameters: TransactionsFilter) -> (call: Result<
        Call,
        RichamsterError,
    >)
        ensures
            plans(
                call,
                target(Api::User(UserApi::Transactions), None, parameters.query()),
                Method::GET,
                self.auth(),
                None,
                standard_outcomes(),
            ),
    {
        let RequestData(mut url, method) = match endpoint(Api::User(UserApi::Transactions)) {
            Ok(found) => found,
            Err(e) => {
                return Err(e);
            },
        };
        match parameters.try_compose_url(&mut url) {
            Some(address) => Ok(
                Call::signed(address, method, &self.auth_state, StatusTable::standard()),
            ),
            None => Err(RichamsterError::UrlParse(ParseError::Overflow)),
        }
    }

    /// The call that lists the user's orders.
    pub fn orders(&self, parameters: UserOrdersFilter) -> (call: Result<Call, RichamsterError>)
        ensures
            plans(
                call,
                target(Api::User(UserApi::Orders), None, parameters.query()),
                Method::GET,
                self.auth(),
                None,
                standard_outcomes(),
            ),
    {
        let RequestData(mut url, method) = match endpoint(Api::User(UserApi::Orders)) {
            Ok(found) => found,
            Err(e) => {
                return Err(e);
            },
        };
        match parameters.try_compose_url(&mut url) {
            Some(address) => Ok(
                Call::signed(address, method, &self.auth_state, StatusTable::standard()),
            ),
            None => Err(RichamsterError::UrlParse(ParseError::Overflow)),
        }
    }
}

} // verus!
