//! The exchange service: currencies, markets, tickers, the order book, and
//! the user's own orders.

use vstd::prelude::*;
use vstd::string::*;
use url::{ParseError, Url};
use crate::api::address::{pair_views, try_append_pairs, url_string, url_text};
use crate::api::token::{CurrencyPair, Token};
use crate::api::{Api, ExchangeApi, Method, RequestData};
use crate::errors::RichamsterError;
use crate::models::exchange::{MarketName, OrderBookFilter, OrdersFilter};
use crate::richamster::common::{ApiKey, AuthState, JwtToken, SecretKey};
use crate::richamster::request::{endpoint, plans, resolve, standard_outcomes, target, Call};
use crate::richamster::response::{ErrorShape, Outcome, StatusTable, UNAUTHORIZED};
use crate::richamster::{percent_decode, percent_decoded, replace, replace_all};
use crate::text::{decimal, decimal_i32, same_text};

verus! {

/// A client of the exchange service. Its proof of identity is chosen when it
/// is made and stays the same for all its calls.
#[derive(Debug, Clone)]
pub struct Exchange {
    auth_state: AuthState,
}

/// The table of the endpoint that cancels the order `id`.
pub open spec fn destroy_order_outcomes(id: i32) -> Map<u16, Outcome> {
    map![
        UNAUTHORIZED => Outcome::Unauthorized,
        204u16 => Outcome::Empty,
        404u16 => Outcome::OrderNotFound(id),
    ]
}

/// The table of the endpoint that places an order.
pub open spec fn create_order_outcomes() -> Map<u16, Outcome> {
    map![
        UNAUTHORIZED => Outcome::Unauthorized,
        201u16 => Outcome::Success,
        400u16 => Outcome::Rejected(ErrorShape::NewOrder),
    ]
}

/// The query of one pair where there is a value, and of none where there is
/// not.
pub open spec fn optional_query(name: Seq<char>, value: Option<Seq<char>>) -> Seq<
    (Seq<char>, Seq<char>),
> {
    match value {
        Some(value) => seq![(name, value)],
        None => Seq::empty(),
    }
}

/// The number of the first market on which `pair` is traded.
pub open spec fn market_of(markets: Seq<MarketName>, pair: Seq<char>) -> Option<i32>
    decreases markets.len(),
{
    if markets.len() == 0 {
        None
    } else if markets[0].abbreviation@ == pair {
        Some(markets[0].id)
    } else {
        market_of(markets.drop_first(), pair)
    }
}

/// The address at which the market `id` is made a favourite or is no longer
/// one: the endpoint's address, percent-decoded, with the market's number in
/// the place of `{id}`.
pub open spec fn favourite_address(id: i32) -> Result<Seq<char>, ParseError> {
    match Api::Exchange(ExchangeApi::Favourites).address() {
        Ok(url) => Ok(replace_all(percent_decoded(url), "{id}"@, decimal(id as int))),
        Err(e) => Err(e),
    }
}

impl Default for Exchange {
    fn default() -> (exchange: Self)
        ensures
            exchange.auth() is Unauthorized,
    {
        Exchange { auth_state: AuthState::Unauthorized }
    }
}

impl Exchange {
    /// The client's proof of identity.
    pub closed spec fn auth(&self) -> AuthState {
        self.auth_state
    }

    pub fn auth_state(&self) -> (auth_state: &AuthState)
        ensures
            *auth_state == self.auth(),
    {
        &self.auth_state
    }

    /// A client without credentials.
    pub fn new() -> (exchange: Self)
        ensures
            exchange.auth() is Unauthorized,
    {
        Exchange { auth_state: AuthState::Unauthorized }
    }

    /// A client that presents a bearer token.
    pub fn with_jwt_token(token: String) -> (exchange: Self)
        ensures
            exchange.auth() matches AuthState::JwtTokenAuth(held) && held@ == token@,
    {
        Exchange { auth_state: AuthState::JwtTokenAuth(JwtToken::new(token)) }
    }

    /// A client that signs with a key pair.
    pub fn with_keys(api_key: String, secret_key: String) -> (exchange: Self)
        ensures
            exchange.auth() matches AuthState::ApiSecretKeyAuth(api, secret) && api@ == api_key@
                && secret@ == secret_key@,
    {
        Exchange {
            auth_state: AuthState::ApiSecretKeyAuth(
                ApiKey::new(api_key),
                SecretKey::new(secret_key),
            ),
        }
    }

    /// The call that lists the restrictions on the pairs.
    pub fn restrictions_list(&self) -> (call: Result<Call, RichamsterError>)
        ensures
            plans(
                call,
                target(Api::Exchange(ExchangeApi::Restrictions), None, Seq::empty()),
                Method::GET,
                self.auth(),
                None,
                standard_outcomes(),
            ),
    {
        self.plain(Api::Exchange(ExchangeApi::Restrictions))
    }

    /// The call that lists the tickers, of one pair or of all.
    pub fn ticker_list(&self, pair: Option<CurrencyPair>) -> (call: Result<Call, RichamsterError>)
        ensures
            plans(
                call,
                target(
                    Api::Exchange(ExchangeApi::TickerList),
                    None,
                    optional_query(
                        "pair"@,
                        match pair {
                            Some(pair) => Some(pair.text()),
                            None => None,
                        },
                    ),
                ),
                Method::GET,
                self.auth(),
                None,
                standard_outcomes(),
            ),
    {
        let mut pairs: Vec<(String, String)> = Vec::new();
        if let Some(pair) = pair {
            pairs.push(("pair".to_owned(), pair.to_string()));
        }
        assert(pair_views(pairs@) =~= optional_query(
            "pair"@,
            match pair {
                Some(pair) => Some(pair.text()),
                None => None,
            },
        ));
        self.queried(Api::Exchange(ExchangeApi::TickerList), &pairs)
    }

    /// The call that makes the market of a pair a favourite, or makes it no
    /// longer one. `markets` is what the exchange lists as its markets: the
    /// pair must be traded on one of them.
    pub fn favourites_pair_toggle(&self, pair: CurrencyPair, markets: &Vec<MarketName>) -> (call:
        Result<Call, RichamsterError>)
        ensures
            match market_of(markets@, pair.text()) {
                None => call == Err::<Call, RichamsterError>(
                    RichamsterError::IllegalCurrencyPair(pair),
                ),
                Some(id) => plans(
                    call,
                    favourite_address(id),
                    Method::POST,
                    self.auth(),
                    None,
                    standard_outcomes(),
                ),
            },
    {
        let wanted = pair.to_string();
        let id = match find_market(markets, wanted.as_str()) {
            Some(id) => id,
            None => {
                return Err(RichamsterError::IllegalCurrencyPair(pair));
            },
        };
        let RequestData(url, method) = match endpoint(Api::Exchange(ExchangeApi::Favourites)) {
            Ok(found) => found,
            Err(e) => {
                return Err(e);
            },
        };
        proof {
            reveal_strlit("{id}");
        }
        let decoded = percent_decode(url_string(&url).as_str());
        let address = replace(decoded.as_str(), "{id}", decimal_i32(id).as_str());
        Ok(Call::signed(address, method, &self.auth_state, StatusTable::standard()))
    }

    /// The call that lists the currencies, one or all.
    pub fn currencies_list(&self, token: Option<Token>) -> (call: Result<Call, RichamsterError>)
        ensures
            plans(
                call,
                target(
                    Api::Exchange(ExchangeApi::Currencies),
                    None,
                    optional_query(
                        "abbreviation"@,
                        match token {
                            Some(token) => Some(token.name()),
                            None => None,
                        },
                    ),
                ),
                Method::GET,
                self.auth(),
                None,
                standard_outcomes(),
            ),
    {
        let mut pairs: Vec<(String, String)> = Vec::new();
        if let Some(token) = token {
            pairs.push(("abbreviation".to_owned(), token.to_string()));
        }
        assert(pair_views(pairs@) =~= optional_query(
            "abbreviation"@,
            match token {
                Some(token) => Some(token.name()),
                None => None,
            },
        ));
        self.queried(Api::Exchange(ExchangeApi::Currencies), &pairs)
    }

    /// The call that lists the markets.
    pub fn markets_list(&self) -> (call: Result<Call, RichamsterError>)
        ensures
            plans(
                call,
                target(Api::Exchange(ExchangeApi::Markets), None, Seq::empty()),
                Method::GET,
                self.auth(),
                None,
                standard_outcomes(),
            ),
    {
        self.plain(Api::Exchange(ExchangeApi::Markets))
    }

    /// The call that reads the order book.
    pub fn order_book(&self, filter: OrderBookFilter) -> (call: Result<Call, RichamsterError>)
        ensures
            plans(
                call,
                target(Api::Exchange(ExchangeApi::OrderBook), None, filter.query()),
                Method::GET,
                self.auth(),
                None,
                standard_outcomes(),
            ),
    {
        let RequestData(mut url, method) = match endpoint(Api::Exchange(ExchangeApi::OrderBook)) {
            Ok(found) => found,
            Err(e) => {
                return Err(e);
            },
        };
        match filter.try_compose_url(&mut url) {
            Some(address) => Ok(
                Call::signed(address, method, &self.auth_state, StatusTable::standard()),
            ),
            None => Err(RichamsterError::UrlParse(ParseError::Overflow)),
        }
    }

    /// The call that reads the first page of the orders' history.
    pub fn orders_history(&self, filter: OrdersFilter) -> (call: Result<Call, RichamsterError>)
        ensures
            plans(
                call,
                target(Api::Exchange(ExchangeApi::OrdersHistory), None, filter.query()),
                Method::GET,
                self.auth(),
                None,
                standard_outcomes(),
            ),
    {
        self.filtered(Api::Exchange(ExchangeApi::OrdersHistory), &filter)
    }

    /// The call that reads another page of the orders' history, at the
    /// address that a page gave for it.
    pub fn next_orders_history(&self, url: Url) -> (call: Call)
        ensures
            plans(
                Ok(call),
                Ok(url_text(url)),
                Method::GET,
                self.auth(),
                None,
                standard_outcomes(),
            ),
    {
        Call::signed(url_string(&url), Method::GET, &self.auth_state, StatusTable::standard())
    }

    /// The call that cancels the user's order `id`. A response that the
    /// exchange does not know the order is read as a failure that carries
    /// `id`.
    pub fn destroy_user_order(&self, id: i32) -> (call: Result<Call, RichamsterError>)
        ensures
            plans(
                call,
                target(
                    Api::Exchange(ExchangeApi::DestroyOrder),
                    Some(decimal(id as int)),
                    Seq::empty(),
                ),
                Method::DELETE,
                self.auth(),
                None,
                destroy_order_outcomes(id),
            ),
    {
        let RequestData(url, method) = match endpoint(Api::Exchange(ExchangeApi::DestroyOrder)) {
            Ok(found) => found,
            Err(e) => {
                return Err(e);
            },
        };
        let url = match resolve(&url, decimal_i32(id).as_str()) {
            Ok(url) => url,
            Err(e) => {
                return Err(e);
            },
        };
        let outcomes = StatusTable::new().with(204, Outcome::Empty).with(
            404,
            Outcome::OrderNotFound(id),
        );
        assert(outcomes@ =~= destroy_order_outcomes(id));
        Ok(Call::signed(url_string(&url), method, &self.auth_state, outcomes))
    }

    /// The call that lists the user's orders.
    pub fn user_orders(&self, filter: OrdersFilter) -> (call: Result<Call, RichamsterError>)
        ensures
            plans(
                call,
                target(Api::Exchange(ExchangeApi::UserOrders), None, filter.query()),
                Method::GET,
                self.auth(),
                None,
                standard_outcomes(),
            ),
    {
        self.filtered(Api::Exchange(ExchangeApi::UserOrders), &filter)
    }

    /// The call that places an order. `order` is the order written as JSON;
    /// it is sent as it is, and it is what is signed.
    pub fn create_order(&self, order: String) -> (call: Result<Call, RichamsterError>)
        ensures
            plans(
                call,
                target(Api::Exchange(ExchangeApi::NewOrder), None, Seq::empty()),
                Method::POST,
                self.auth(),
                Some(order@),
                create_order_outcomes(),
            ),
    {
        let RequestData(url, method) = match endpoint(Api::Exchange(ExchangeApi::NewOrder)) {
            Ok(found) => found,
            Err(e) => {
                return Err(e);
            },
        };
        let outcomes = StatusTable::new().with(201, Outcome::Success).with(
            400,
            Outcome::Rejected(ErrorShape::NewOrder),
        );
        assert(outcomes@ =~= create_order_outcomes());
        Ok(Call::signed_with_body(url_string(&url), method, &self.auth_state, order, outcomes))
    }

    fn plain(&self, api: Api) -> (call: Result<Call, RichamsterError>)
        ensures
            plans(
                call,
                target(api, None, Seq::empty()),
                api.method(),
                self.auth(),
                None,
                standard_outcomes(),
            ),
    {
        let RequestData(url, method) = match endpoint(api) {
            Ok(found) => found,
            Err(e) => {
                return Err(e);
            },
        };
        Ok(Call::signed(url_string(&url), method, &self.auth_state, StatusTable::standard()))
    }

    fn queried(&self, api: Api, pairs: &Vec<(String, String)>) -> (call: Result<
        Call,
        RichamsterError,
    >)
        ensures
            plans(
                call,
                target(api, None, pair_views(pairs@)),
                api.method(),
                self.auth(),
                None,
                standard_outcomes(),
            ),
    {
        let RequestData(mut url, method) = match endpoint(api) {
            Ok(found) => found,
            Err(e) => {
                return Err(e);
            },
        };
        if !try_append_pairs(&mut url, pairs) {
            return Err(RichamsterError::UrlParse(ParseError::Overflow));
        }
        Ok(Call::signed(url_string(&url), method, &self.auth_state, StatusTable::standard()))
    }

    fn filtered(&self, api: Api, filter: &OrdersFilter) -> (call: Result<Call, RichamsterError>)
        ensures
            plans(
                call,
                target(api, None, filter.query()),
                api.method(),
                self.auth(),
                None,
                standard_outcomes(),
            ),
    {
        let RequestData(mut url, method) = match endpoint(api) {
            Ok(found) => found,
            Err(e) => {
                return Err(e);
            },
        };
        match filter.try_compose_url(&mut url) {
            Some(address) => Ok(
                Call::signed(address, method, &self.auth_state, StatusTable::standard()),
            ),
            None => Err(RichamsterError::UrlParse(ParseError::Overflow)),
        }
    }
}

/// Finds the number of the first market on which `pair` is traded.
pub fn find_market(markets: &Vec<MarketName>, pair: &str) -> (found: Option<i32>)
    ensures
        found == market_of(markets@, pair@),
{
    let mut i: usize = 0;
    assert(markets@.skip(0) =~= markets@);
    while i < markets.len()
        invariant
            i <= markets@.len(),
            market_of(markets@, pair@) == market_of(markets@.skip(i as int), pair@),
        decreases markets@.len() - i,
    {
        proof {
            assert(markets@.skip(i as int).drop_first() =~= markets@.skip(i as int + 1));
        }
        if same_text(markets[i].abbreviation.as_str(), pair) {
            return Some(markets[i].id);
        }
        i = i + 1;
    }
    None
}

/// The table of a cancellation reads "not found" as the failure that
/// carries the number of the order that was to be cancelled.
pub proof fn lemma_missing_order_carries_its_number(id: i32)
    ensures
        destroy_order_outcomes(id).contains_key(404),
        destroy_order_outcomes(id)[404u16].failure() == RichamsterError::OrderNotFound(id),
{
}

} // verus!
