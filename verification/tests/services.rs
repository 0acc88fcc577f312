use richamster_api::api::token::{CurrencyPair, Token};
use richamster_api::api::{Api, Method, PaymentsApi, UserApi};
use richamster_api::errors::RichamsterError;
use richamster_api::models::auth::{LoginResponse, OtpLoginResponse, TokenData};
use richamster_api::models::common::{OrderType, TransactionType};
use richamster_api::models::exchange::{MarketName, OrderBookFilterBuilder, OrdersFilter};
use richamster_api::models::user::{TransactionsFilter, UserOrdersFilter};
use richamster_api::richamster::auth::Auth;
use richamster_api::richamster::common::{signature_of, AuthState};
use richamster_api::richamster::exchange::{find_market, Exchange};
use richamster_api::richamster::feedback::Feedback;
use richamster_api::richamster::payments::{Payments, MINIMUM_CONFIRMATIONS};
use richamster_api::richamster::replenish::Replenish;
use richamster_api::richamster::request::{endpoint, resolve, Call};
use richamster_api::richamster::response::{ErrorShape, Outcome, StatusTable};
use richamster_api::richamster::transfer::Transfer;
use richamster_api::richamster::user::User;
use richamster_api::richamster::withdraw::Withdraw;
use richamster_api::richamster::{fill, join_segments, replace_placeholder};
use url::Url;

const BASE: &str = "https://richamster.com/public/v1/";

fn headers(call: &Call) -> Vec<(&str, &str)> {
    call.request.headers.iter().map(|h| (h.name.as_str(), h.value.as_str())).collect()
}

fn known(call: &Call) -> Vec<(u16, Outcome)> {
    let mut found = Vec::new();
    for status in 0u16..=999 {
        if let Some(outcome) = call.outcomes.lookup(status) {
            found.push((status, outcome.clone()));
        }
    }
    found
}

fn standard() -> Vec<(u16, Outcome)> {
    vec![(200, Outcome::Success), (401, Outcome::Unauthorized)]
}

#[test]
fn exchange_calls_without_arguments() {
    let exchange = Exchange::with_jwt_token("tok".to_string());
    let call = exchange.restrictions_list().unwrap();
    assert_eq!(call.request.url, format!("{}exchange/restrictions/", BASE));
    assert_eq!(call.request.method, Method::GET);
    assert_eq!(headers(&call), vec![("Authorization", "JWT tok")]);
    assert!(call.request.body.is_none());
    assert_eq!(known(&call), standard());
    let call = exchange.markets_list().unwrap();
    assert_eq!(call.request.url, format!("{}exchange/markets/", BASE));
    assert_eq!(call.request.method, Method::GET);
    assert_eq!(known(&call), standard());
}

#[test]
fn exchange_calls_with_a_query() {
    let exchange = Exchange::new();
    let pair = CurrencyPair::new(Token::BTC, Token::UAH);
    let call = exchange.ticker_list(Some(pair)).unwrap();
    assert_eq!(call.request.url, format!("{}exchange/ticker/?pair=BTC%2FUAH", BASE));
    assert!(call.request.headers.is_empty());
    let call = exchange.ticker_list(None).unwrap();
    assert_eq!(call.request.url, format!("{}exchange/ticker/", BASE));
    let call = exchange.currencies_list(Some(Token::XMR)).unwrap();
    assert_eq!(call.request.url, format!("{}exchange/currencies/?abbreviation=XMR", BASE));
    let call = exchange.currencies_list(None).unwrap();
    assert_eq!(call.request.url, format!("{}exchange/currencies/", BASE));
    let filter = OrderBookFilterBuilder::new().pair(pair).order_type(OrderType::Buying).build();
    let call = exchange.order_book(filter).unwrap();
    assert_eq!(call.request.url, format!("{}exchange/order-book/?pair=BTC%2FUAH&side=buying", BASE));
    assert_eq!(known(&call), standard());
    let call = exchange
        .orders_history(OrdersFilter::new(Some(pair), Some("-pk".to_string()), Some(50)))
        .unwrap();
    assert_eq!(
        call.request.url,
        format!("{}exchange/orders/history/?pair=BTC%2FUAH&ordering=-pk&page_size=50", BASE)
    );
    assert_eq!(call.request.method, Method::GET);
    let call = exchange.user_orders(OrdersFilter::new(None, None, Some(5))).unwrap();
    assert_eq!(call.request.url, format!("{}exchange/user/orders/?page_size=5", BASE));
    assert_eq!(call.request.method, Method::GET);
}

#[test]
fn next_page_is_asked_for_at_its_own_address() {
    let exchange = Exchange::with_keys("AB12".to_string(), "s3cr3t".to_string());
    let next = Url::parse("https://richamster.com/public/v1/exchange/orders/history/?page=2").unwrap();
    let call = exchange.next_orders_history(next.clone());
    assert_eq!(call.request.url, next.as_str());
    assert_eq!(call.request.method, Method::GET);
    let empty = signature_of("s3cr3t", b"");
    assert_eq!(headers(&call), vec![("Api-Key", "AB12"), ("Signature", empty.as_str())]);
    assert_eq!(known(&call), standard());
}

#[test]
fn cancelling_an_order() {
    let exchange = Exchange::with_jwt_token("tok".to_string());
    let call = exchange.destroy_user_order(1234).unwrap();
    assert_eq!(call.request.url, format!("{}exchange/user/orders/1234", BASE));
    assert_eq!(call.request.method, Method::DELETE);
    assert!(call.request.body.is_none());
    assert_eq!(
        known(&call),
        vec![(204, Outcome::Empty), (401, Outcome::Unauthorized), (404, Outcome::OrderNotFound(1234))]
    );
    let call = exchange.destroy_user_order(-5).unwrap();
    assert_eq!(call.request.url, format!("{}exchange/user/orders/-5", BASE));
    assert_eq!(call.outcomes.lookup(404), Some(&Outcome::OrderNotFound(-5)));
}

#[test]
fn placing_an_order_signs_the_body_that_is_sent() {
    let exchange = Exchange::with_keys("AB12".to_string(), "s3cr3t".to_string());
    let body = r#"{"amount":"1.0"}"#.to_string();
    let call = exchange.create_order(body.clone()).unwrap();
    assert_eq!(call.request.url, format!("{}exchange/user/orders/", BASE));
    assert_eq!(call.request.method, Method::POST);
    assert_eq!(call.request.body.as_deref(), Some(body.as_str()));
    assert_eq!(
        headers(&call),
        vec![
            ("Content-Type", "application/json"),
            ("Api-Key", "AB12"),
            ("Signature", "0e35f48a0ca4961c39069b744fe2b698fa870380dc3beebde6547614b7a60695"),
        ]
    );
    assert_eq!(
        known(&call),
        vec![
            (201, Outcome::Success),
            (400, Outcome::Rejected(ErrorShape::NewOrder)),
            (401, Outcome::Unauthorized),
        ]
    );
}

#[test]
fn toggling_a_favourite_needs_the_market() {
    let exchange = Exchange::with_jwt_token("tok".to_string());
    let markets = vec![
        MarketName { id: 3, abbreviation: "ETH/UAH".to_string() },
        MarketName { id: 17, abbreviation: "BTC/UAH".to_string() },
        MarketName { id: 18, abbreviation: "BTC/UAH".to_string() },
    ];
    let pair = CurrencyPair::new(Token::BTC, Token::UAH);
    let call = exchange.favourites_pair_toggle(pair, &markets).unwrap();
    assert_eq!(call.request.url, format!("{}exchange/favourites/17/toggle/", BASE));
    assert_eq!(call.request.method, Method::POST);
    assert_eq!(headers(&call), vec![("Authorization", "JWT tok")]);
    assert_eq!(known(&call), standard());
    let missing = CurrencyPair::new(Token::UAH, Token::BTC);
    match exchange.favourites_pair_toggle(missing, &markets) {
        Err(RichamsterError::IllegalCurrencyPair(carried)) => assert_eq!(carried, missing),
        other => panic!("unexpected: {:?}", other),
    }
    assert_eq!(find_market(&markets, "ETH/UAH"), Some(3));
    assert_eq!(find_market(&markets, "eth/uah"), None);
    assert_eq!(find_market(&Vec::new(), "ETH/UAH"), None);
}

#[test]
fn user_calls() {
    let user = User::with_jwt_token("tok".to_string());
    let call = user.balances(Some(Token::USDT)).unwrap();
    assert_eq!(call.request.url, format!("{}user/balances/?currency=USDT", BASE));
    assert_eq!(headers(&call), vec![("Authorization", "JWT tok")]);
    assert_eq!(known(&call), standard());
    let call = user.balances(None).unwrap();
    assert_eq!(call.request.url, format!("{}user/balances/", BASE));
    let call = user.detail_info().unwrap();
    assert_eq!(call.request.url, format!("{}user/detail/", BASE));
    assert_eq!(call.request.method, Method::GET);
    let filter = TransactionsFilter {
        currency: Some(Token::BTC),
        transaction_type: Some(TransactionType::Withdrawal),
        closed_at_gte: None,
        closed_at_lte: Some(100),
    };
    let call = user.transactions_list(filter).unwrap();
    assert_eq!(
        call.request.url,
        format!("{}user/transactions/?currency=BTC&type=2&closed_at__lte=100", BASE)
    );
    let call = user.orders(UserOrdersFilter::new().order_type(OrderType::Selling)).unwrap();
    assert_eq!(call.request.url, format!("{}user/orders/?side=selling", BASE));
    assert_eq!(known(&call), standard());
}

#[test]
fn payments_calls() {
    let payments = Payments::with_keys("AB12".to_string(), "s3cr3t".to_string());
    let call = payments.replenish_info(Token::BTC).unwrap();
    assert_eq!(call.request.url, format!("{}payments/replenish/BTC", BASE));
    assert_eq!(call.request.method, Method::GET);
    assert_eq!(known(&call), standard());
    let call = payments.withdraw_info(Token::UAH).unwrap();
    assert_eq!(call.request.url, format!("{}payments/withdraw/UAH", BASE));
    assert_eq!(call.request.method, Method::GET);
    let order = Payments::withdraw_order("addr".to_string(), "1.5".to_string(), "0000".to_string());
    assert_eq!(order.address, "addr");
    assert_eq!(order.sum, "1.5");
    assert_eq!(order.pin_code, "0000");
    assert_eq!(order.fee, None);
    assert_eq!(order.minimum_confirmations, 5);
    assert_eq!(MINIMUM_CONFIRMATIONS, 5);
    let body = "{\"sum\":\"1.5\"}".to_string();
    let call = payments.withdraw(Token::ETH, body.clone()).unwrap();
    assert_eq!(call.request.url, format!("{}payments/withdraw/ETH", BASE));
    assert_eq!(call.request.method, Method::POST);
    assert_eq!(call.request.body, Some(body.clone()));
    assert_eq!(call.request.headers[2].value, signature_of("s3cr3t", body.as_bytes()));
    assert_eq!(
        known(&call),
        vec![
            (201, Outcome::Success),
            (400, Outcome::Rejected(ErrorShape::WithdrawFields)),
            (401, Outcome::Unauthorized),
            (403, Outcome::Rejected(ErrorShape::WithdrawDetail)),
        ]
    );
    assert!(matches!(
        Payments::with_jwt_token("t".to_string()).auth_state(),
        AuthState::JwtTokenAuth(_)
    ));
}

#[test]
fn transfer_calls() {
    let transfer = Transfer::new("tok".to_string(), "AB12".to_string(), "s3cr3t".to_string());
    assert!(matches!(transfer.auth_state(), AuthState::JwtTokenWithApiSecretKeyAuth(_, _, _)));
    let query = Transfer::query(1500, Token::UAH, "friend".to_string(), "0000".to_string());
    assert_eq!(query.amount, "1500");
    assert_eq!(query.currency, "UAH");
    assert_eq!(query.to, "friend");
    assert_eq!(query.pin_code, "0000");
    assert_eq!(Transfer::query(u64::MAX, Token::BTC, String::new(), String::new()).amount, "18446744073709551615");
    assert_eq!(Transfer::query(0, Token::BTC, String::new(), String::new()).amount, "0");
    let body = "{\"amount\":\"1500\"}".to_string();
    let call = transfer.transfer(body.clone()).unwrap();
    assert_eq!(call.request.url, format!("{}transfer/create/", BASE));
    assert_eq!(call.request.method, Method::POST);
    let signature = signature_of("s3cr3t", body.as_bytes());
    assert_eq!(
        headers(&call),
        vec![
            ("Content-Type", "application/json"),
            ("Authorization", "JWT tok"),
            ("Api-Key", "AB12"),
            ("Signature", signature.as_str()),
        ]
    );
    assert_eq!(
        known(&call),
        vec![(200, Outcome::Empty), (201, Outcome::Empty), (401, Outcome::Unauthorized)]
    );
}

#[test]
fn authentication_calls_carry_no_identity() {
    let call = Auth::login("{\"email\":\"a\"}".to_string()).unwrap();
    assert_eq!(call.request.url, format!("{}login/", BASE));
    assert_eq!(call.request.method, Method::POST);
    assert_eq!(headers(&call), vec![("Content-Type", "application/json")]);
    assert_eq!(call.request.body.as_deref(), Some("{\"email\":\"a\"}"));
    assert_eq!(
        known(&call),
        vec![
            (200, Outcome::Empty),
            (201, Outcome::Success),
            (400, Outcome::Rejected(ErrorShape::Login)),
            (401, Outcome::Unauthorized),
            (403, Outcome::Rejected(ErrorShape::InvalidCredential)),
            (503, Outcome::ServiceUnavailable),
        ]
    );
    let call = Auth::register_user("{}".to_string()).unwrap();
    assert_eq!(call.request.url, format!("{}register/", BASE));
    assert_eq!(
        known(&call),
        vec![
            (201, Outcome::Success),
            (400, Outcome::Rejected(ErrorShape::Register)),
            (401, Outcome::Unauthorized),
        ]
    );
    let call = Auth::two_factor_login("{}".to_string()).unwrap();
    assert_eq!(call.request.url, format!("{}two-factor-login/", BASE));
    assert_eq!(
        known(&call),
        vec![
            (201, Outcome::Success),
            (400, Outcome::Rejected(ErrorShape::Otp)),
            (401, Outcome::Unauthorized),
        ]
    );
    let call = Auth::refresh_token("{}".to_string()).unwrap();
    assert_eq!(call.request.url, format!("{}token/refresh/", BASE));
    assert_eq!(headers(&call), vec![("Content-Type", "application/json")]);
    assert_eq!(
        known(&call),
        vec![
            (200, Outcome::Success),
            (400, Outcome::Rejected(ErrorShape::InvalidJwtToken)),
            (401, Outcome::Unauthorized),
        ]
    );
}

#[test]
fn authentication_results() {
    let token = TokenData { access: "acc".to_string(), refresh: "ref".to_string() };
    assert_eq!(Auth::login_response(None), LoginResponse::RequiresTwoFactor(true));
    assert_eq!(Auth::login_response(Some(token.clone())), LoginResponse::Jwt("acc".to_string()));
    assert_eq!(Auth::two_factor_response(token), OtpLoginResponse::Jwt("acc".to_string()));
    assert_eq!(Auth::otp_login("123456".to_string()).otp_token, "123456");
    assert_eq!(Auth::refresh("old".to_string()).refresh, "old");
}

#[test]
fn feedback_calls() {
    let call = Feedback::messengers_list().unwrap();
    assert_eq!(call.request.url, format!("{}feedback/messengers/", BASE));
    assert_eq!(call.request.method, Method::GET);
    assert!(call.request.headers.is_empty());
    assert!(call.request.body.is_none());
    assert_eq!(known(&call), standard());
}

#[test]
fn endpoints_and_references() {
    let found = endpoint(Api::User(UserApi::Orders)).unwrap();
    assert_eq!(found.0.as_str(), format!("{}user/orders/", BASE));
    assert_eq!(found.1, Method::GET);
    let url = resolve(&found.0, "12").unwrap();
    assert_eq!(url.as_str(), format!("{}user/orders/12", BASE));
    match resolve(&found.0, "https://[bad") {
        Err(RichamsterError::UrlParse(_)) => {}
        other => panic!("unexpected: {:?}", other),
    }
    let table = StatusTable::standard();
    assert_eq!(table.lookup(200), Some(&Outcome::Success));
    assert_eq!(table.lookup(201), None);
}

#[test]
fn placeholders_are_found_percent_decoded() {
    let segments = vec!["exchange", "favourites", "%7Bid%7D", "toggle", ""];
    assert_eq!(
        replace_placeholder(segments, "17".to_string(), "{id}"),
        "exchange/favourites/17/toggle/"
    );
    assert_eq!(replace_placeholder(vec!["{id}"], "x".to_string(), "{id}"), "x");
    assert_eq!(replace_placeholder(vec!["a", "{id} "], "x".to_string(), "{id}"), "a/{id} ");
    assert_eq!(replace_placeholder(Vec::new(), "x".to_string(), "{id}"), "");
    assert_eq!(replace_placeholder(vec!["", ""], "x".to_string(), "{id}"), "/");
}

#[test]
fn channel_withdrawals_at_a_named_endpoint() {
    let client = Withdraw::with_keys("AB12".to_string(), "s3cr3t".to_string());
    let call = client.withdraw_info(Api::Payments(PaymentsApi::WithdrawInfo), Token::BTC).unwrap();
    assert_eq!(call.request.url, format!("{}payments/withdraw/BTC", BASE));
    assert_eq!(call.request.method, Method::GET);
    assert_eq!(known(&call), standard());
    let body = "{\"sum\":\"2\"}".to_string();
    let call =
        client.withdraw(Api::Payments(PaymentsApi::Withdraw), Token::UAH, body.clone()).unwrap();
    assert_eq!(call.request.url, format!("{}payments/withdraw/UAH", BASE));
    assert_eq!(call.request.method, Method::POST);
    assert_eq!(call.request.body, Some(body.clone()));
    assert_eq!(call.request.headers[2].value, signature_of("s3cr3t", body.as_bytes()));
    assert_eq!(
        known(&call),
        vec![
            (200, Outcome::Success),
            (400, Outcome::Rejected(ErrorShape::WithdrawFields)),
            (401, Outcome::Unauthorized),
            (403, Outcome::Rejected(ErrorShape::WithdrawDetail)),
        ]
    );
    assert!(matches!(Withdraw::new().auth_state(), AuthState::Unauthorized));
    assert!(matches!(Withdraw::default().auth_state(), AuthState::Unauthorized));
    assert!(matches!(
        Withdraw::with_jwt_token("t".to_string()).auth_state(),
        AuthState::JwtTokenAuth(_)
    ));
}

#[test]
fn replenishing_at_a_named_endpoint() {
    let client = Replenish::with_jwt_token("tok".to_string());
    let call = client
        .replenish_info(Api::Payments(PaymentsApi::ReplenishInfo), Token::USDT, "trc20".to_string())
        .unwrap();
    assert_eq!(call.request.url, format!("{}payments/replenish/USDT/trc20/", BASE));
    assert_eq!(call.request.method, Method::GET);
    assert_eq!(headers(&call), vec![("Authorization", "JWT tok")]);
    assert_eq!(
        known(&call),
        vec![
            (200, Outcome::Success),
            (401, Outcome::Unauthorized),
            (404, Outcome::ReplenishInfoNotFound(Token::USDT, "trc20".to_string())),
        ]
    );
    let call = client
        .replenish_channels_info(Api::Payments(PaymentsApi::ReplenishInfo), Token::TON)
        .unwrap();
    assert_eq!(call.request.url, format!("{}payments/replenish/TON", BASE));
    assert_eq!(known(&call), standard());
    let call =
        client.replenish_p2p(Api::Payments(PaymentsApi::Replenish), "{}".to_string()).unwrap();
    assert_eq!(call.request.url, format!("{}payments/replenish/", BASE));
    assert_eq!(call.request.method, Method::POST);
    assert_eq!(call.request.body.as_deref(), Some("{}"));
    assert_eq!(known(&call), vec![(201, Outcome::Success), (401, Outcome::Unauthorized)]);
    assert!(matches!(
        Replenish::with_keys("k".to_string(), "s".to_string()).auth_state(),
        AuthState::ApiSecretKeyAuth(_, _)
    ));
}

#[test]
fn filling_and_joining_segments() {
    assert_eq!(fill("%7Bid%7D", "{id}", "17", "{id}"), "17");
    assert_eq!(fill("toggle", "toggle", "17", "{id}"), "toggle");
    assert_eq!(fill("{id}", "other", "17", "{id}"), "{id}");
    assert_eq!(join_segments(&vec!["a", "b", ""]), "a/b/");
    assert_eq!(join_segments(&vec!["a"]), "a");
    assert_eq!(join_segments(&Vec::new()), "");
}
