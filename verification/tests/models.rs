use richamster_api::api::token::{CurrencyPair, Token};
use richamster_api::console::{
    after_login, after_second_factor, JwtTokenStorage, LoginStep, Menu, MenuItems,
};
use richamster_api::errors::RichamsterError;
use richamster_api::models::auth::{
    Login, LoginResponse, LoginResponseError, OtpLoginResponse, OtpLoginResponseError,
};
use richamster_api::models::authentication;
use richamster_api::models::common::{OrderType, Timestamp};
use richamster_api::models::deserialize::{
    date_string_deserialize, option_timestamp_deserialize, string_timestamp_deserialize,
    TimestampError,
};
use richamster_api::models::exchange::{NewOrder, Order};
use richamster_api::models::user::UserDetail;
use richamster_api::richamster::common::AuthState;
use richamster_api::text::{append_decimal, decimal_i32, decimal_u64, same_text};

#[test]
fn decimal_numerals() {
    for v in [0i32, 1, 9, 10, 11, 99, 100, 101, 2147483647, -1, -9, -10, -2147483648, 1000000] {
        assert_eq!(decimal_i32(v), v.to_string());
    }
    for v in [0u64, 7, 10, 4294967296, u64::MAX] {
        assert_eq!(decimal_u64(v), v.to_string());
    }
    let mut out = "n=".to_string();
    append_decimal(&mut out, 120);
    assert_eq!(out, "n=120");
}

#[test]
fn same_text_compares_characters() {
    assert!(same_text("", ""));
    assert!(same_text("\u{444}a", "\u{444}a"));
    assert!(!same_text("a", "A"));
    assert!(!same_text("a", "ab"));
}

#[test]
fn logins_hold_what_they_were_given() {
    let login = Login::new("me@example.com", "pw");
    assert_eq!(login.email, "me@example.com");
    assert_eq!(login.password, "pw");
    let login = authentication::Login::new("me", "pw");
    assert_eq!(login.username, "me");
    assert_eq!(login.password, "pw");
    let empty = LoginResponseError::default();
    assert!(empty.type_field.is_empty() && empty.errors.is_empty());
}

#[test]
fn a_new_order_names_what_the_user_knows() {
    let order = NewOrder::new(
        "1.0".to_string(),
        "2.5".to_string(),
        CurrencyPair::new(Token::BTC, Token::UAH),
        OrderType::Selling,
    );
    assert_eq!(order.amount, "1.0");
    assert_eq!(order.unit_price, "2.5");
    assert_eq!(order.currency_pair, "BTC/UAH");
    assert_eq!(order.o_type, Some(OrderType::Selling));
    assert!(order.pk.is_none() && order.order_type.is_none() && order.commission.is_none());
    assert!(order.closed_at.is_none() && order.created_at.is_none() && order.is_partial.is_none());
}

#[test]
fn an_order_on_one_line() {
    let order = Order {
        volume: "1".to_string(),
        unit_price: "2".to_string(),
        sum: "3".to_string(),
        side: OrderType::Buying,
        pair: "BTC/UAH".to_string(),
    };
    assert_eq!(
        order.to_string(),
        "Order [pair: BTC/UAH, side: Buying, volume: 1, unit_price: 2, sum: 3]"
    );
}

#[test]
fn user_details_line_by_line() {
    let full = UserDetail {
        username: "na\"me".to_string(),
        first_name: Some("F".to_string()),
        middle_name: Some("M".to_string()),
        last_name: Some("L".to_string()),
        dices: Some(-3),
        role: Some("user".to_string()),
        phone: Some("+380".to_string()),
        email: "e@x".to_string(),
        fee: Some("0.2".to_string()),
    };
    assert_eq!(
        full.to_string(),
        "Username: \"na\\\"me\"\nFirst name: F\nMiddle name: M\nLast name: L\nDices: -3\nRole: user\nPhone: +380\nEmail: e@x\nFee: 0.2\n"
    );
    let bare = UserDetail {
        username: "n".to_string(),
        first_name: None,
        middle_name: None,
        last_name: None,
        dices: None,
        role: None,
        phone: None,
        email: "e".to_string(),
        fee: None,
    };
    assert_eq!(bare.to_string(), "Username: \"n\"\nEmail: e\n");
    assert_eq!(bare.render("shown"), "Username: shown\nEmail: e\n");
}

#[test]
fn instants_from_texts_of_seconds() {
    assert_eq!(
        string_timestamp_deserialize(Some("1431648000".to_string())),
        Ok(Timestamp { seconds: 1431648000, nanos: 0 })
    );
    assert_eq!(
        string_timestamp_deserialize(Some("-1".to_string())),
        Ok(Timestamp { seconds: -1, nanos: 0 })
    );
    assert_eq!(string_timestamp_deserialize(None), Err(TimestampError::Missing));
    assert_eq!(
        string_timestamp_deserialize(Some("12.5".to_string())),
        Err(TimestampError::NotANumber)
    );
    assert_eq!(string_timestamp_deserialize(Some(String::new())), Err(TimestampError::NotANumber));
    assert_eq!(
        string_timestamp_deserialize(Some("9223372036854775807".to_string())),
        Err(TimestampError::OutOfRange)
    );
    assert_eq!(option_timestamp_deserialize(None), Ok(None));
    assert_eq!(
        option_timestamp_deserialize(Some("5".to_string())),
        Ok(Some(Timestamp { seconds: 5, nanos: 0 }))
    );
    assert_eq!(
        option_timestamp_deserialize(Some("x".to_string())),
        Err(TimestampError::NotANumber)
    );
}

#[test]
fn instants_from_dates() {
    assert_eq!(
        date_string_deserialize(Some("1996-12-19T16:39:57-08:00".to_string())),
        Some(Timestamp { seconds: 851042397, nanos: 0 })
    );
    assert_eq!(
        date_string_deserialize(Some("2015-05-15T00:00:00.25Z".to_string())),
        Some(Timestamp { seconds: 1431648000, nanos: 250000000 })
    );
    assert_eq!(date_string_deserialize(Some("yesterday".to_string())), None);
    assert_eq!(date_string_deserialize(None), None);
}

#[test]
fn menu_entries() {
    assert_eq!(
        Menu::items(),
        vec![
            MenuItems::Login,
            MenuItems::UserDetails,
            MenuItems::UserBalance,
            MenuItems::UserTransactions,
            MenuItems::Quit,
        ]
    );
    assert_eq!(MenuItems::from(1), MenuItems::Login);
    assert_eq!(MenuItems::from(2), MenuItems::UserDetails);
    assert_eq!(MenuItems::from(3), MenuItems::UserBalance);
    assert_eq!(MenuItems::from(4), MenuItems::UserTransactions);
    assert_eq!(MenuItems::from(5), MenuItems::Quit);
    assert_eq!(MenuItems::from(0), MenuItems::Quit);
    assert_eq!(MenuItems::from(usize::MAX), MenuItems::Quit);
    assert_eq!(Menu::label(&MenuItems::Login), "1. Login");
    assert_eq!(Menu::label(&MenuItems::UserDetails), "2. User detail");
    assert_eq!(Menu::label(&MenuItems::UserBalance), "3. User balance");
    assert_eq!(Menu::label(&MenuItems::UserTransactions), "4. User transactions");
    assert_eq!(Menu::label(&MenuItems::Quit), "5. Quit");
    assert_eq!(Menu::title(&MenuItems::Login), "Login");
    assert_eq!(Menu::title(&MenuItems::UserTransactions), "User transactions");
    assert_eq!(Menu::title(&MenuItems::Quit), "");
}

#[test]
fn a_session_without_a_token_has_no_access() {
    let mut storage = JwtTokenStorage { token: None };
    assert!(matches!(storage.user(), Err(RichamsterError::UnauthorizedAccess)));
    storage.update_token("tok".to_string());
    assert_eq!(storage.token.as_deref(), Some("tok"));
    let user = storage.user().unwrap();
    assert!(matches!(user.auth_state(), AuthState::JwtTokenAuth(_)));
    assert_eq!(user.auth_state().sign(None).get("Authorization").unwrap().value, "JWT tok");
    storage.update_token("next".to_string());
    assert_eq!(storage.token.as_deref(), Some("next"));
}

#[test]
fn how_a_login_goes_on() {
    assert_eq!(after_login(LoginResponse::Jwt("t".to_string())), LoginStep::Token("t".to_string()));
    assert_eq!(after_login(LoginResponse::RequiresTwoFactor(true)), LoginStep::AskSecondFactor);
    assert_eq!(after_login(LoginResponse::RequiresTwoFactor(false)), LoginStep::AskSecondFactor);
    assert_eq!(after_second_factor(OtpLoginResponse::Jwt("t".to_string())).unwrap(), "t");
    let refused = OtpLoginResponseError { error_type: "e".to_string(), errors: Vec::new() };
    match after_second_factor(OtpLoginResponse::Error(refused.clone())) {
        Err(RichamsterError::Otp(carried)) => assert_eq!(carried, refused),
        other => panic!("unexpected: {:?}", other),
    }
}
