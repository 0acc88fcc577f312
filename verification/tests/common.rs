use richamster_api::models::common::{OrderType, TransactionType};
use richamster_api::richamster::common::AuthState;
use richamster_api::richamster::exchange::Exchange;
use richamster_api::richamster::user::User;

#[test]
fn order_type_to_string() {
    let order_type = OrderType::Buying;
    assert_eq!(order_type.to_string(), "buying");
}

#[test]
fn create_default_exchange() {
    let exchange: Exchange = Default::default();
    match exchange.auth_state() {
        AuthState::Unauthorized => assert!(true),
        _ => assert!(false),
    }
}

#[test]
fn create_default_user() {
    let user: User = Default::default();
    match user.auth_state() {
        AuthState::Unauthorized => assert!(true),
        _ => assert!(false),
    }
}

#[test]
fn order_type_texts() {
    assert_eq!(OrderType::Selling.to_string(), "selling");
    assert_eq!(OrderType::Selling.as_str(), "selling");
    assert_eq!(OrderType::Buying.variant_name(), "Buying");
    assert_eq!(OrderType::Selling.variant_name(), "Selling");
}

#[test]
fn transaction_type_numbers() {
    let kinds = [
        (1, TransactionType::Replenish),
        (2, TransactionType::Withdrawal),
        (3, TransactionType::Dividends),
        (4, TransactionType::Referral),
        (5, TransactionType::Transfer),
        (6, TransactionType::Conversion),
        (7, TransactionType::Staking),
        (8, TransactionType::OtcTransfer),
        (9, TransactionType::NftAuction),
    ];
    for (number, kind) in kinds {
        assert_eq!(TransactionType::from(number), kind);
        assert_eq!(i32::from(kind), number);
    }
    assert_eq!(TransactionType::from(0), TransactionType::Unknown);
    assert_eq!(TransactionType::from(10), TransactionType::Unknown);
    assert_eq!(TransactionType::from(-1), TransactionType::Unknown);
    assert_eq!(TransactionType::from(i32::MIN), TransactionType::Unknown);
    assert_eq!(i32::from(TransactionType::Unknown), -1);
}

#[test]
fn clients_hold_the_credentials_they_were_made_with() {
    assert!(matches!(Exchange::new().auth_state(), AuthState::Unauthorized));
    assert!(matches!(User::new().auth_state(), AuthState::Unauthorized));
    assert!(matches!(
        Exchange::with_jwt_token("t".to_string()).auth_state(),
        AuthState::JwtTokenAuth(_)
    ));
    assert!(matches!(
        User::with_keys("k".to_string(), "s".to_string()).auth_state(),
        AuthState::ApiSecretKeyAuth(_, _)
    ));
}
