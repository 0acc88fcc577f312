use percent_encoding::percent_decode_str;
use richamster_api::api::{
    Api, AuthenticationApi, ExchangeApi, FeedbackApi, Method, PaymentsApi, RequestPath,
    TransferApi, UserApi,
};

#[test]
fn exchange_join_path() {
    let req_data = Api::Exchange(ExchangeApi::MarketOrder).request_data().unwrap();
    assert_eq!(
        percent_decode_str(req_data.0.as_str()).decode_utf8_lossy(),
        "https://richamster.com/public/v1/exchange/user/orders/market/"
    );
    assert_eq!(req_data.1, Method::GET);
    let req_data = Api::Exchange(ExchangeApi::OrdersHistory).request_data().unwrap();
    assert_eq!(
        percent_decode_str(req_data.0.as_str()).decode_utf8_lossy(),
        "https://richamster.com/public/v1/exchange/orders/history/"
    );
    assert_eq!(req_data.1, Method::GET);
    let req_data = Api::Exchange(ExchangeApi::NewOrder).request_data().unwrap();
    assert_eq!(
        percent_decode_str(req_data.0.as_str()).decode_utf8_lossy(),
        "https://richamster.com/public/v1/exchange/user/orders/"
    );
    assert_eq!(req_data.1, Method::POST);
    let req_data = Api::Exchange(ExchangeApi::UserOrders).request_data().unwrap();
    assert_eq!(
        percent_decode_str(req_data.0.as_str()).decode_utf8_lossy(),
        "https://richamster.com/public/v1/exchange/user/orders/"
    );
    assert_eq!(req_data.1, Method::GET);
    let req_data = Api::Exchange(ExchangeApi::DestroyOrder).request_data().unwrap();
    assert_eq!(
        percent_decode_str(req_data.0.as_str()).decode_utf8_lossy(),
        "https://richamster.com/public/v1/exchange/user/orders/"
    );
    assert_eq!(req_data.1, Method::DELETE);
    let req_data = Api::Exchange(ExchangeApi::OrderBook).request_data().unwrap();
    assert_eq!(
        percent_decode_str(req_data.0.as_str()).decode_utf8_lossy(),
        "https://richamster.com/public/v1/exchange/order-book/"
    );
    assert_eq!(req_data.1, Method::GET);
    let req_data = Api::Exchange(ExchangeApi::Restrictions).request_data().unwrap();
    assert_eq!(
        percent_decode_str(req_data.0.as_str()).decode_utf8_lossy(),
        "https://richamster.com/public/v1/exchange/restrictions/"
    );
    assert_eq!(req_data.1, Method::GET);
    let req_data = Api::Exchange(ExchangeApi::Currencies).request_data().unwrap();
    assert_eq!(
        percent_decode_str(req_data.0.as_str()).decode_utf8_lossy(),
        "https://richamster.com/public/v1/exchange/currencies/"
    );
    assert_eq!(req_data.1, Method::GET);
    let req_data = Api::Exchange(ExchangeApi::Favourites).request_data().unwrap();
    assert_eq!(
        percent_decode_str(req_data.0.as_str()).decode_utf8_lossy(),
        "https://richamster.com/public/v1/exchange/favourites/{id}/toggle/"
    );
    let req_data = Api::Exchange(ExchangeApi::ExecuteMarketOrder).request_data().unwrap();
    assert_eq!(
        percent_decode_str(req_data.0.as_str()).decode_utf8_lossy(),
        "https://richamster.com/public/v1/exchange/user/orders/market/"
    );
    assert_eq!(req_data.1, Method::POST);
    let req_data = Api::Exchange(ExchangeApi::TickerList).request_data().unwrap();
    assert_eq!(
        percent_decode_str(req_data.0.as_str()).decode_utf8_lossy(),
        "https://richamster.com/public/v1/exchange/ticker/"
    );
    assert_eq!(req_data.1, Method::GET);
    let req_data = Api::Exchange(ExchangeApi::OrderBook).request_data().unwrap();
    assert_eq!(
        percent_decode_str(req_data.0.as_str()).decode_utf8_lossy(),
        "https://richamster.com/public/v1/exchange/order-book/"
    );
    assert_eq!(req_data.1, Method::GET);
}

#[test]
fn auth_join_path() {
    let req_data = Api::Authentication(AuthenticationApi::Login).request_data().unwrap();
    assert_eq!(
        percent_decode_str(req_data.0.as_str()).decode_utf8_lossy(),
        "https://richamster.com/public/v1/login/"
    );
    assert_eq!(req_data.1, Method::POST);
    let req_data = Api::Authentication(AuthenticationApi::Register).request_data().unwrap();
    assert_eq!(
        percent_decode_str(req_data.0.as_str()).decode_utf8_lossy(),
        "https://richamster.com/public/v1/register/"
    );
    assert_eq!(req_data.1, Method::POST);
    let req_data = Api::Authentication(AuthenticationApi::TwoFactorLogin).request_data().unwrap();
    assert_eq!(
        percent_decode_str(req_data.0.as_str()).decode_utf8_lossy(),
        "https://richamster.com/public/v1/two-factor-login/"
    );
    assert_eq!(req_data.1, Method::POST);
    let req_data = Api::Authentication(AuthenticationApi::RefreshToken).request_data().unwrap();
    assert_eq!(
        percent_decode_str(req_data.0.as_str()).decode_utf8_lossy(),
        "https://richamster.com/public/v1/token/refresh/"
    );
    assert_eq!(req_data.1, Method::POST);
    let req_data = Api::Authentication(AuthenticationApi::VerifyToken).request_data().unwrap();
    assert_eq!(
        percent_decode_str(req_data.0.as_str()).decode_utf8_lossy(),
        "https://richamster.com/public/v1/token/verify/"
    );
    assert_eq!(req_data.1, Method::POST);
}

#[test]
fn feedback_join_path() {
    let req_data = Api::Feedback(FeedbackApi::ContactUs).request_data().unwrap();
    assert_eq!(
        percent_decode_str(req_data.0.as_str()).decode_utf8_lossy(),
        "https://richamster.com/public/v1/feedback/contact-us/"
    );
    assert_eq!(req_data.1, Method::POST);
    let req_data = Api::Feedback(FeedbackApi::Messengers).request_data().unwrap();
    assert_eq!(
        percent_decode_str(req_data.0.as_str()).decode_utf8_lossy(),
        "https://richamster.com/public/v1/feedback/messengers/"
    );
    assert_eq!(req_data.1, Method::GET);
}

#[test]
fn user_join_path() {
    let req_data = Api::User(UserApi::Detail).request_data().unwrap();
    assert_eq!(
        percent_decode_str(req_data.0.as_str()).decode_utf8_lossy(),
        "https://richamster.com/public/v1/user/detail/"
    );
    assert_eq!(req_data.1, Method::GET);
    let req_data = Api::User(UserApi::Balances).request_data().unwrap();
    assert_eq!(
        percent_decode_str(req_data.0.as_str()).decode_utf8_lossy(),
        "https://richamster.com/public/v1/user/balances/"
    );
    assert_eq!(req_data.1, Method::GET);
    let req_data = Api::User(UserApi::Orders).request_data().unwrap();
    assert_eq!(
        percent_decode_str(req_data.0.as_str()).decode_utf8_lossy(),
        "https://richamster.com/public/v1/user/orders/"
    );
    assert_eq!(req_data.1, Method::GET);
    let req_data = Api::User(UserApi::Transactions).request_data().unwrap();
    assert_eq!(
        percent_decode_str(req_data.0.as_str()).decode_utf8_lossy(),
        "https://richamster.com/public/v1/user/transactions/"
    );
    assert_eq!(req_data.1, Method::GET);
}

#[test]
fn payments_join_path() {
    let req_data = Api::Payments(PaymentsApi::Replenish).request_data().unwrap();
    assert_eq!(
        percent_decode_str(req_data.0.as_str()).decode_utf8_lossy(),
        "https://richamster.com/public/v1/payments/replenish/"
    );
    assert_eq!(req_data.1, Method::POST);
    let req_data = Api::Payments(PaymentsApi::Withdraw).request_data().unwrap();
    assert_eq!(
        percent_decode_str(req_data.0.as_str()).decode_utf8_lossy(),
        "https://richamster.com/public/v1/payments/withdraw/"
    );
    assert_eq!(req_data.1, Method::POST);
    let req_data = Api::Payments(PaymentsApi::ReplenishInfo).request_data().unwrap();
    assert_eq!(
        percent_decode_str(req_data.0.as_str()).decode_utf8_lossy(),
        "https://richamster.com/public/v1/payments/replenish/"
    );
    assert_eq!(req_data.1, Method::GET);
    let req_data = Api::Payments(PaymentsApi::WithdrawInfo).request_data().unwrap();
    assert_eq!(
        percent_decode_str(req_data.0.as_str()).decode_utf8_lossy(),
        "https://richamster.com/public/v1/payments/withdraw/"
    );
    assert_eq!(req_data.1, Method::GET);
}

#[test]
fn transfer_join_path() {
    let req_data = Api::Transfer(TransferApi::Transfer).request_data().unwrap();
    assert_eq!(
        percent_decode_str(req_data.0.as_str()).decode_utf8_lossy(),
        "https://richamster.com/public/v1/transfer/create/"
    );
    assert_eq!(req_data.1, Method::POST);
}

#[test]
fn full_url_resolves_against_the_base() {
    let api = Api::User(UserApi::Detail);
    let url = api.full_url("user/detail/").unwrap();
    assert_eq!(url.as_str(), "https://richamster.com/public/v1/user/detail/");
    let url = api.full_url("/elsewhere").unwrap();
    assert_eq!(url.as_str(), "https://richamster.com/elsewhere");
}

#[test]
fn method_names() {
    assert_eq!(Method::GET.as_str(), "GET");
    assert_eq!(Method::POST.as_str(), "POST");
    assert_eq!(Method::DELETE.as_str(), "DELETE");
}

#[test]
fn endpoint_paths_and_methods() {
    let api = Api::Exchange(ExchangeApi::Favourites);
    assert_eq!(api.request_path(), "exchange/favourites/{id}/toggle/");
    assert_eq!(api.request_method(), Method::POST);
    assert_eq!(api.request_data().unwrap().1, Method::POST);
    let api = Api::Exchange(ExchangeApi::DestroyOrder);
    assert_eq!(api.request_path(), "exchange/user/orders/");
    assert_eq!(api.request_method(), Method::DELETE);
    let api = Api::Authentication(AuthenticationApi::VerifyToken);
    assert_eq!(api.request_path(), "token/verify/");
    assert_eq!(api.request_method(), Method::POST);
    assert_eq!(Api::User(UserApi::Balances).request_method(), Method::GET);
    assert_eq!(Api::Feedback(FeedbackApi::ContactUs).request_method(), Method::POST);
    assert_eq!(Api::Payments(PaymentsApi::WithdrawInfo).request_method(), Method::GET);
    assert_eq!(Api::Transfer(TransferApi::Transfer).request_path(), "transfer/create/");
}
