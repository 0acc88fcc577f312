//! The endpoints of the exchange's public API: where each one lives and with
//! which method it is called.

pub mod address;
pub mod token;

use vstd::prelude::*;
use url::{ParseError, Url};
use crate::api::address::{join_url, parse_url, url_joined, url_parsed, url_text};

verus! {

/// The request methods that the endpoints use.
#[derive(Clone, Copy, Debug, PartialEq, Eq, Structural)]
pub enum Method {
    GET,
    POST,
    DELETE,
}

pub enum Api {
    Exchange(ExchangeApi),
    Feedback(FeedbackApi),
    Authentication(AuthenticationApi),
    Payments(PaymentsApi),
    Transfer(TransferApi),
    User(UserApi),
}

pub enum ExchangeApi {
    Currencies,
    Favourites,
    Markets,
    OrderBook,
    OrdersHistory,
    Restrictions,
    TickerList,
    UserOrders,
    NewOrder,
    MarketOrder,
    ExecuteMarketOrder,
    DestroyOrder,
}

pub enum FeedbackApi {
    ContactUs,
    Messengers,
}

pub enum AuthenticationApi {
    Login,
    Register,
    RefreshToken,
    VerifyToken,
    TwoFactorLogin,
}

pub enum PaymentsApi {
    ReplenishInfo,
    Replenish,
    WithdrawInfo,
    Withdraw,
}

pub enum TransferApi {
    Transfer,
}

pub enum UserApi {
    Balances,
    Detail,
    Orders,
    Transactions,
}

/// An endpoint's address and the method to call it with.
pub struct RequestData(pub Url, pub Method);

/// The address that every endpoint's path is resolved against.
pub open spec fn base_address() -> Seq<char> {
    "https://richamster.com/public/v1/"@
}

/// The text of the address that `path` resolves to against the base address,
/// or the error of the `url` crate's parser.
pub open spec fn resolved(path: Seq<char>) -> Result<Seq<char>, ParseError> {
    match url_parsed(base_address()) {
        Ok(base) => url_joined(base, path),
        Err(e) => Err(e),
    }
}

impl Method {
    /// The method's name as it is written in a request.
    pub open spec fn name(self) -> Seq<char> {
        match self {
            Method::GET => "GET"@,
            Method::POST => "POST"@,
            Method::DELETE => "DELETE"@,
        }
    }

    pub fn as_str(&self) -> (name: &'static str)
        ensures
            name@ == self.name(),
    {
        match self {
            Method::GET => "GET",
            Method::POST => "POST",
            Method::DELETE => "DELETE",
        }
    }
}

impl Api {
    /// The endpoint's path below the base address.
    pub open spec fn path(self) -> Seq<char> {
        match self {
            Api::Exchange(ExchangeApi::Currencies) => "exchange/currencies/"@,
            Api::Exchange(ExchangeApi::Favourites) => "exchange/favourites/{id}/toggle/"@,
            Api::Exchange(ExchangeApi::Markets) => "exchange/markets/"@,
            Api::Exchange(ExchangeApi::OrderBook) => "exchange/order-book/"@,
            Api::Exchange(ExchangeApi::OrdersHistory) => "exchange/orders/history/"@,
            Api::Exchange(ExchangeApi::Restrictions) => "exchange/restrictions/"@,
            Api::Exchange(ExchangeApi::TickerList) => "exchange/ticker/"@,
            Api::Exchange(ExchangeApi::UserOrders) => "exchange/user/orders/"@,
            Api::Exchange(ExchangeApi::NewOrder) => "exchange/user/orders/"@,
            Api::Exchange(ExchangeApi::MarketOrder) => "exchange/user/orders/market/"@,
            Api::Exchange(ExchangeApi::ExecuteMarketOrder) => "exchange/user/orders/market/"@,
            Api::Exchange(ExchangeApi::DestroyOrder) => "exchange/user/orders/"@,
            Api::Feedback(FeedbackApi::ContactUs) => "feedback/contact-us/"@,
            Api::Feedback(FeedbackApi::Messengers) => "feedback/messengers/"@,
            Api::Authentication(AuthenticationApi::Login) => "login/"@,
            Api::Authentication(AuthenticationApi::Register) => "register/"@,
            Api::Authentication(AuthenticationApi::RefreshToken) => "token/refresh/"@,
            Api::Authentication(AuthenticationApi::VerifyToken) => "token/verify/"@,
            Api::Authentication(AuthenticationApi::TwoFactorLogin) => "two-factor-login/"@,
            Api::Payments(PaymentsApi::ReplenishInfo) => "payments/replenish/"@,
            Api::Payments(PaymentsApi::Replenish) => "payments/replenish/"@,
            Api::Payments(PaymentsApi::WithdrawInfo) => "payments/withdraw/"@,
            Api::Payments(PaymentsApi::Withdraw) => "payments/withdraw/"@,
            Api::Transfer(TransferApi::Transfer) => "transfer/create/"@,
            Api::User(UserApi::Balances) => "user/balances/"@,
            Api::User(UserApi::Detail) => "user/detail/"@,
            Api::User(UserApi::Orders) => "user/orders/"@,
            Api::User(UserApi::Transactions) => "user/transactions/"@,
        }
    }

    /// The method that the endpoint is called with.
    pub open spec fn method(self) -> Method {
        match self {
            Api::Exchange(ExchangeApi::Favourites) => Method::POST,
            Api::Exchange(ExchangeApi::NewOrder) => Method::POST,
            Api::Exchange(ExchangeApi::ExecuteMarketOrder) => Method::POST,
            Api::Exchange(ExchangeApi::DestroyOrder) => Method::DELETE,
            Api::Exchange(_) => Method::GET,
            Api::Feedback(FeedbackApi::ContactUs) => Method::POST,
            Api::Feedback(FeedbackApi::Messengers) => Method::GET,
            Api::Authentication(_) => Method::POST,
            Api::Payments(PaymentsApi::ReplenishInfo) => Method::GET,
            Api::Payments(PaymentsApi::Replenish) => Method::POST,
            Api::Payments(PaymentsApi::WithdrawInfo) => Method::GET,
            Api::Payments(PaymentsApi::Withdraw) => Method::POST,
            Api::Transfer(TransferApi::Transfer) => Method::POST,
            Api::User(_) => Method::GET,
        }
    }

    /// The text of the endpoint's address, or the parser's error.
    pub open spec fn address(self) -> Result<Seq<char>, ParseError> {
        resolved(self.path())
    }

    /// The endpoint's path below the base address.
    pub fn request_path(&self) -> (path: &'static str)
        ensures
            path@ == self.path(),
    {
        match self {
            Api::Exchange(exchange) => match exchange {
                ExchangeApi::Currencies => "exchange/currencies/",
                ExchangeApi::Favourites => "exchange/favourites/{id}/toggle/",
                ExchangeApi::Markets => "exchange/markets/",
                ExchangeApi::OrderBook => "exchange/order-book/",
                ExchangeApi::OrdersHistory => "exchange/orders/history/",
                ExchangeApi::Restrictions => "exchange/restrictions/",
                ExchangeApi::TickerList => "exchange/ticker/",
                ExchangeApi::UserOrders => "exchange/user/orders/",
                ExchangeApi::NewOrder => "exchange/user/orders/",
                ExchangeApi::MarketOrder => "exchange/user/orders/market/",
                ExchangeApi::ExecuteMarketOrder => "exchange/user/orders/market/",
                ExchangeApi::DestroyOrder => "exchange/user/orders/",
            },
            Api::Feedback(feedback) => match feedback {
                FeedbackApi::ContactUs => "feedback/contact-us/",
                FeedbackApi::Messengers => "feedback/messengers/",
            },
            Api::Authentication(authentication) => match authentication {
                AuthenticationApi::Login => "login/",
                AuthenticationApi::Register => "register/",
                AuthenticationApi::RefreshToken => "token/refresh/",
                AuthenticationApi::VerifyToken => "token/verify/",
                AuthenticationApi::TwoFactorLogin => "two-factor-login/",
            },
            Api::Payments(payments) => match payments {
                PaymentsApi::ReplenishInfo => "payments/replenish/",
                PaymentsApi::Replenish => "payments/replenish/",
                PaymentsApi::WithdrawInfo => "payments/withdraw/",
                PaymentsApi::Withdraw => "payments/withdraw/",
            },
            Api::Transfer(transfer) => match transfer {
                TransferApi::Transfer => "transfer/create/",
            },
            Api::User(user) => match user {
                UserApi::Balances => "user/balances/",
                UserApi::Detail => "user/detail/",
                UserApi::Orders => "user/orders/",
                UserApi::Transactions => "user/transactions/",
            },
        }
    }

    /// The method that the endpoint is called with.
    pub fn request_method(&self) -> (method: Method)
        ensures
            method == self.method(),
    {
        match self {
            Api::Exchange(exchange) => match exchange {
                ExchangeApi::Favourites => Method::POST,
                ExchangeApi::NewOrder => Method::POST,
                ExchangeApi::ExecuteMarketOrder => Method::POST,
                ExchangeApi::DestroyOrder => Method::DELETE,
                _ => Method::GET,
            },
            Api::Feedback(feedback) => match feedback {
                FeedbackApi::ContactUs => Method::POST,
                FeedbackApi::Messengers => Method::GET,
            },
            Api::Authentication(_) => Method::POST,
            Api::Payments(payments) => match payments {
                PaymentsApi::ReplenishInfo => Method::GET,
                PaymentsApi::Replenish => Method::POST,
                PaymentsApi::WithdrawInfo => Method::GET,
                PaymentsApi::Withdraw => Method::POST,
            },
            Api::Transfer(_) => Method::POST,
            Api::User(_) => Method::GET,
        }
    }
}

pub trait RequestPath {
    /// The endpoint's address and method.
    fn request_data(&self) -> Result<RequestData, ParseError>;

    /// The address that `path` resolves to against the base address.
    fn full_url(&self, path: &str) -> Result<Url, ParseError>;
}

impl RequestPath for Api {
    fn request_data(&self) -> (data: Result<RequestData, ParseError>)
        ensures
            match data {
                Ok(found) => self.address() == Ok::<Seq<char>, ParseError>(url_text(found.0))
                    && found.1 == self.method(),
                Err(e) => self.address() == Err::<Seq<char>, ParseError>(e),
            },
    {
        let path = self.request_path();
        let method = self.request_method();
        match self.full_url(path) {
            Ok(url) => Ok(RequestData(url, method)),
            Err(e) => Err(e),
        }
    }

    fn full_url(&self, path: &str) -> (url: Result<Url, ParseError>)
        ensures
            match url {
                Ok(found) => resolved(path@) == Ok::<Seq<char>, ParseError>(url_text(found)),
                Err(e) => resolved(path@) == Err::<Seq<char>, ParseError>(e),
            },
    {
        match parse_url("https://richamster.com/public/v1/") {
            Ok(base) => join_url(&base, path),
            Err(e) => Err(e),
        }
    }
}

} // verus!
