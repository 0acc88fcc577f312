//! Shapes of the exchange endpoints: currencies, markets, tickers and orders.

use vstd::prelude::*;
use vstd::string::*;
use url::Url;
use crate::api::address::{
    append_pairs, pair_views, pairs_fit, try_append_pairs, url_string, url_text, with_pairs,
};
use crate::api::token::CurrencyPair;
use crate::models::common::{OrderType, Timestamp};
use crate::text::{decimal, decimal_i32};

verus! {

#[derive(PartialEq, Clone, Debug)]
pub struct CurrencyInfoResponse {
    pub success: bool,
    pub data: Vec<CurrencyInfo>,
}

#[derive(PartialEq, Clone, Debug)]
pub struct CurrencyInfo {
    pub id: i32,
    pub abbreviation: String,
    pub title: String,
    pub icon: Url,
    pub precision: i32,
}

/// A market as far as the library reads one: its number, and the pair that is
/// traded on it as the exchange writes it.
#[derive(PartialEq, Clone, Debug)]
pub struct MarketName {
    pub id: i32,
    pub abbreviation: String,
}

#[derive(PartialEq, Clone, Debug)]
pub struct CurrencyPairRestrictionResponse {
    pub success: bool,
    pub data: Vec<CurrencyPairRestriction>,
}

#[derive(PartialEq, Clone, Debug)]
pub struct CurrencyPairRestriction {
    pub id: i32,
    pub currency_pair: String,
    pub min_quantity: String,
    pub price_scale: i32,
}

#[derive(PartialEq, Clone, Debug)]
pub struct FavouritePairResponse {
    pub data: String,
}

#[derive(PartialEq, Clone, Debug)]
pub struct FavouriteErrorResponse {
    pub detail: String,
}

#[derive(PartialEq, Clone, Debug)]
pub struct TickerResponse {
    pub success: bool,
    pub data: Vec<Ticker>,
}

#[derive(PartialEq, Clone, Debug)]
pub struct Ticker {
    pub pk: i32,
    pub pair: String,
    pub last_price: String,
    pub first_price: String,
    pub high_price: Option<String>,
    pub low_price: Option<String>,
    pub base_volume: Option<String>,
    pub quote_volume: Option<String>,
}

#[derive(PartialEq, Clone, Debug)]
pub struct OrderResponse {
    pub success: bool,
    pub data: Vec<Order>,
}

#[derive(PartialEq, Clone, Debug)]
pub struct Order {
    pub volume: String,
    pub unit_price: String,
    pub sum: String,
    pub side: OrderType,
    pub pair: String,
}

#[derive(PartialEq, Clone, Debug)]
pub struct OrdersBook {
    pub buying: Option<Vec<Order>>,
    pub selling: Option<Vec<Order>>,
}

/// Which part of the order book is asked for.
#[derive(Clone, Debug)]
pub struct OrderBookFilter {
    pub pair: Option<CurrencyPair>,
    pub order_type: Option<OrderType>,
}

#[derive(Clone, Debug)]
pub struct OrderBookFilterBuilder {
    pub pair: Option<CurrencyPair>,
    pub order_type: Option<OrderType>,
}

#[derive(PartialEq, Clone, Debug)]
pub struct OrdersHistoryResponse {
    pub success: bool,
    pub data: Vec<OrderHistoryRecord>,
}

/// One page of orders, with the addresses of the pages around it.
#[derive(PartialEq, Clone, Debug)]
pub struct OrdersHistory {
    pub next: Option<Url>,
    pub previous: Option<Url>,
    pub results: Vec<OrderHistoryRecord>,
}

#[derive(PartialEq, Clone, Debug)]
pub struct OrderHistoryRecord {
    pub pk: i32,
    pub created_at: Timestamp,
    pub closed_at: Option<Timestamp>,
    pub side: OrderType,
    pub volume: String,
    pub unit_price: String,
    pub sum: String,
    pub pair: String,
}

/// Which orders are asked for, in which order, and how many to a page.
#[derive(Clone, Debug)]
pub struct OrdersFilter {
    pair: Option<CurrencyPair>,
    ordering: Option<String>,
    page_size: Option<i32>,
}

#[derive(PartialEq, Clone, Debug)]
pub struct NewOrderResponse {
    pub success: bool,
    pub data: NewOrder,
}

/// An order: as it is placed, with the amount, the price, the pair and the
/// side, and as the exchange returns it, with the rest filled in.
#[derive(PartialEq, Clone, Debug)]
pub struct NewOrder {
    pub pk: Option<i32>,
    pub order_type: Option<OrderType>,
    pub amount: String,
    pub unit_price: String,
    pub currency_pair: String,
    pub commission: Option<String>,
    pub closed_at: Option<Timestamp>,
    pub o_type: Option<OrderType>,
    pub created_at: Option<Timestamp>,
    pub is_partial: Option<bool>,
}

#[derive(PartialEq, Clone, Debug)]
pub struct NewOrderError {
    pub order_type: String,
    pub errors: Vec<OrderError>,
}

#[derive(PartialEq, Clone, Debug)]
pub struct OrderError {
    pub code: String,
    pub detail: String,
    pub attr: String,
}

#[derive(PartialEq, Clone, Debug)]
pub struct MarketOrderInfo {
    pub amount: String,
    pub currency_pair: i32,
    pub order_type: OrderType,
    pub total: Option<String>,
}

impl Order {
    /// The order on one line.
    pub open spec fn text(self) -> Seq<char> {
        "Order [pair: "@ + self.pair@ + ", side: "@ + self.side.name() + ", volume: "@
            + self.volume@ + ", unit_price: "@ + self.unit_price@ + ", sum: "@ + self.sum@ + "]"@
    }

    /// The order on one line, for example
    /// `Order [pair: BTC/UAH, side: Buying, volume: 1, unit_price: 2, sum: 2]`.
    pub fn to_string(&self) -> (text: String)
        ensures
            text@ == self.text(),
    {
        let mut text = "Order [pair: ".to_owned();
        text.append(self.pair.as_str());
        text.append(", side: ");
        text.append(self.side.variant_name());
        text.append(", volume: ");
        text.append(self.volume.as_str());
        text.append(", unit_price: ");
        text.append(self.unit_price.as_str());
        text.append(", sum: ");
        text.append(self.sum.as_str());
        text.append("]");
        text
    }
}

impl Default for OrderBookFilterBuilder {
    fn default() -> (builder: Self)
        ensures
            builder.pair is None,
            builder.order_type is None,
    {
        OrderBookFilterBuilder { pair: None, order_type: None }
    }
}

impl OrderBookFilterBuilder {
    pub fn new() -> (builder: Self)
        ensures
            builder.pair is None,
            builder.order_type is None,
    {
        OrderBookFilterBuilder { pair: None, order_type: None }
    }

    pub fn pair(self, pair: CurrencyPair) -> (builder: Self)
        ensures
            builder.pair == Some(pair),
            builder.order_type == self.order_type,
    {
        let mut builder = self;
        builder.pair = Some(pair);
        builder
    }

    pub fn order_type(self, order_type: OrderType) -> (builder: Self)
        ensures
            builder.pair == self.pair,
            builder.order_type == Some(order_type),
    {
        let mut builder = self;
        builder.order_type = Some(order_type);
        builder
    }

    pub fn build(self) -> (filter: OrderBookFilter)
        ensures
            filter.pair == self.pair,
            filter.order_type == self.order_type,
    {
        OrderBookFilter { pair: self.pair, order_type: self.order_type }
    }
}

impl OrderBookFilter {
    /// The query that asks for this part of the book: `pair`, then `side`,
    /// each only where it is set.
    pub open spec fn query(&self) -> Seq<(Seq<char>, Seq<char>)> {
        let pair = match self.pair {
            Some(pair) => seq![("pair"@, pair.text())],
            None => Seq::empty(),
        };
        let side = match self.order_type {
            Some(order_type) => seq![("side"@, order_type.text())],
            None => Seq::empty(),
        };
        pair + side
    }

    /// The pairs of `query`, as strings.
    pub fn query_pairs(&self) -> (pairs: Vec<(String, String)>)
        ensures
            pair_views(pairs@) == self.query(),
    {
        let mut pairs: Vec<(String, String)> = Vec::new();
        if let Some(pair) = &self.pair {
            pairs.push(("pair".to_owned(), pair.to_string()));
        }
        if let Some(order_type) = &self.order_type {
            pairs.push(("side".to_owned(), order_type.to_string()));
        }
        assert(pair_views(pairs@) =~= self.query());
        pairs
    }

    /// Adds the query to `url` and returns the text of the address.
    pub fn compose_url(&self, url: &mut Url) -> (text: String)
        requires
            pairs_fit(url_text(*old(url)), self.query()),
        ensures
            url_text(*final(url)) == with_pairs(url_text(*old(url)), self.query()),
            text@ == url_text(*final(url)),
    {
        let pairs = self.query_pairs();
        append_pairs(url, &pairs);
        url_string(url)
    }

    /// Adds the query to `url` and returns the text of the address, unless
    /// the address would grow too long: then `url` is left as it was.
    pub fn try_compose_url(&self, url: &mut Url) -> (text: Option<String>)
        ensures
            text is Some == pairs_fit(url_text(*old(url)), self.query()),
            match text {
                Some(text) => url_text(*final(url)) == with_pairs(
                    url_text(*old(url)),
                    self.query(),
                ) && text@ == url_text(*final(url)),
                None => *final(url) == *old(url),
            },
    {
        let pairs = self.query_pairs();
        if try_append_pairs(url, &pairs) {
            Some(url_string(url))
        } else {
            None
        }
    }
}

impl OrdersFilter {
    pub fn new(pair: Option<CurrencyPair>, ordering: Option<String>, page_size: Option<i32>) -> (filter: Self)
        ensures
            filter.pair() == pair,
            filter.ordering() == ordering,
            filter.page_size() == page_size,
    {
        Self { pair, ordering, page_size }
    }

    pub closed spec fn pair(&self) -> Option<CurrencyPair> {
        self.pair
    }

    pub closed spec fn ordering(&self) -> Option<String> {
        self.ordering
    }

    pub closed spec fn page_size(&self) -> Option<i32> {
        self.page_size
    }

    /// The query that asks for these orders: `pair`, `ordering`, then
    /// `page_size`, each only where it is set.
    pub open spec fn query(&self) -> Seq<(Seq<char>, Seq<char>)> {
        let pair = match self.pair() {
            Some(pair) => seq![("pair"@, pair.text())],
            None => Seq::empty(),
        };
        let ordering = match self.ordering() {
            Some(ordering) => seq![("ordering"@, ordering@)],
            None => Seq::empty(),
        };
        let page_size = match self.page_size() {
            Some(page_size) => seq![("page_size"@, decimal(page_size as int))],
            None => Seq::empty(),
        };
        pair + ordering + page_size
    }

    /// The pairs of `query`, as strings.
    pub fn query_pairs(&self) -> (pairs: Vec<(String, String)>)
        ensures
            pair_views(pairs@) == self.query(),
    {
        let mut pairs: Vec<(String, String)> = Vec::new();
        if let Some(pair) = &self.pair {
            pairs.push(("pair".to_owned(), pair.to_string()));
        }
        if let Some(ordering) = &self.ordering {
            pairs.push(("ordering".to_owned(), ordering.clone()));
        }
        if let Some(page_size) = &self.page_size {
            pairs.push(("page_size".to_owned(), decimal_i32(*page_size)));
        }
        assert(pair_views(pairs@) =~= self.query());
        pairs
    }

    /// Adds the query to `url` and returns the text of the address.
    pub fn compose_url(&self, url: &mut Url) -> (text: String)
        requires
            pairs_fit(url_text(*old(url)), self.query()),
        ensures
            url_text(*final(url)) == with_pairs(url_text(*old(url)), self.query()),
            text@ == url_text(*final(url)),
    {
        let pairs = self.query_pairs();
        append_pairs(url, &pairs);
        url_string(url)
    }

    /// Adds the query to `url` and returns the text of the address, unless
    /// the address would grow too long: then `url` is left as it was.
    pub fn try_compose_url(&self, url: &mut Url) -> (text: Option<String>)
        ensures
            text is Some == pairs_fit(url_text(*old(url)), self.query()),
            match text {
                Some(text) => url_text(*final(url)) == with_pairs(
                    url_text(*old(url)),
                    self.query(),
                ) && text@ == url_text(*final(url)),
                None => *final(url) == *old(url),
            },
    {
        let pairs = self.query_pairs();
        if try_append_pairs(url, &pairs) {
            Some(url_string(url))
        } else {
            None
        }
    }
}

impl NewOrder {
    /// An order to place: the amount, the price, the pair as the exchange
    /// writes it and the side. What only the exchange knows is left out.
    pub fn new(amount: String, unit_price: String, currency_pair: CurrencyPair, order_type: OrderType) -> (order: Self)
        ensures
            order.amount == amount,
            order.unit_price == unit_price,
            order.currency_pair@ == currency_pair.text(),
            order.o_type == Some(order_type),
            order.pk is None,
            order.order_type is None,
            order.commission is None,
            order.closed_at is None,
            order.created_at is None,
            order.is_partial is None,
    {
        Self {
            pk: None,
            order_type: None,
            amount,
            unit_price,
            currency_pair: currency_pair.to_string(),
            commission: None,
            closed_at: None,
            o_type: Some(order_type),
            created_at: None,
            is_partial: None,
        }
    }
}

} // verus!
