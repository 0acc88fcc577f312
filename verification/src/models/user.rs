//! Shapes of the user endpoints: details, transactions and orders.

use vstd::prelude::*;
use vstd::string::*;
use url::Url;
use crate::api::address::{
    append_pairs, pair_views, pairs_fit, try_append_pairs, url_string, url_text, with_pairs,
};
use crate::api::token::{CurrencyPair, Token};
use crate::models::common::{OrderType, Timestamp, TransactionStatus, TransactionType};
use crate::text::{decimal, decimal_i32};

verus! {

#[derive(PartialEq, Clone, Debug)]
pub struct UserDetailResponse {
    pub success: bool,
    pub data: UserDetail,
}

/// What the exchange knows of a user. The fee is held as it is written out.
#[derive(PartialEq, Clone, Debug)]
pub struct UserDetail {
    pub username: String,
    pub first_name: Option<String>,
    pub middle_name: Option<String>,
    pub last_name: Option<String>,
    pub dices: Option<i32>,
    pub role: Option<String>,
    pub phone: Option<String>,
    pub email: String,
    pub fee: Option<String>,
}

#[derive(PartialEq, Clone, Debug)]
pub struct UserTransaction {
    pub created_at: Timestamp,
    pub closed_at: Timestamp,
    pub status: TransactionStatus,
    pub transaction_type: TransactionType,
    pub currency: String,
    pub sum: String,
    pub fee: String,
    pub balance: String,
    pub hash: String,
}

#[derive(PartialEq, Clone, Debug)]
pub struct UserOrder {
    pub pk: i32,
    pub closed_at: Timestamp,
    pub order_type: OrderType,
    pub unit_price: String,
    pub volume: String,
    pub sum: String,
    pub pair: String,
    pub closed_type: OrderType,
    pub source: Option<String>,
}

/// Which transactions are asked for.
#[derive(Clone, Debug)]
pub struct TransactionsFilter {
    pub currency: Option<Token>,
    pub transaction_type: Option<TransactionType>,
    pub closed_at_gte: Option<i32>,
    pub closed_at_lte: Option<i32>,
}

/// Which of the user's orders are asked for.
#[derive(Clone, Debug)]
pub struct UserOrdersFilter {
    pub pair: Option<CurrencyPair>,
    pub order_type: Option<OrderType>,
    pub closed_at_gte: Option<i32>,
    pub closed_at_lte: Option<i32>,
}

#[derive(PartialEq, Clone, Debug)]
pub struct TransferQuery {
    pub amount: String,
    pub currency: Token,
    pub to: String,
    pub pin_code: String,
}

/// What formatting a text with `{:?}` writes: the text between double
/// quotes, with the escapes of `str`'s `Debug`.
pub uninterp spec fn quoted(text: Seq<char>) -> Seq<char>;

/// Formats a text with `{:?}`; the contract only names the result.
#[verifier::external_body]
fn quote(text: &str) -> (written: String)
    ensures
        written@ == quoted(text@),
{
    format!("{:?}", text)
}

/// One line of a rendering: the label, the value and a line feed, or nothing
/// where there is no value.
pub open spec fn line(label: Seq<char>, value: Option<Seq<char>>) -> Seq<char> {
    match value {
        Some(value) => label + value + "\n"@,
        None => Seq::empty(),
    }
}

/// The text of an optional string.
pub open spec fn text_of(value: Option<String>) -> Option<Seq<char>> {
    match value {
        Some(text) => Some(text@),
        None => None,
    }
}

fn append_line(out: &mut String, label: &str, value: &Option<String>)
    ensures
        final(out)@ == old(out)@ + line(label@, text_of(*value)),
{
    if let Some(text) = value {
        out.append(label);
        out.append(text.as_str());
        out.append("\n");
    }
}

impl UserDetail {
    /// The user's details, one to a line: the name as `username` gives it,
    /// then each detail that is known under its label.
    pub open spec fn lines(self, username: Seq<char>) -> Seq<char> {
        "Username: "@ + username + "\n"@ + line("First name: "@, text_of(self.first_name)) + line(
            "Middle name: "@,
            text_of(self.middle_name),
        ) + line("Last name: "@, text_of(self.last_name)) + line(
            "Dices: "@,
            match self.dices {
                Some(dices) => Some(decimal(dices as int)),
                None => None,
            },
        ) + line("Role: "@, text_of(self.role)) + line("Phone: "@, text_of(self.phone))
            + "Email: "@ + self.email@ + "\n"@ + line("Fee: "@, text_of(self.fee))
    }

    /// The user's details, one to a line, with the name between quotes.
    pub open spec fn text(self) -> Seq<char> {
        self.lines(quoted(self.username@))
    }

    /// Writes the user's details, one to a line. `username` is the name as
    /// it is to be shown.
    pub fn render(&self, username: &str) -> (text: String)
        ensures
            text@ == self.lines(username@),
    {
        let mut text = "Username: ".to_owned();
        text.append(username);
        text.append("\n");
        append_line(&mut text, "First name: ", &self.first_name);
        append_line(&mut text, "Middle name: ", &self.middle_name);
        append_line(&mut text, "Last name: ", &self.last_name);
        if let Some(dices) = &self.dices {
            text.append("Dices: ");
            text.append(decimal_i32(*dices).as_str());
            text.append("\n");
        }
        append_line(&mut text, "Role: ", &self.role);
        append_line(&mut text, "Phone: ", &self.phone);
        text.append("Email: ");
        text.append(self.email.as_str());
        text.append("\n");
        append_line(&mut text, "Fee: ", &self.fee);
        assert(text@ =~= self.lines(username@));
        text
    }

    /// The user's details, one to a line, with the name between quotes.
    pub fn to_string(&self) -> (text: String)
        ensures
            text@ == self.text(),
    {
        let username = quote(self.username.as_str());
        self.render(username.as_str())
    }
}

impl TransactionsFilter {
    /// The query that asks for these transactions: `currency`, `type`,
    /// `closed_at__gte`, then `closed_at__lte`, each only where it is set.
    pub open spec fn query(&self) -> Seq<(Seq<char>, Seq<char>)> {
        let currency = match self.currency {
            Some(token) => seq![("currency"@, token.name())],
            None => Seq::empty(),
        };
        let kind = match self.transaction_type {
            Some(kind) => seq![("type"@, decimal(kind.number() as int))],
            None => Seq::empty(),
        };
        let after = match self.closed_at_gte {
            Some(bound) => seq![("closed_at__gte"@, decimal(bound as int))],
            None => Seq::empty(),
        };
        let before = match self.closed_at_lte {
            Some(bound) => seq![("closed_at__lte"@, decimal(bound as int))],
            None => Seq::empty(),
        };
        currency + kind + after + before
    }

    /// The pairs of `query`, as strings.
    pub fn query_pairs(&self) -> (pairs: Vec<(String, String)>)
        ensures
            pair_views(pairs@) == self.query(),
    {
        let mut pairs: Vec<(String, String)> = Vec::new();
        if let Some(token) = &self.currency {
            pairs.push(("currency".to_owned(), token.to_string()));
        }
        if let Some(kind) = &self.transaction_type {
            let number: i32 = i32::from(*kind);
            pairs.push(("type".to_owned(), decimal_i32(number)));
        }
        if let Some(bound) = &self.closed_at_gte {
            pairs.push(("closed_at__gte".to_owned(), decimal_i32(*bound)));
        }
        if let Some(bound) = &self.closed_at_lte {
            pairs.push(("closed_at__lte".to_owned(), decimal_i32(*bound)));
        }
        assert(pair_views(pairs@) =~= self.query());
        pairs
    }

    /// Adds the query to `url` and returns the text of the address.
    pub fn compose_url(&self, url: &mut Url) -> (text: String)
        requires
            pairs_fit(url_text(*old(url)), self.query()),
        ensures
            url_text(*final(url)) == with_pairs(url_text(*old(url)), self.query()),
            text@ == url_text(*final(url)),
    {
        let pairs = self.query_pairs();
        append_pairs(url, &pairs);
        url_string(url)
    }

    /// Adds the query to `url` and returns the text of the address, unless
    /// the address would grow too long: then `url` is left as it was.
    pub fn try_compose_url(&self, url: &mut Url) -> (text: Option<String>)
        ensures
            text is Some == pairs_fit(url_text(*old(url)), self.query()),
            match text {
                Some(text) => url_text(*final(url)) == with_pairs(
                    url_text(*old(url)),
                    self.query(),
                ) && text@ == url_text(*final(url)),
                None => *final(url) == *old(url),
            },
    {
        let pairs = self.query_pairs();
        if try_append_pairs(url, &pairs) {
            Some(url_string(url))
        } else {
            None
        }
    }
}

impl Default for UserOrdersFilter {
    fn default() -> (filter: Self)
        ensures
            filter.pair is None,
            filter.order_type is None,
            filter.closed_at_gte is None,
            filter.closed_at_lte is None,
    {
        UserOrdersFilter { pair: None, order_type: None, closed_at_gte: None, closed_at_lte: None }
    }
}

impl UserOrdersFilter {
    pub fn new() -> (filter: Self)
        ensures
            filter.pair is None,
            filter.order_type is None,
            filter.closed_at_gte is None,
            filter.closed_at_lte is None,
    {
        UserOrdersFilter { pair: None, order_type: None, closed_at_gte: None, closed_at_lte: None }
    }

    pub fn pair(self, pair: CurrencyPair) -> (filter: Self)
        ensures
            filter.pair == Some(pair),
            filter.order_type == self.order_type,
            filter.closed_at_gte == self.closed_at_gte,
            filter.closed_at_lte == self.closed_at_lte,
    {
        let mut filter = self;
        filter.pair = Some(pair);
        filter
    }

    pub fn order_type(self, order_type: OrderType) -> (filter: Self)
        ensures
            filter.pair == self.pair,
            filter.order_type == Some(order_type),
            filter.closed_at_gte == self.closed_at_gte,
            filter.closed_at_lte == self.closed_at_lte,
    {
        Self {
            pair: self.pair,
            order_type: Some(order_type),
            closed_at_gte: self.closed_at_gte,
            closed_at_lte: self.closed_at_lte,
        }
    }

    pub fn closed_at_gte(self, closed_at_gte: i32) -> (filter: Self)
        ensures
            filter.pair == self.pair,
            filter.order_type == self.order_type,
            filter.closed_at_gte == Some(closed_at_gte),
            filter.closed_at_lte == self.closed_at_lte,
    {
        Self {
            pair: self.pair,
            order_type: self.order_type,
            closed_at_gte: Some(closed_at_gte),
            closed_at_lte: self.closed_at_lte,
        }
    }

    pub fn closed_at_lte(self, closed_at_lte: i32) -> (filter: Self)
        ensures
            filter.pair == self.pair,
            filter.order_type == self.order_type,
            filter.closed_at_gte == self.closed_at_gte,
            filter.closed_at_lte == Some(closed_at_lte),
    {
        Self {
            pair: self.pair,
            order_type: self.order_type,
            closed_at_gte: self.closed_at_gte,
            closed_at_lte: Some(closed_at_lte),
        }
    }

    /// The query that asks for these orders: `pair`, `side`,
    /// `closed_at__gte`, then `closed_at__lte`, each only where it is set.
    pub open spec fn query(&self) -> Seq<(Seq<char>, Seq<char>)> {
        let pair = match self.pair {
            Some(pair) => seq![("pair"@, pair.text())],
            None => Seq::empty(),
        };
        let side = match self.order_type {
            Some(order_type) => seq![("side"@, order_type.text())],
            None => Seq::empty(),
        };
        let after = match self.closed_at_gte {
            Some(bound) => seq![("closed_at__gte"@, decimal(bound as int))],
            None => Seq::empty(),
        };
        let before = match self.closed_at_lte {
            Some(bound) => seq![("closed_at__lte"@, decimal(bound as int))],
            None => Seq::empty(),
        };
        pair + side + after + before
    }

    /// The pairs of `query`, as strings.
    pub fn query_pairs(&self) -> (pairs: Vec<(String, String)>)
        ensures
            pair_views(pairs@) == self.query(),
    {
        let mut pairs: Vec<(String, String)> = Vec::new();
        if let Some(pair) = &self.pair {
            pairs.push(("pair".to_owned(), pair.to_string()));
        }
        if let Some(order_type) = &self.order_type {
            pairs.push(("side".to_owned(), order_type.to_string()));
        }
        if let Some(bound) = &self.closed_at_gte {
            pairs.push(("closed_at__gte".to_owned(), decimal_i32(*bound)));
        }
        if let Some(bound) = &self.closed_at_lte {
            pairs.push(("closed_at__lte".to_owned(), decimal_i32(*bound)));
        }
        assert(pair_views(pairs@) =~= self.query());
        pairs
    }

    /// Adds the query to `url` and returns the text of the address.
    pub fn compose_url(&self, url: &mut Url) -> (text: String)
        requires
            pairs_fit(url_text(*old(url)), self.query()),
        ensures
            url_text(*final(url)) == with_pairs(url_text(*old(url)), self.query()),
            text@ == url_text(*final(url)),
    {
        let pairs = self.query_pairs();
        append_pairs(url, &pairs);
        url_string(url)
    }

    /// Adds the query to `url` and returns the text of the address, unless
    /// the address would grow too long: then `url` is left as it was.
    pub fn try_compose_url(&self, url: &mut Url) -> (text: Option<String>)
        ensures
            text is Some == pairs_fit(url_text(*old(url)), self.query()),
            match text {
                Some(text) => url_text(*final(url)) == with_pairs(
                    url_text(*old(url)),
                    self.query(),
                ) && text@ == url_text(*final(url)),
                None => *final(url) == *old(url),
            },
    {
        let pairs = self.query_pairs();
        if try_append_pairs(url, &pairs) {
            Some(url_string(url))
        } else {
            None
        }
    }
}

} // verus!
