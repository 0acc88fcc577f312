//! Shapes that several endpoints share.

use vstd::prelude::*;
use vstd::std_specs::convert::FromSpecImpl;

verus! {

#[derive(PartialEq, Clone, Debug)]
pub struct Currency {
    pub id: i32,
    pub abbreviation: String,
    pub is_fiat: bool,
    pub is_auction_currency: bool,
    pub is_market: bool,
    pub precision: i32,
    pub can_input: bool,
    pub can_output: bool,
}

/// The side of an order.
#[derive(PartialEq, Eq, Clone, Copy, Debug, Structural)]
pub enum OrderType {
    Buying,
    Selling,
}

#[derive(PartialEq, Eq, Clone, Copy, Debug, Structural)]
pub enum TransactionStatus {
    Draft,
    Confirmed,
    Failed,
}

/// The kind of a transaction. The exchange writes it as a number from 1 to 9;
/// any other number is `Unknown`.
#[derive(PartialEq, Eq, Clone, Copy, Debug, Structural)]
pub enum TransactionType {
    Replenish,
    Withdrawal,
    Dividends,
    Referral,
    Transfer,
    Conversion,
    Staking,
    OtcTransfer,
    NftAuction,
    Unknown,
}

/// An instant: the seconds since the start of 1970 in UTC, leap seconds not
/// counted, and the nanoseconds into the second.
#[derive(PartialEq, Eq, Clone, Copy, Debug, Structural)]
pub struct Timestamp {
    pub seconds: i64,
    pub nanos: u32,
}

#[derive(PartialEq, Clone, Debug)]
pub struct CurrencyChannel {
    pub id: i32,
    pub currency_name: String,
    pub blockchain_protocol: i32,
    pub short_description: String,
    pub channel_fee: Option<String>,
    pub network: String,
    pub is_p2p_oriented: bool,
    pub bank_cards: Vec<String>,
}

impl OrderType {
    /// The side as the exchange writes it, in lower case.
    pub open spec fn text(self) -> Seq<char> {
        match self {
            OrderType::Buying => "buying"@,
            OrderType::Selling => "selling"@,
        }
    }

    pub fn as_str(&self) -> (text: &'static str)
        ensures
            text@ == self.text(),
    {
        match self {
            OrderType::Buying => "buying",
            OrderType::Selling => "selling",
        }
    }

    pub fn to_string(&self) -> (text: String)
        ensures
            text@ == self.text(),
    {
        self.as_str().to_owned()
    }

    /// The side's name as it is declared.
    pub open spec fn name(self) -> Seq<char> {
        match self {
            OrderType::Buying => "Buying"@,
            OrderType::Selling => "Selling"@,
        }
    }

    pub fn variant_name(&self) -> (name: &'static str)
        ensures
            name@ == self.name(),
    {
        match self {
            OrderType::Buying => "Buying",
            OrderType::Selling => "Selling",
        }
    }
}

impl TransactionType {
    /// The kind that the exchange writes as `value`.
    pub open spec fn of_number(value: i32) -> TransactionType {
        if value == 1 {
            TransactionType::Replenish
        } else if value == 2 {
            TransactionType::Withdrawal
        } else if value == 3 {
            TransactionType::Dividends
        } else if value == 4 {
            TransactionType::Referral
        } else if value == 5 {
            TransactionType::Transfer
        } else if value == 6 {
            TransactionType::Conversion
        } else if value == 7 {
            TransactionType::Staking
        } else if value == 8 {
            TransactionType::OtcTransfer
        } else if value == 9 {
            TransactionType::NftAuction
        } else {
            TransactionType::Unknown
        }
    }

    /// The number that the exchange writes for the kind; -1 for `Unknown`.
    pub open spec fn number(self) -> i32 {
        match self {
            TransactionType::Replenish => 1,
            TransactionType::Withdrawal => 2,
            TransactionType::Dividends => 3,
            TransactionType::Referral => 4,
            TransactionType::Transfer => 5,
            TransactionType::Conversion => 6,
            TransactionType::Staking => 7,
            TransactionType::OtcTransfer => 8,
            TransactionType::NftAuction => 9,
            TransactionType::Unknown => -1i32,
        }
    }
}

impl FromSpecImpl<i32> for TransactionType {
    open spec fn obeys_from_spec() -> bool {
        true
    }

    open spec fn from_spec(value: i32) -> TransactionType {
        TransactionType::of_number(value)
    }
}

impl From<i32> for TransactionType {
    fn from(value: i32) -> (kind: TransactionType) {
        match value {
            1 => TransactionType::Replenish,
            2 => TransactionType::Withdrawal,
            3 => TransactionType::Dividends,
            4 => TransactionType::Referral,
            5 => TransactionType::Transfer,
            6 => TransactionType::Conversion,
            7 => TransactionType::Staking,
            8 => TransactionType::OtcTransfer,
            9 => TransactionType::NftAuction,
            _ => TransactionType::Unknown,
        }
    }
}

impl FromSpecImpl<TransactionType> for i32 {
    open spec fn obeys_from_spec() -> bool {
        true
    }

    open spec fn from_spec(value: TransactionType) -> i32 {
        value.number()
    }
}

impl From<TransactionType> for i32 {
    fn from(value: TransactionType) -> (number: i32) {
        match value {
            TransactionType::Replenish => 1,
            TransactionType::Withdrawal => 2,
            TransactionType::Dividends => 3,
            TransactionType::Referral => 4,
            TransactionType::Transfer => 5,
            TransactionType::Conversion => 6,
            TransactionType::Staking => 7,
            TransactionType::OtcTransfer => 8,
            TransactionType::NftAuction => 9,
            TransactionType::Unknown => -1,
        }
    }
}

/// A kind other than `Unknown` is read back from its own number, and a number
/// from 1 to 9 is the number of the kind it is read as.
pub proof fn lemma_transaction_type_round_trip(kind: TransactionType, value: i32)
    ensures
        kind != TransactionType::Unknown ==> TransactionType::of_number(kind.number()) == kind,
        TransactionType::of_number(TransactionType::Unknown.number()) == TransactionType::Unknown,
        1 <= value <= 9 ==> TransactionType::of_number(value).number() == value,
        !(1 <= value <= 9) ==> TransactionType::of_number(value) == TransactionType::Unknown,
{
}

} // verus!
