//! The currencies that the exchange trades, and pairs of them.

use std::str::FromStr;
use vstd::prelude::*;
use vstd::string::*;
use crate::text::same_text;

verus! {

/// A currency of the exchange.
#[derive(PartialEq, Eq, Clone, Copy, Debug, Hash, Structural)]
pub enum Token {
    FSH,
    TON,
    UAHT,
    AAVE,
    HCK,
    TRX,
    CRO,
    VQR,
    SHIB,
    TLR,
    LINK,
    POL,
    UNI,
    USDC,
    BAT,
    USDT,
    RCH,
    BOX,
    XMR,
    DASH,
    KUB,
    WAVES,
    ADA,
    ETH,
    DOGE,
    KRB,
    UAH,
    BTC,
    LTC,
    TAL,
    DOT,
    NFT,
    SOL,
    XAUT,
}

/// Why a text names no currency.
#[derive(Debug)]
pub enum TokenError {
    InvalidToken(String),
}

/// What `str::to_uppercase` returns for a text: its upper-case form by the
/// Unicode case mappings.
pub uninterp spec fn uppercase(text: Seq<char>) -> Seq<char>;

/// Calls `str::to_uppercase`; the contract only names its result.
#[verifier::external_body]
fn to_uppercase(text: &str) -> (upper: String)
    ensures
        upper@ == uppercase(text@),
{
    text.to_uppercase()
}

impl Token {
    /// The currency's name: its abbreviation in capital letters.
    pub open spec fn name(self) -> Seq<char> {
        match self {
            Token::FSH => "FSH"@,
            Token::TON => "TON"@,
            Token::UAHT => "UAHT"@,
            Token::AAVE => "AAVE"@,
            Token::HCK => "HCK"@,
            Token::TRX => "TRX"@,
            Token::CRO => "CRO"@,
            Token::VQR => "VQR"@,
            Token::SHIB => "SHIB"@,
            Token::TLR => "TLR"@,
            Token::LINK => "LINK"@,
            Token::POL => "POL"@,
            Token::UNI => "UNI"@,
            Token::USDC => "USDC"@,
            Token::BAT => "BAT"@,
            Token::USDT => "USDT"@,
            Token::RCH => "RCH"@,
            Token::BOX => "BOX"@,
            Token::XMR => "XMR"@,
            Token::DASH => "DASH"@,
            Token::KUB => "KUB"@,
            Token::WAVES => "WAVES"@,
            Token::ADA => "ADA"@,
            Token::ETH => "ETH"@,
            Token::DOGE => "DOGE"@,
            Token::KRB => "KRB"@,
            Token::UAH => "UAH"@,
            Token::BTC => "BTC"@,
            Token::LTC => "LTC"@,
            Token::TAL => "TAL"@,
            Token::DOT => "DOT"@,
            Token::NFT => "NFT"@,
            Token::SOL => "SOL"@,
            Token::XAUT => "XAUT"@,
        }
    }

    /// Every currency, once.
    pub open spec fn every() -> Seq<Token> {
        seq![
            Token::FSH,
            Token::TON,
            Token::UAHT,
            Token::AAVE,
            Token::HCK,
            Token::TRX,
            Token::CRO,
            Token::VQR,
            Token::SHIB,
            Token::TLR,
            Token::LINK,
            Token::POL,
            Token::UNI,
            Token::USDC,
            Token::BAT,
            Token::USDT,
            Token::RCH,
            Token::BOX,
            Token::XMR,
            Token::DASH,
            Token::KUB,
            Token::WAVES,
            Token::ADA,
            Token::ETH,
            Token::DOGE,
            Token::KRB,
            Token::UAH,
            Token::BTC,
            Token::LTC,
            Token::TAL,
            Token::DOT,
            Token::NFT,
            Token::SOL,
            Token::XAUT,
        ]
    }

    /// The currency whose name is exactly `name`, if there is one.
    pub open spec fn named(name: Seq<char>) -> Option<Token> {
        if exists|t: Token| t.name() == name {
            Some(choose|t: Token| t.name() == name)
        } else {
            None
        }
    }

    /// The currency that a text is read as: the one named by its upper-case
    /// form.
    pub open spec fn read(text: Seq<char>) -> Option<Token> {
        Token::named(uppercase(text))
    }

    pub fn as_ref(&self) -> (name: &'static str)
        ensures
            name@ == self.name(),
    {
        match self {
            Token::FSH => "FSH",
            Token::TON => "TON",
            Token::UAHT => "UAHT",
            Token::AAVE => "AAVE",
            Token::HCK => "HCK",
            Token::TRX => "TRX",
            Token::CRO => "CRO",
            Token::VQR => "VQR",
            Token::SHIB => "SHIB",
            Token::TLR => "TLR",
            Token::LINK => "LINK",
            Token::POL => "POL",
            Token::UNI => "UNI",
            Token::USDC => "USDC",
            Token::BAT => "BAT",
            Token::USDT => "USDT",
            Token::RCH => "RCH",
            Token::BOX => "BOX",
            Token::XMR => "XMR",
            Token::DASH => "DASH",
            Token::KUB => "KUB",
            Token::WAVES => "WAVES",
            Token::ADA => "ADA",
            Token::ETH => "ETH",
            Token::DOGE => "DOGE",
            Token::KRB => "KRB",
            Token::UAH => "UAH",
            Token::BTC => "BTC",
            Token::LTC => "LTC",
            Token::TAL => "TAL",
            Token::DOT => "DOT",
            Token::NFT => "NFT",
            Token::SOL => "SOL",
            Token::XAUT => "XAUT",
        }
    }

    /// The currency's name as an owned string.
    pub fn to_string(&self) -> (name: String)
        ensures
            name@ == self.name(),
    {
        self.as_ref().to_owned()
    }

    /// Every currency, in the order of their declaration.
    pub fn all() -> (list: [Token; 34])
        ensures
            list@ == Token::every(),
    {
        let list: [Token; 34] = [
            Token::FSH,
            Token::TON,
            Token::UAHT,
            Token::AAVE,
            Token::HCK,
            Token::TRX,
            Token::CRO,
            Token::VQR,
            Token::SHIB,
            Token::TLR,
            Token::LINK,
            Token::POL,
            Token::UNI,
            Token::USDC,
            Token::BAT,
            Token::USDT,
            Token::RCH,
            Token::BOX,
            Token::XMR,
            Token::DASH,
            Token::KUB,
            Token::WAVES,
            Token::ADA,
            Token::ETH,
            Token::DOGE,
            Token::KRB,
            Token::UAH,
            Token::BTC,
            Token::LTC,
            Token::TAL,
            Token::DOT,
            Token::NFT,
            Token::SOL,
            Token::XAUT,
        ];
        assert(list@ =~= Token::every());
        list
    }

    /// Finds the currency whose name is exactly `name`.
    pub fn from_name(name: &str) -> (found: Option<Token>)
        ensures
            found == Token::named(name@),
    {
        let list = Token::all();
        let mut i: usize = 0;
        while i < 34
            invariant
                i <= 34,
                list@ == Token::every(),
                forall|j: int| 0 <= j < i ==> (#[trigger] list@[j]).name() != name@,
            decreases 34 - i,
        {
            let candidate = list[i];
            if same_text(name, candidate.as_ref()) {
                proof {
                    let chosen = choose|t: Token| t.name() == name@;
                    lemma_names_differ(chosen, candidate);
                }
                return Some(candidate);
            }
            i = i + 1;
        }
        proof {
            assert forall|t: Token| t.name() != name@ by {
                lemma_every_is_complete(t);
                let j = choose|j: int| 0 <= j < 34 && Token::every()[j] == t;
                assert(list@[j].name() != name@);
            }
        }
        None
    }

    /// Reads a currency from its abbreviation, whatever the case of its
    /// letters. The error carries the upper-case form that named no currency.
    pub fn from_str(s: &str) -> (read: Result<Token, TokenError>)
        ensures
            match read {
                Ok(token) => Token::read(s@) == Some(token),
                Err(TokenError::InvalidToken(text)) => Token::read(s@) is None && text@
                    == uppercase(s@),
            },
    {
        let upper = to_uppercase(s);
        match Token::from_name(upper.as_str()) {
            Some(token) => Ok(token),
            None => Err(TokenError::InvalidToken(upper)),
        }
    }
}

impl FromStr for Token {
    type Err = TokenError;

    fn from_str(s: &str) -> (read: Result<Self, Self::Err>)
        ensures
            match read {
                Ok(token) => Token::read(s@) == Some(token),
                Err(TokenError::InvalidToken(text)) => Token::read(s@) is None && text@
                    == uppercase(s@),
            },
    {
        Token::from_str(s)
    }
}

/// No two currencies share a name.
pub proof fn lemma_names_differ(a: Token, b: Token)
    ensures
        a.name() == b.name() ==> a == b,
{
    reveal_strlit("FSH");
    reveal_strlit("TON");
    reveal_strlit("UAHT");
    reveal_strlit("AAVE");
    reveal_strlit("HCK");
    reveal_strlit("TRX");
    reveal_strlit("CRO");
    reveal_strlit("VQR");
    reveal_strlit("SHIB");
    reveal_strlit("TLR");
    reveal_strlit("LINK");
    reveal_strlit("POL");
    reveal_strlit("UNI");
    reveal_strlit("USDC");
    reveal_strlit("BAT");
    reveal_strlit("USDT");
    reveal_strlit("RCH");
    reveal_strlit("BOX");
    reveal_strlit("XMR");
    reveal_strlit("DASH");
    reveal_strlit("KUB");
    reveal_strlit("WAVES");
    reveal_strlit("ADA");
    reveal_strlit("ETH");
    reveal_strlit("DOGE");
    reveal_strlit("KRB");
    reveal_strlit("UAH");
    reveal_strlit("BTC");
    reveal_strlit("LTC");
    reveal_strlit("TAL");
    reveal_strlit("DOT");
    reveal_strlit("NFT");
    reveal_strlit("SOL");
    reveal_strlit("XAUT");
    if a != b {
        assert(a.name().len() != b.name().len() || a.name()[0] != b.name()[0] || a.name()[1]
            != b.name()[1] || a.name()[2] != b.name()[2] || (a.name().len() > 3 && a.name()[3]
            != b.name()[3]));
    }
}

/// The list of every currency leaves none out.
pub proof fn lemma_every_is_complete(t: Token)
    ensures
        exists|j: int| 0 <= j < 34 && Token::every()[j] == t,
{
    let j: int = match t {
        Token::FSH => 0,
        Token::TON => 1,
        Token::UAHT => 2,
        Token::AAVE => 3,
        Token::HCK => 4,
        Token::TRX => 5,
        Token::CRO => 6,
        Token::VQR => 7,
        Token::SHIB => 8,
        Token::TLR => 9,
        Token::LINK => 10,
        Token::POL => 11,
        Token::UNI => 12,
        Token::USDC => 13,
        Token::BAT => 14,
        Token::USDT => 15,
        Token::RCH => 16,
        Token::BOX => 17,
        Token::XMR => 18,
        Token::DASH => 19,
        Token::KUB => 20,
        Token::WAVES => 21,
        Token::ADA => 22,
        Token::ETH => 23,
        Token::DOGE => 24,
        Token::KRB => 25,
        Token::UAH => 26,
        Token::BTC => 27,
        Token::LTC => 28,
        Token::TAL => 29,
        Token::DOT => 30,
        Token::NFT => 31,
        Token::SOL => 32,
        Token::XAUT => 33,
    };
    assert(0 <= j < 34 && Token::every()[j] == t);
}

/// Reading a currency's own name gives the currency back.
pub proof fn lemma_name_round_trip(t: Token)
    ensures
        Token::named(t.name()) == Some(t),
{
    let chosen = choose|u: Token| u.name() == t.name();
    lemma_names_differ(chosen, t);
}

/// Two currencies traded against each other: the first is priced in the
/// second.
#[derive(Debug, PartialEq, Hash, Eq, Clone, Copy)]
pub struct CurrencyPair(pub [Token; 2]);

/// Why a text names no currency pair.
#[derive(Debug)]
pub enum CurrencyPairError {
    /// A piece between the slashes names no currency; it is carried as
    /// written.
    InvalidToken(String),
    /// Every piece names a currency, but there are not two of them; the
    /// number of pieces is carried.
    IllegalDelimiterCount(usize),
}

/// The pieces of `text` that lie between the occurrences of `sep`, in order.
/// A text without `sep` is one piece; the empty text is one empty piece.
pub open spec fn split(text: Seq<char>, sep: char) -> Seq<Seq<char>>
    decreases text.len(),
{
    if text.len() == 0 {
        seq![Seq::empty()]
    } else {
        let before = split(text.drop_last(), sep);
        if text.last() == sep {
            before.push(Seq::empty())
        } else {
            before.drop_last().push(before.last().push(text.last()))
        }
    }
}

/// Splits `text` at every occurrence of `sep`.
pub fn split_text(text: &str, sep: char) -> (pieces: Vec<&str>)
    ensures
        pieces@.len() == split(text@, sep).len(),
        forall|i: int| 0 <= i < pieces@.len() ==> (#[trigger] pieces@[i])@ == split(text@, sep)[i],
{
    let len = text.unicode_len();
    let mut pieces: Vec<&str> = Vec::new();
    let mut start: usize = 0;
    let mut i: usize = 0;
    assert(text@.take(0) =~= Seq::<char>::empty());
    while i < len
        invariant
            start <= i <= len,
            len == text@.len(),
            split(text@.take(i as int), sep).len() == pieces@.len() + 1,
            forall|k: int|
                0 <= k < pieces@.len() ==> (#[trigger] pieces@[k])@ == split(
                    text@.take(i as int),
                    sep,
                )[k],
            split(text@.take(i as int), sep).last() == text@.subrange(start as int, i as int),
        decreases len - i,
    {
        let c = text.get_char(i);
        proof {
            let shorter = text@.take(i as int);
            let longer = text@.take(i as int + 1);
            assert(longer.drop_last() =~= shorter);
            assert(longer.last() == c);
            assert(text@.subrange(start as int, i as int + 1) =~= text@.subrange(
                start as int,
                i as int,
            ).push(c));
            assert(text@.subrange(i as int + 1, i as int + 1) =~= Seq::<char>::empty());
        }
        if c == sep {
            let piece = text.substring_char(start, i);
            pieces.push(piece);
            start = i + 1;
        }
        i = i + 1;
    }
    assert(text@.take(len as int) =~= text@);
    let piece = text.substring_char(start, len);
    pieces.push(piece);
    pieces
}

impl CurrencyPair {
    pub fn new(first: Token, second: Token) -> (pair: Self)
        ensures
            pair.0@ == seq![first, second],
    {
        let pair = Self([first, second]);
        assert(pair.0@ =~= seq![first, second]);
        pair
    }

    pub fn first(&self) -> (token: Token)
        ensures
            token == self.0@[0],
    {
        self.0[0]
    }

    pub fn second(&self) -> (token: Token)
        ensures
            token == self.0@[1],
    {
        self.0[1]
    }

    /// The pair as the exchange writes it: the two names with a slash
    /// between them.
    pub open spec fn text(self) -> Seq<char> {
        self.0@[0].name() + seq!['/'] + self.0@[1].name()
    }

    /// That `read` is what a text is read as: the pair of the two currencies
    /// that its two pieces name; or the first piece that names no currency;
    /// or, where every piece names one, their number if it is not two.
    pub open spec fn read_as(text: Seq<char>, read: Result<CurrencyPair, CurrencyPairError>) -> bool {
        let pieces = split(text, '/');
        match read {
            Ok(pair) => {
                &&& pieces.len() == 2
                &&& Token::read(pieces[0]) == Some(pair.0@[0])
                &&& Token::read(pieces[1]) == Some(pair.0@[1])
            },
            Err(CurrencyPairError::InvalidToken(piece)) => exists|i: int|
                {
                    &&& 0 <= i < pieces.len()
                    &&& piece@ == #[trigger] pieces[i]
                    &&& Token::read(pieces[i]) is None
                    &&& forall|j: int| 0 <= j < i ==> Token::read(#[trigger] pieces[j]) is Some
                },
            Err(CurrencyPairError::IllegalDelimiterCount(count)) => {
                &&& count == pieces.len()
                &&& count != 2
                &&& forall|j: int| 0 <= j < pieces.len() ==> Token::read(#[trigger] pieces[j]) is Some
            },
        }
    }

    /// The pair as the exchange writes it, for example `BTC/UAH`.
    pub fn to_string(&self) -> (text: String)
        ensures
            text@ == self.text(),
    {
        proof {
            reveal_strlit("/");
        }
        let mut text = self.0[0].to_string();
        text.append("/");
        text.append(self.0[1].as_ref());
        assert(text@ =~= self.text());
        text
    }

    /// Reads a pair written as two currency abbreviations with a slash
    /// between them. The pieces are read in order, so the first piece that
    /// names no currency is the one reported, whatever their number.
    pub fn from_str(s: &str) -> (read: Result<CurrencyPair, CurrencyPairError>)
        ensures
            CurrencyPair::read_as(s@, read),
    {
        let pieces = split_text(s, '/');
        let mut readings: Vec<(&str, Option<Token>)> = Vec::new();
        let mut i: usize = 0;
        while i < pieces.len()
            invariant
                i <= pieces@.len(),
                pieces@.len() == split(s@, '/').len(),
                forall|k: int|
                    0 <= k < pieces@.len() ==> (#[trigger] pieces@[k])@ == split(s@, '/')[k],
                readings@.len() == i,
                forall|j: int|
                    0 <= j < i ==> (#[trigger] readings@[j]).0@ == split(s@, '/')[j]
                        && readings@[j].1 == Token::read(split(s@, '/')[j]),
            decreases pieces@.len() - i,
        {
            let piece = pieces[i];
            let reading = match Token::from_str(piece) {
                Ok(token) => Some(token),
                Err(_) => None,
            };
            readings.push((piece, reading));
            i = i + 1;
        }
        let read = CurrencyPair::from_readings(&readings);
        let ghost outcome = read;
        proof {
            let all = split(s@, '/');
            match outcome {
                Err(CurrencyPairError::InvalidToken(piece)) => {
                    let i = choose|i: int|
                        0 <= i < readings@.len() && piece@ == (#[trigger] readings@[i]).0@
                            && readings@[i].1 is None && forall|j: int|
                            0 <= j < i ==> (#[trigger] readings@[j]).1 is Some;
                    assert(piece@ == all[i] && Token::read(all[i]) is None);
                    assert forall|j: int| 0 <= j < i implies Token::read(#[trigger] all[j]) is Some by {
                        assert(readings@[j].1 is Some);
                    }
                },
                Err(CurrencyPairError::IllegalDelimiterCount(_)) => {
                    assert forall|j: int| 0 <= j < all.len() implies Token::read(
                        #[trigger] all[j],
                    ) is Some by {
                        assert(readings@[j].1 is Some);
                    }
                },
                Ok(_) => {
                    assert(readings@[0].1 == Token::read(all[0]));
                    assert(readings@[1].1 == Token::read(all[1]));
                },
            }
        }
        read
    }

    /// Makes a pair of the pieces of a text, each with the currency that it
    /// was read as, if any: the first piece that names no currency is the
    /// error; where each names one, there must be two of them.
    pub fn from_readings(readings: &Vec<(&str, Option<Token>)>) -> (read: Result<
        CurrencyPair,
        CurrencyPairError,
    >)
        ensures
            match read {
                Ok(pair) => {
                    &&& readings@.len() == 2
                    &&& readings@[0].1 == Some(pair.0@[0])
                    &&& readings@[1].1 == Some(pair.0@[1])
                },
                Err(CurrencyPairError::InvalidToken(piece)) => exists|i: int|
                    {
                        &&& 0 <= i < readings@.len()
                        &&& piece@ == (#[trigger] readings@[i]).0@
                        &&& readings@[i].1 is None
                        &&& forall|j: int| 0 <= j < i ==> (#[trigger] readings@[j]).1 is Some
                    },
                Err(CurrencyPairError::IllegalDelimiterCount(count)) => {
                    &&& count == readings@.len()
                    &&& count != 2
                    &&& forall|j: int|
                        0 <= j < readings@.len() ==> (#[trigger] readings@[j]).1 is Some
                },
            },
    {
        let mut i: usize = 0;
        while i < readings.len()
            invariant
                i <= readings@.len(),
                forall|j: int| 0 <= j < i ==> (#[trigger] readings@[j]).1 is Some,
            decreases readings@.len() - i,
        {
            if readings[i].1.is_none() {
                let written = readings[i].0.to_owned();
                assert(written@ == readings@[i as int].0@);
                return Err(CurrencyPairError::InvalidToken(written));
            }
            i = i + 1;
        }
        if readings.len() != 2 {
            return Err(CurrencyPairError::IllegalDelimiterCount(readings.len()));
        }
        let first = readings[0].1;
        let second = readings[1].1;
        Ok(CurrencyPair::new(first.unwrap(), second.unwrap()))
    }
}

impl FromStr for CurrencyPair {
    type Err = CurrencyPairError;

    fn from_str(s: &str) -> (read: Result<Self, Self::Err>)
        ensures
            CurrencyPair::read_as(s@, read),
    {
        CurrencyPair::from_str(s)
    }
}

} // verus!
