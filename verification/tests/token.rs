use richamster_api::api::token::{split_text, CurrencyPair, CurrencyPairError, Token, TokenError};

#[test]
fn token_conversion() {
    let token: Token = Token::ADA;
    let token_str: &str = token.as_ref();
    assert_eq!(token_str, "ADA");
    let token2: Token = token_str.parse().unwrap();
    assert_eq!(token2, Token::ADA);
}

#[test]
fn invalid_string_conversion() {
    let token_str: &str = "APT";
    let result = token_str.parse::<Token>();
    assert!(result.is_err());
}

#[test]
fn string_currency_pair_conversion() {
    let pair: &str = "BTC/UAH";
    let result: Result<CurrencyPair, CurrencyPairError> = pair.parse::<CurrencyPair>();
    assert!(result.is_ok());
}

#[test]
fn lowercase_string_currency_pair_conversion() {
    let pair: &str = "btc/uah";
    let result: Result<CurrencyPair, CurrencyPairError> = pair.parse::<CurrencyPair>();
    assert!(result.is_ok());
}

#[test]
fn invalid_string_currency_pair_conversion() {
    let pair: &str = "BTC/APT";
    let result: Result<CurrencyPair, CurrencyPairError> = pair.parse::<CurrencyPair>();
    assert!(result.is_err());
}

#[test]
fn invalid_delimiter_count_string_currency_pair_conversion() {
    let pair: &str = "BTC/UAH/BAT";
    let result: Result<CurrencyPair, CurrencyPairError> = pair.parse::<CurrencyPair>();
    assert!(result.is_err());
}

#[test]
fn every_token_reads_back_from_its_name() {
    let all = Token::all();
    assert_eq!(all.len(), 34);
    for token in all {
        assert_eq!(Token::from_name(token.as_ref()), Some(token));
        assert_eq!(token.to_string(), token.as_ref());
        assert_eq!(token.as_ref().parse::<Token>().unwrap(), token);
    }
}

#[test]
fn token_names_are_exact() {
    assert_eq!(Token::from_name("BTC"), Some(Token::BTC));
    assert_eq!(Token::from_name("btc"), None);
    assert_eq!(Token::from_name("BTC "), None);
    assert_eq!(Token::from_name(""), None);
    assert_eq!(Token::XAUT.as_ref(), "XAUT");
    assert_eq!(Token::WAVES.as_ref(), "WAVES");
}

#[test]
fn token_error_carries_the_upper_case_form() {
    match Token::from_str("apt") {
        Err(TokenError::InvalidToken(text)) => assert_eq!(text, "APT"),
        other => panic!("unexpected: {:?}", other),
    }
}

#[test]
fn token_is_read_by_the_unicode_upper_case() {
    assert_eq!(Token::from_str("doge").unwrap(), Token::DOGE);
    assert_eq!(Token::from_str("\u{17f}ol").unwrap(), Token::SOL);
}

#[test]
fn currency_pair_parts_and_text() {
    let pair = CurrencyPair::new(Token::BTC, Token::UAH);
    assert_eq!(pair.first(), Token::BTC);
    assert_eq!(pair.second(), Token::UAH);
    assert_eq!(pair.0, [Token::BTC, Token::UAH]);
    assert_eq!(pair.to_string(), "BTC/UAH");
    assert_eq!(CurrencyPair::from_str("btc/uah").unwrap(), pair);
    assert_eq!("Eth/usdt".parse::<CurrencyPair>().unwrap(), CurrencyPair::new(Token::ETH, Token::USDT));
}

#[test]
fn currency_pair_errors() {
    match CurrencyPair::from_str("BTC/apt") {
        Err(CurrencyPairError::InvalidToken(piece)) => assert_eq!(piece, "apt"),
        other => panic!("unexpected: {:?}", other),
    }
    match CurrencyPair::from_str("BTC/UAH/BAT") {
        Err(CurrencyPairError::IllegalDelimiterCount(count)) => assert_eq!(count, 3),
        other => panic!("unexpected: {:?}", other),
    }
    match CurrencyPair::from_str("BTC") {
        Err(CurrencyPairError::IllegalDelimiterCount(count)) => assert_eq!(count, 1),
        other => panic!("unexpected: {:?}", other),
    }
    match CurrencyPair::from_str("") {
        Err(CurrencyPairError::InvalidToken(piece)) => assert_eq!(piece, ""),
        other => panic!("unexpected: {:?}", other),
    }
    match CurrencyPair::from_str("BTC/") {
        Err(CurrencyPairError::InvalidToken(piece)) => assert_eq!(piece, ""),
        other => panic!("unexpected: {:?}", other),
    }
    match CurrencyPair::from_str("BTC/XYZ/QQQ") {
        Err(CurrencyPairError::InvalidToken(piece)) => assert_eq!(piece, "XYZ"),
        other => panic!("unexpected: {:?}", other),
    }
}

#[test]
fn split_text_keeps_empty_pieces() {
    assert_eq!(split_text("a/b", '/'), vec!["a", "b"]);
    assert_eq!(split_text("", '/'), vec![""]);
    assert_eq!(split_text("/", '/'), vec!["", ""]);
    assert_eq!(split_text("a//b/", '/'), vec!["a", "", "b", ""]);
    assert_eq!(split_text("\u{444}/\u{10348}x", '/'), vec!["\u{444}", "\u{10348}x"]);
    assert_eq!(split_text("abc", '/'), vec!["abc"]);
}

#[test]
fn a_pair_from_what_its_pieces_were_read_as() {
    let pair = CurrencyPair::from_readings(&vec![("a", Some(Token::BTC)), ("b", Some(Token::UAH))]);
    assert_eq!(pair.unwrap(), CurrencyPair::new(Token::BTC, Token::UAH));
    match CurrencyPair::from_readings(&vec![("a", Some(Token::BTC)), ("b", None), ("c", None)]) {
        Err(CurrencyPairError::InvalidToken(piece)) => assert_eq!(piece, "b"),
        other => panic!("unexpected: {:?}", other),
    }
    match CurrencyPair::from_readings(&vec![("a", Some(Token::BTC))]) {
        Err(CurrencyPairError::IllegalDelimiterCount(count)) => assert_eq!(count, 1),
        other => panic!("unexpected: {:?}", other),
    }
    match CurrencyPair::from_readings(&Vec::new()) {
        Err(CurrencyPairError::IllegalDelimiterCount(count)) => assert_eq!(count, 0),
        other => panic!("unexpected: {:?}", other),
    }
}
