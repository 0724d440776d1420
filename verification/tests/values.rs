use market_collector::chunk_count;
use market_collector::schema::{BookData, BookLevel, MarketMessage, TickerData};
use market_collector::strings::{
    i64_to_string, parse_i64, parse_u64, split_nth, u64_to_string,
};
use market_collector::util::{normalize_symbol, now_ms, symbol_from_exchange, symbol_to_exchange};
use market_collector::wire::to_wire_text;

#[test]
fn normalize_symbol_examples() {
    assert_eq!(normalize_symbol("BTC_USDT"), "BTC/USDT");
    assert_eq!(normalize_symbol("ETH-USDT"), "ETH/USDT");
    assert_eq!(normalize_symbol("XRP/USD"), "XRP/USD");
}

#[test]
fn symbol_to_exchange_examples() {
    assert_eq!(symbol_to_exchange("gateio", "BTC/USDT"), "BTC_USDT");
    assert_eq!(symbol_to_exchange("mexc", "BTC/USDT"), "BTC_USDT");
    assert_eq!(symbol_to_exchange("binance", "BTC/USDT"), "BTCUSDT");
    assert_eq!(symbol_to_exchange("binanceus", "BTC/USDT"), "BTCUSDT");
    assert_eq!(symbol_to_exchange("bybit", "BTC/USDT"), "BTCUSDT");
    assert_eq!(symbol_to_exchange("bitrue", "BTC/USDT"), "btcusdt");
    assert_eq!(symbol_to_exchange("okx", "BTC/USDT"), "BTC-USDT");
    assert_eq!(symbol_to_exchange("kucoin", "BTC/USDT"), "BTC-USDT");
    assert_eq!(symbol_to_exchange("coinbase", "BTC/USDT"), "BTC-USDT");
    assert_eq!(symbol_to_exchange("kraken", "BTC/USDT"), "BTC/USDT");
}

#[test]
fn symbol_from_exchange_examples() {
    assert_eq!(symbol_from_exchange("gateio", "BTC_USDT"), "BTC/USDT");
    assert_eq!(symbol_from_exchange("mexc", "BTC_USDT"), "BTC/USDT");
    assert_eq!(symbol_from_exchange("coinbase", "BTC-USDT"), "BTC/USDT");
    assert_eq!(symbol_from_exchange("okx", "ETH-USD"), "ETH/USD");
    assert_eq!(symbol_from_exchange("binance", "BTCUSDT"), "BTC/USDT");
    assert_eq!(symbol_from_exchange("binance", "SOLUSD"), "SOL/USD");
    // The quote alone never yields an empty base.
    assert_eq!(symbol_from_exchange("binance", "USDT"), "USDT");
    assert_eq!(symbol_from_exchange("bybit", "ETHUSDT"), "ETH/USDT");
    assert_eq!(symbol_from_exchange("bitrue", "btcusdt"), "BTC/USDT");
    assert_eq!(symbol_from_exchange("bitrue", "xrpusd"), "XRP/USD");
    assert_eq!(symbol_from_exchange("bitrue", "weird"), "WEIRD");
    assert_eq!(symbol_from_exchange("bitfinex", "BTCUSD"), "BTC/USD");
    assert_eq!(symbol_from_exchange("bitfinex", "ETHUSDT"), "ETH/USDT");
    assert_eq!(symbol_from_exchange("bitfinex", "USDT"), "USDT");
    assert_eq!(symbol_from_exchange("bitstamp", "btcusd"), "BTC/USD");
    assert_eq!(symbol_from_exchange("bitstamp", "ethusdt"), "ETH/USDT");
    assert_eq!(symbol_from_exchange("elsewhere", "AS-IS"), "AS-IS");
}

#[test]
fn decimal_rendering() {
    assert_eq!(u64_to_string(0), "0");
    assert_eq!(u64_to_string(7), "7");
    assert_eq!(u64_to_string(1700000000001), "1700000000001");
    assert_eq!(i64_to_string(-42), "-42");
    assert_eq!(i64_to_string(i64::MIN), "-9223372036854775808");
    assert_eq!(i64_to_string(i64::MAX), "9223372036854775807");
}

#[test]
fn decimal_parsing() {
    assert_eq!(parse_i64("0"), Some(0));
    assert_eq!(parse_i64("1699999999123"), Some(1699999999123));
    assert_eq!(parse_i64("-17"), Some(-17));
    assert_eq!(parse_i64("9223372036854775807"), Some(i64::MAX));
    assert_eq!(parse_i64("9223372036854775808"), None);
    assert_eq!(parse_i64("-9223372036854775808"), Some(i64::MIN));
    assert_eq!(parse_i64("-9223372036854775809"), None);
    assert_eq!(parse_i64(""), None);
    assert_eq!(parse_i64("12a"), None);
    assert_eq!(parse_i64("1.5"), None);
    assert_eq!(parse_u64("18446744073709551615"), Some(u64::MAX));
    assert_eq!(parse_u64("18446744073709551616"), None);
    assert_eq!(parse_u64("-1"), None);
}

#[test]
fn splitting() {
    assert_eq!(split_nth("market_e_btcusdt_trade_ticker", "_", 2), Some("btcusdt".to_string()));
    assert_eq!(split_nth("/market/match:BTC-USDT", ":", 1), Some("BTC-USDT".to_string()));
    assert_eq!(split_nth("a_b", "_", 5), None);
    assert_eq!(split_nth("plain", "_", 0), Some("plain".to_string()));
}

#[test]
fn chunk_count_examples() {
    assert_eq!(chunk_count(9, 5), 2);
    assert_eq!(chunk_count(10, 5), 2);
    assert_eq!(chunk_count(11, 5), 3);
    assert_eq!(chunk_count(0, 5), 0);
    assert_eq!(chunk_count(1, 1), 1);
}

#[test]
fn clock_is_epoch_milliseconds() {
    let t = now_ms();
    // Far later than the start of 2023, and nonnegative by contract.
    assert!(t > 1672531200000);
}

#[test]
fn book_wire_text() {
    let b = MarketMessage::Book(BookData {
        exchange: "binance".to_string(),
        symbol: "ETH/USDT".to_string(),
        timestamp: 1699999999000,
        asks: vec![BookLevel { price: "2001.0".to_string(), amount: "3.0".to_string() }],
        bids: vec![
            BookLevel { price: "1999.0".to_string(), amount: "1.0".to_string() },
            BookLevel { price: "1998.5".to_string(), amount: "2.0".to_string() },
        ],
    });
    assert_eq!(
        to_wire_text(&b),
        "{\"type\":\"book\",\"exchange\":\"binance\",\"symbol\":\"ETH/USDT\",\"timestamp\":1699999999000,\"asks\":[[\"2001.0\",\"3.0\"]],\"bids\":[[\"1999.0\",\"1.0\"],[\"1998.5\",\"2.0\"]]}"
    );
}

#[test]
fn ticker_wire_text_with_missing_fields() {
    let t = MarketMessage::Ticker(TickerData {
        exchange: "okx".to_string(),
        symbol: "BTC/USDT".to_string(),
        timestamp: 1699999999000,
        bid: Some("43000.0".to_string()),
        ask: None,
        last: Some("43001.0".to_string()),
        vol_24h: None,
    });
    assert_eq!(
        to_wire_text(&t),
        "{\"type\":\"ticker\",\"exchange\":\"okx\",\"symbol\":\"BTC/USDT\",\"timestamp\":1699999999000,\"bid\":\"43000.0\",\"ask\":null,\"last\":\"43001.0\",\"vol_24h\":null}"
    );
}

#[test]
fn wire_text_escapes_quotes_and_controls() {
    let t = MarketMessage::Trade(market_collector::schema::TradeData {
        exchange: "x".to_string(),
        symbol: "A\"B\\C\n".to_string(),
        timestamp: 0,
        price: "1".to_string(),
        amount: "2".to_string(),
        side: "buy".to_string(),
    });
    let wire = to_wire_text(&t);
    let v: serde_json::Value = serde_json::from_str(&wire).unwrap();
    assert_eq!(v["symbol"], "A\"B\\C\n");
}
