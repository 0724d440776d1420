use market_collector::exchanges::binance::BinanceAdapter;
use market_collector::exchanges::bitfinex::BitfinexAdapter;
use market_collector::exchanges::bitrue::BitrueAdapter;
use market_collector::exchanges::bitstamp::BitstampAdapter;
use market_collector::exchanges::bybit::BybitAdapter;
use market_collector::exchanges::coinbase::CoinbaseAdapter;
use market_collector::exchanges::gateio::GateIoAdapter;
use market_collector::exchanges::kraken_v2::KrakenV2Adapter;
use market_collector::exchanges::kucoin::KucoinAdapter;
use market_collector::exchanges::mexc::MexcAdapter;
use market_collector::exchanges::okx::OkxAdapter;
use market_collector::exchanges::get_adapter;
use market_collector::schema::{MarketMessage, ParseOutcome};

const NOW: i64 = 1700000000000;

fn expect_trade(r: ParseOutcome) -> market_collector::schema::TradeData {
    match r {
        ParseOutcome::Market(MarketMessage::Trade(t)) => t,
        _ => panic!("expected a trade outcome"),
    }
}

fn expect_book(r: ParseOutcome) -> market_collector::schema::BookData {
    match r {
        ParseOutcome::Market(MarketMessage::Book(b)) => b,
        _ => panic!("expected a book outcome"),
    }
}

#[test]
fn gateio_trade_frame() {
    let raw = "{\"channel\":\"spot.trades\",\"event\":\"update\",\"result\":{\"currency_pair\":\"BTC_USDT\",\"create_time_ms\":1699999999123,\"price\":\"43000.5\",\"amount\":\"0.002\",\"side\":\"buy\"}}";
    let t = expect_trade(GateIoAdapter.parse_message(raw, "gateio", NOW));
    assert_eq!(t.exchange, "gateio");
    assert_eq!(t.symbol, "BTC/USDT");
    assert_eq!(t.timestamp, 1699999999123);
    assert_eq!(t.price, "43000.5");
    assert_eq!(t.amount, "0.002");
    assert_eq!(t.side, "buy");
}

#[test]
fn gateio_book_frame() {
    let raw = "{\"channel\":\"spot.order_book\",\"event\":\"update\",\"result\":{\"t\":1699999999000,\"s\":\"ETH_USDT\",\"asks\":[[\"2000.1\",\"1.5\"],[\"2000.2\",\"0.4\"]],\"bids\":[[\"1999.9\",\"2.0\"]]}}";
    let b = expect_book(GateIoAdapter.parse_message(raw, "gateio", NOW));
    assert_eq!(b.symbol, "ETH/USDT");
    assert_eq!(b.timestamp, 1699999999000);
    assert_eq!(b.asks.len(), 2);
    assert_eq!(b.asks[0].price, "2000.1");
    assert_eq!(b.asks[0].amount, "1.5");
    assert_eq!(b.bids.len(), 1);
    assert_eq!(b.bids[0].price, "1999.9");
}

#[test]
fn gateio_ack_is_control() {
    let raw = "{\"channel\":\"spot.trades\",\"event\":\"subscribe\",\"result\":{\"status\":\"success\"}}";
    assert!(matches!(GateIoAdapter.parse_message(raw, "gateio", NOW), ParseOutcome::Control));
}

#[test]
fn malformed_input_is_error_not_abort() {
    assert!(matches!(GateIoAdapter.parse_message("not json", "gateio", NOW), ParseOutcome::Error));
    assert!(matches!(BinanceAdapter.parse_message("{broken", "binance", NOW), ParseOutcome::Error));
    assert!(matches!(OkxAdapter.parse_message("", "okx", NOW), ParseOutcome::Error));
    assert!(matches!(BybitAdapter.parse_message("\u{1}\u{2}", "bybit", NOW), ParseOutcome::Error));
    assert!(matches!(KucoinAdapter.parse_message("[1,", "kucoin", NOW), ParseOutcome::Error));
    assert!(matches!(MexcAdapter.parse_message("nope", "mexc", NOW), ParseOutcome::Error));
    assert!(matches!(BitrueAdapter.parse_message("{{", "bitrue", NOW), ParseOutcome::Error));
    assert!(matches!(BitstampAdapter.parse_message("}", "bitstamp", NOW), ParseOutcome::Error));
    let mut kraken = KrakenV2Adapter::new();
    assert!(matches!(kraken.parse_message("oops", "kraken", NOW), ParseOutcome::Error));
    let mut bfx = BitfinexAdapter::new();
    assert!(matches!(bfx.parse_message("oops", "bitfinex", NOW), ParseOutcome::Error));
}

#[test]
fn binance_trade_frame() {
    let raw = "{\"e\":\"trade\",\"s\":\"BTCUSDT\",\"T\":1699999999456,\"p\":\"43111.0\",\"q\":\"0.5\",\"m\":true}";
    let t = expect_trade(BinanceAdapter.parse_message(raw, "binance", NOW));
    assert_eq!(t.symbol, "BTC/USDT");
    assert_eq!(t.timestamp, 1699999999456);
    assert_eq!(t.price, "43111.0");
    assert_eq!(t.amount, "0.5");
    assert_eq!(t.side, "sell");
}

#[test]
fn binance_combined_stream_and_zero_filter() {
    let raw = "{\"data\":{\"e\":\"depthUpdate\",\"s\":\"ETHUSDT\",\"E\":1699999999000,\"a\":[[\"2000.0\",\"0.00000000\"],[\"2001.0\",\"3.0\"]],\"b\":[[\"1999.0\",\"1.0\"]]}}";
    let b = expect_book(BinanceAdapter.parse_message(raw, "binance", NOW));
    assert_eq!(b.symbol, "ETH/USDT");
    assert_eq!(b.asks.len(), 1);
    assert_eq!(b.asks[0].price, "2001.0");
    assert_eq!(b.bids.len(), 1);
}

#[test]
fn binance_ack_is_control() {
    let raw = "{\"result\":null,\"id\":123}";
    assert!(matches!(BinanceAdapter.parse_message(raw, "binance", NOW), ParseOutcome::Control));
}

#[test]
fn okx_trade_frame() {
    let raw = "{\"arg\":{\"channel\":\"trades\",\"instId\":\"BTC-USDT\"},\"data\":[{\"ts\":\"1699999999789\",\"px\":\"43222.1\",\"sz\":\"0.01\",\"side\":\"BUY\"}]}";
    let t = expect_trade(OkxAdapter.parse_message(raw, "okx", NOW));
    assert_eq!(t.symbol, "BTC/USDT");
    assert_eq!(t.timestamp, 1699999999789);
    assert_eq!(t.price, "43222.1");
    assert_eq!(t.amount, "0.01");
    assert_eq!(t.side, "buy");
}

#[test]
fn okx_error_event() {
    let raw = "{\"event\":\"error\",\"code\":\"60012\"}";
    assert!(matches!(OkxAdapter.parse_message(raw, "okx", NOW), ParseOutcome::Error));
}

#[test]
fn coinbase_match_frame() {
    let raw = "{\"type\":\"match\",\"product_id\":\"BTC-USD\",\"price\":\"43001.0\",\"size\":\"0.25\",\"side\":\"sell\"}";
    let t = expect_trade(CoinbaseAdapter.parse_message(raw, "coinbase", NOW));
    assert_eq!(t.symbol, "BTC/USD");
    assert_eq!(t.timestamp, NOW);
    assert_eq!(t.price, "43001.0");
    assert_eq!(t.side, "sell");
}

#[test]
fn coinbase_l2update_routes_sides() {
    let raw = "{\"type\":\"l2update\",\"product_id\":\"ETH-USD\",\"changes\":[[\"buy\",\"1999.0\",\"1.5\"],[\"sell\",\"2001.0\",\"2.5\"],[\"sell\",\"2002.0\",\"0\"]]}";
    let b = expect_book(CoinbaseAdapter.parse_message(raw, "coinbase", NOW));
    assert_eq!(b.symbol, "ETH/USD");
    assert_eq!(b.bids.len(), 1);
    assert_eq!(b.bids[0].price, "1999.0");
    assert_eq!(b.asks.len(), 1);
    assert_eq!(b.asks[0].price, "2001.0");
}

#[test]
fn bybit_trade_frame() {
    let raw = "{\"topic\":\"publicTrade.BTCUSDT\",\"data\":[{\"s\":\"BTCUSDT\",\"T\":1699999991111,\"p\":\"43333.3\",\"v\":\"0.002\",\"S\":\"Buy\"}]}";
    let t = expect_trade(BybitAdapter.parse_message(raw, "bybit", NOW));
    assert_eq!(t.symbol, "BTC/USDT");
    assert_eq!(t.timestamp, 1699999991111);
    assert_eq!(t.side, "buy");
}

#[test]
fn bybit_op_ack_is_control() {
    let raw = "{\"op\":\"subscribe\",\"success\":true}";
    assert!(matches!(BybitAdapter.parse_message(raw, "bybit", NOW), ParseOutcome::Control));
}

#[test]
fn kucoin_trade_frame() {
    let raw = "{\"type\":\"message\",\"topic\":\"/market/match:BTC-USDT\",\"data\":{\"time\":\"1699999999000000000\",\"price\":\"43444.4\",\"size\":\"0.003\",\"side\":\"sell\"}}";
    let t = expect_trade(KucoinAdapter.parse_message(raw, "kucoin", NOW));
    assert_eq!(t.symbol, "BTC/USDT");
    assert_eq!(t.timestamp, 1699999999000);
    assert_eq!(t.price, "43444.4");
    assert_eq!(t.side, "sell");
}

#[test]
fn mexc_deal_frame() {
    let raw = "{\"channel\":\"push.deal\",\"symbol\":\"BTC_USDT\",\"data\":[{\"t\":1699999992222,\"p\":43555.5,\"v\":12,\"T\":2}]}";
    let t = expect_trade(MexcAdapter.parse_message(raw, "mexc", NOW));
    assert_eq!(t.symbol, "BTC/USDT");
    assert_eq!(t.timestamp, 1699999992222);
    assert_eq!(t.price, "43555.5");
    assert_eq!(t.amount, "12");
    assert_eq!(t.side, "sell");
}

#[test]
fn bitrue_trade_ticker_frame() {
    let raw = "{\"channel\":\"market_e_btcusdt_trade_ticker\",\"tick\":{\"data\":[{\"ts\":1699999993333,\"price\":\"43666.6\",\"amount\":\"0.004\",\"side\":\"BUY\"}]}}";
    let t = expect_trade(BitrueAdapter.parse_message(raw, "bitrue", NOW));
    assert_eq!(t.symbol, "BTC/USDT");
    assert_eq!(t.timestamp, 1699999993333);
    assert_eq!(t.side, "buy");
}

#[test]
fn bitstamp_trade_frame() {
    let raw = "{\"event\":\"trade\",\"channel\":\"live_trades_btcusd\",\"data\":{\"microtimestamp\":\"1699999994444000\",\"price_str\":\"43777.7\",\"amount_str\":\"0.005\",\"type\":0}}";
    let t = expect_trade(BitstampAdapter.parse_message(raw, "bitstamp", NOW));
    assert_eq!(t.symbol, "BTC/USD");
    assert_eq!(t.timestamp, 1699999994444);
    assert_eq!(t.price, "43777.7");
    assert_eq!(t.side, "buy");
}

#[test]
fn kraken_batch_drains_across_calls() {
    let mut kraken = KrakenV2Adapter::new();
    let raw = "{\"channel\":\"trade\",\"type\":\"update\",\"data\":[{\"symbol\":\"BTC/USD\",\"price\":\"43888.8\",\"qty\":\"0.1\",\"timestamp\":\"2024-01-01T00:00:00Z\",\"side\":\"buy\"},{\"symbol\":\"BTC/USD\",\"price\":\"43889.0\",\"qty\":\"0.2\",\"timestamp\":\"2024-01-01T00:00:01Z\",\"side\":\"sell\"}]}";
    let first = expect_trade(kraken.parse_message(raw, "kraken", NOW));
    assert_eq!(first.price, "43888.8");
    assert_eq!(first.timestamp, 1704067200000);
    assert_eq!(first.side, "buy");
    let second = expect_trade(kraken.parse_message("{\"channel\":\"heartbeat\"}", "kraken", NOW));
    assert_eq!(second.price, "43889.0");
    assert_eq!(second.timestamp, 1704067201000);
    assert_eq!(second.side, "sell");
    let r = kraken.parse_message("{\"channel\":\"heartbeat\"}", "kraken", NOW);
    assert!(matches!(r, ParseOutcome::Control));
}

#[test]
fn bitfinex_announcement_then_trade() {
    let mut bfx = BitfinexAdapter::new();
    let ack = "{\"event\":\"subscribed\",\"channel\":\"trades\",\"chanId\":17,\"symbol\":\"BTCUSD\"}";
    assert!(matches!(bfx.parse_message(ack, "bitfinex", NOW), ParseOutcome::Control));
    let raw = "[17,\"tu\",[1234567,1699999995555,-0.07,43999.9]]";
    let t = expect_trade(bfx.parse_message(raw, "bitfinex", NOW));
    assert_eq!(t.symbol, "BTC/USD");
    assert_eq!(t.timestamp, 1699999995555);
    assert_eq!(t.price, "43999.9");
    assert_eq!(t.amount, "0.07");
    assert_eq!(t.side, "sell");
}

#[test]
fn bitfinex_unknown_channel_is_control() {
    let mut bfx = BitfinexAdapter::new();
    let raw = "[99,\"tu\",[1,1699999995555,0.5,43999.9]]";
    assert!(matches!(bfx.parse_message(raw, "bitfinex", NOW), ParseOutcome::Control));
}

#[test]
fn registry_resolves_the_supported_names() {
    for name in ["gateio", "binanceus", "binance", "okx", "bitrue", "kucoin", "coinbase", "bybit"] {
        let a = get_adapter(name).expect("supported venue");
        assert_eq!(a.name(), name);
    }
    assert!(get_adapter("unknown").is_none());
}
