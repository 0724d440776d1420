use market_collector::exchanges::binance::BinanceAdapter;
use market_collector::exchanges::bitfinex::BitfinexAdapter;
use market_collector::exchanges::bitrue::BitrueAdapter;
use market_collector::exchanges::bitstamp::BitstampAdapter;
use market_collector::exchanges::bybit::BybitAdapter;
use market_collector::exchanges::coinbase::CoinbaseAdapter;
use market_collector::exchanges::gateio::GateIoAdapter;
use market_collector::exchanges::kraken_v2::KrakenV2Adapter;
use market_collector::exchanges::kucoin::KucoinAdapter;
use market_collector::exchanges::mexc::MexcAdapter;
use market_collector::exchanges::okx::OkxAdapter;
use market_collector::config::{ExchangeChunking, ExchangeConfig, ExchangePairs, OrderbookConfig};
use market_collector::ChannelType;

const NOW: i64 = 1700000000001;

fn cfg(name: &str, orderbook: Option<OrderbookConfig>) -> ExchangeConfig {
    ExchangeConfig {
        name: name.to_string(),
        enabled: true,
        pairs: ExchangePairs { trades: vec![], orderbooks: vec![] },
        chunking: ExchangeChunking { trades_per_connection: 5, orderbooks_per_connection: 1 },
        orderbook,
    }
}

#[test]
fn gateio_trades_payload() {
    let pairs = vec!["BTC/USDT".to_string(), "ETH/USDT".to_string()];
    let s = GateIoAdapter.build_subscribe_message(ChannelType::Trades, &pairs, &cfg("gateio", None), NOW);
    assert_eq!(
        s,
        "{\"time\":1700000000001,\"channel\":\"spot.trades\",\"event\":\"subscribe\",\"payload\":[\"BTC_USDT\",\"ETH_USDT\"]}"
    );
}

#[test]
fn gateio_book_payload_uses_configuration() {
    let pairs = vec!["BTC/USDT".to_string()];
    let ob = Some(OrderbookConfig { depth: 50, update_interval_ms: 500 });
    let s = GateIoAdapter.build_subscribe_message(ChannelType::OrderBooks, &pairs, &cfg("gateio", ob), NOW);
    assert_eq!(
        s,
        "{\"time\":1700000000001,\"channel\":\"spot.order_book\",\"event\":\"subscribe\",\"payload\":[\"BTC_USDT\",\"50\",\"500ms\"]}"
    );
}

#[test]
fn gateio_book_payload_defaults() {
    let pairs = vec!["BTC/USDT".to_string()];
    let s = GateIoAdapter.build_subscribe_message(ChannelType::OrderBooks, &pairs, &cfg("gateio", None), NOW);
    assert_eq!(
        s,
        "{\"time\":1700000000001,\"channel\":\"spot.order_book\",\"event\":\"subscribe\",\"payload\":[\"BTC_USDT\",\"20\",\"1000ms\"]}"
    );
}

#[test]
fn binance_trades_payload() {
    let pairs = vec!["BTC/USDT".to_string()];
    let s = BinanceAdapter.build_subscribe_message(ChannelType::Trades, &pairs, &cfg("binance", None), NOW);
    assert_eq!(s, "{\"method\":\"SUBSCRIBE\",\"params\":[\"btcusdt@trade\"],\"id\":1700000000001}");
}

#[test]
fn binance_book_payload() {
    let pairs = vec!["ETH/USDT".to_string()];
    let s = BinanceAdapter.build_subscribe_message(ChannelType::OrderBooks, &pairs, &cfg("binance", None), NOW);
    assert_eq!(s, "{\"method\":\"SUBSCRIBE\",\"params\":[\"ethusdt@depth\"],\"id\":1700000000001}");
}

#[test]
fn okx_trades_payload() {
    let pairs = vec!["BTC/USDT".to_string(), "ETH/USDT".to_string()];
    let s = OkxAdapter.build_subscribe_message(ChannelType::Trades, &pairs, &cfg("okx", None), NOW);
    assert_eq!(
        s,
        "{\"op\":\"subscribe\",\"args\":[{\"channel\":\"trades\",\"instId\":\"BTC-USDT\"},{\"channel\":\"trades\",\"instId\":\"ETH-USDT\"}]}"
    );
}

#[test]
fn coinbase_payloads() {
    let pairs = vec!["BTC/USD".to_string()];
    let t = CoinbaseAdapter.build_subscribe_message(ChannelType::Trades, &pairs, &cfg("coinbase", None), NOW);
    assert_eq!(t, "{\"type\":\"subscribe\",\"product_ids\":[\"BTC-USD\"],\"channels\":[\"matches\"]}");
    let b = CoinbaseAdapter.build_subscribe_message(ChannelType::OrderBooks, &pairs, &cfg("coinbase", None), NOW);
    assert_eq!(b, "{\"type\":\"subscribe\",\"product_ids\":[\"BTC-USD\"],\"channels\":[\"level2\"]}");
}

#[test]
fn bybit_payloads() {
    let pairs = vec!["BTC/USDT".to_string()];
    let t = BybitAdapter.build_subscribe_message(ChannelType::Trades, &pairs, &cfg("bybit", None), NOW);
    assert_eq!(t, "{\"op\":\"subscribe\",\"args\":[\"publicTrade.BTCUSDT\"]}");
    let b = BybitAdapter.build_subscribe_message(ChannelType::OrderBooks, &pairs, &cfg("bybit", None), NOW);
    assert_eq!(b, "{\"op\":\"subscribe\",\"args\":[\"orderbook.50.BTCUSDT\"]}");
}

#[test]
fn kucoin_trades_payload() {
    let pairs = vec!["BTC/USDT".to_string()];
    let s = KucoinAdapter.build_subscribe_message(ChannelType::Trades, &pairs, &cfg("kucoin", None), NOW);
    assert_eq!(
        s,
        "{\"id\":\"1700000000001\",\"type\":\"subscribe\",\"topic\":\"/market/match:BTC-USDT\",\"privateChannel\":false,\"response\":true}"
    );
}

#[test]
fn mexc_trades_payload() {
    let pairs = vec!["BTC/USDT".to_string()];
    let s = MexcAdapter.build_subscribe_message(ChannelType::Trades, &pairs, &cfg("mexc", None), NOW);
    assert_eq!(s, "{\"method\":\"sub.deal\",\"param\":{\"symbol\":\"BTC_USDT\"}}");
}

#[test]
fn bitrue_trades_payload() {
    let pairs = vec!["BTC/USDT".to_string()];
    let s = BitrueAdapter.build_subscribe_message(ChannelType::Trades, &pairs, &cfg("bitrue", None), NOW);
    assert_eq!(s, "{\"event\":\"sub\",\"params\":{\"channel\":\"market_e_btcusdt_trade_ticker\"}}");
}

#[test]
fn bitstamp_trades_payload() {
    let pairs = vec!["BTC/USD".to_string()];
    let s = BitstampAdapter.build_subscribe_message(ChannelType::Trades, &pairs, &cfg("bitstamp", None), NOW);
    assert_eq!(s, "{\"event\":\"bts:subscribe\",\"data\":{\"channel\":\"live_trades_btc/usd\"}}");
}

#[test]
fn bitfinex_trades_payload() {
    let pairs = vec!["BTC/USD".to_string()];
    let s = BitfinexAdapter::new().build_subscribe_message(ChannelType::Trades, &pairs, &cfg("bitfinex", None), NOW);
    assert_eq!(s, "{\"event\":\"subscribe\",\"channel\":\"trades\",\"symbol\":\"BTC/USD\"}");
}

#[test]
fn kraken_payloads() {
    let pairs = vec!["BTC/USD".to_string()];
    let t = KrakenV2Adapter::new().build_subscribe_message(ChannelType::Trades, &pairs, &cfg("kraken", None), NOW);
    assert_eq!(t, "{\"method\":\"subscribe\",\"params\":{\"channel\":\"trade\",\"symbol\":[\"BTC/USD\"]}}");
    let b = KrakenV2Adapter::new().build_subscribe_message(ChannelType::OrderBooks, &pairs, &cfg("kraken", None), NOW);
    assert_eq!(b, "{\"method\":\"subscribe\",\"params\":{\"channel\":\"book\",\"symbol\":[\"BTC/USD\"],\"depth\":20}}");
}
