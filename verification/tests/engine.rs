use std::io::Write;

use market_collector::config::{ExchangeChunking, ExchangeConfig, ExchangePairs};
use market_collector::errors::EngineError;
use market_collector::exchanges::bitstamp::BitstampAdapter;
use market_collector::exchanges::gateio::GateIoAdapter;
use market_collector::exchanges::kucoin::KucoinAdapter;
use market_collector::exchanges::Adapter;
use market_collector::metrics::RuntimeMetrics;
use market_collector::planner::plan_streams;
use market_collector::pool::MasterPool;
use market_collector::runner::{
    handle_parsed, kucoin_endpoint_from_response, kucoin_ping_every_ms, kucoin_ping_text,
    ConnAction, ConnState, ConnectionRunner, FrameReply, LifecycleEvent, RECONNECT_DELAY_MS,
};
use market_collector::schema::{MarketMessage, ParseOutcome, TradeData};
use market_collector::sender::{login_message, ping_text, writer_step, MasterSender, WriterAction, WriterEvent};
use market_collector::wire::to_wire_text;
use market_collector::ChannelType;

const NOW: i64 = 1700000000002;

fn venue_cfg(name: &str, trades: Vec<&str>, orderbooks: Vec<&str>, k: usize) -> ExchangeConfig {
    ExchangeConfig {
        name: name.to_string(),
        enabled: true,
        pairs: ExchangePairs {
            trades: trades.into_iter().map(|s| s.to_string()).collect(),
            orderbooks: orderbooks.into_iter().map(|s| s.to_string()).collect(),
        },
        chunking: ExchangeChunking { trades_per_connection: k, orderbooks_per_connection: 1 },
        orderbook: None,
    }
}

fn sample_trade() -> MarketMessage {
    MarketMessage::Trade(TradeData {
        exchange: "gateio".to_string(),
        symbol: "BTC/USDT".to_string(),
        timestamp: 1699999999123,
        price: "43000.5".to_string(),
        amount: "0.002".to_string(),
        side: "buy".to_string(),
    })
}

#[test]
fn planner_chunks_nine_trades_by_five() {
    let cfg = venue_cfg(
        "gateio",
        vec!["A/U", "B/U", "C/U", "D/U", "E/U", "F/U", "G/U", "H/U", "I/U"],
        vec![],
        5,
    );
    let plan = plan_streams(ChannelType::Trades, &cfg);
    assert_eq!(plan.len(), 2);
    assert_eq!(plan[0].symbols.len(), 5);
    assert_eq!(plan[1].symbols.len(), 4);
    assert_eq!(plan[0].symbols[0], "A/U");
    assert_eq!(plan[1].symbols[0], "F/U");
    assert_eq!(plan[1].symbols[3], "I/U");
    for s in &plan {
        assert_eq!(s.venue, "gateio");
        assert!(matches!(s.channel, ChannelType::Trades));
    }
}

#[test]
fn planner_books_one_stream_per_symbol() {
    let cfg = venue_cfg("gateio", vec![], vec!["A/U", "B/U", "C/U", "D/U"], 5);
    let plan = plan_streams(ChannelType::OrderBooks, &cfg);
    assert_eq!(plan.len(), 4);
    for (i, s) in plan.iter().enumerate() {
        assert_eq!(s.symbols.len(), 1);
        assert_eq!(s.symbols[0], cfg.pairs.orderbooks[i]);
        assert!(matches!(s.channel, ChannelType::OrderBooks));
    }
}

#[test]
fn runner_reconnects_under_same_identity() {
    let cfg = venue_cfg("gateio", vec!["BTC/USDT", "ETH/USDT"], vec![], 5);
    let plan = plan_streams(ChannelType::Trades, &cfg);
    let mut runner = ConnectionRunner::new(
        plan.into_iter().next().unwrap(),
        cfg,
        Adapter::GateIo(GateIoAdapter),
    );
    let mut metrics = RuntimeMetrics::new();

    let first_sub = match runner.step(LifecycleEvent::Connected, NOW, &mut metrics) {
        ConnAction::SendText(t) => t,
        _ => panic!("expected a subscription payload"),
    };
    assert!(matches!(runner.step(LifecycleEvent::SubscribeSent, NOW, &mut metrics), ConnAction::Idle));
    assert_eq!(runner.state, ConnState::Streaming);

    // A simulated read failure: the stream backs off for the fixed delay.
    match runner.step(LifecycleEvent::LinkLost, NOW, &mut metrics) {
        ConnAction::Wait(ms) => assert_eq!(ms, RECONNECT_DELAY_MS),
        _ => panic!("expected a backoff"),
    }
    assert_eq!(metrics.ws_reconnects, 1);

    // After the delay it dials again and re-subscribes with a payload
    // computed from the same identity: nothing from another connection
    // leaks in.
    match runner.step(LifecycleEvent::DelayElapsed, NOW, &mut metrics) {
        ConnAction::Dial(url) => assert_eq!(url, "wss://api.gateio.ws/ws/v4/"),
        _ => panic!("expected a dial"),
    }
    assert_eq!(runner.identity.venue, "gateio");
    assert_eq!(runner.identity.symbols, vec!["BTC/USDT".to_string(), "ETH/USDT".to_string()]);
    let second_sub = match runner.step(LifecycleEvent::Connected, NOW, &mut metrics) {
        ConnAction::SendText(t) => t,
        _ => panic!("expected a subscription payload"),
    };
    assert_eq!(first_sub, second_sub);
}

#[test]
fn runner_sequential_subscribe_per_symbol() {
    let cfg = venue_cfg("bitstamp", vec!["BTC/USD", "ETH/USD"], vec![], 5);
    let plan = plan_streams(ChannelType::Trades, &cfg);
    let mut runner = ConnectionRunner::new(
        plan.into_iter().next().unwrap(),
        cfg,
        Adapter::Bitstamp(BitstampAdapter),
    );
    let mut metrics = RuntimeMetrics::new();
    let first = match runner.step(LifecycleEvent::Connected, NOW, &mut metrics) {
        ConnAction::SendText(t) => t,
        _ => panic!("expected a subscription payload"),
    };
    assert!(first.contains("live_trades_btc/usd"));
    let second = match runner.step(LifecycleEvent::SubscribeSent, NOW, &mut metrics) {
        ConnAction::SendText(t) => t,
        _ => panic!("expected the next subscription payload"),
    };
    assert!(second.contains("live_trades_eth/usd"));
    assert!(matches!(runner.step(LifecycleEvent::SubscribeSent, NOW, &mut metrics), ConnAction::Idle));
    assert_eq!(runner.state, ConnState::Streaming);
    assert_eq!(metrics.subscriptions_sent, 2);
}

#[test]
fn runner_subscribe_failure_backs_off() {
    let cfg = venue_cfg("gateio", vec!["BTC/USDT"], vec![], 5);
    let plan = plan_streams(ChannelType::Trades, &cfg);
    let mut runner = ConnectionRunner::new(
        plan.into_iter().next().unwrap(),
        cfg,
        Adapter::GateIo(GateIoAdapter),
    );
    let mut metrics = RuntimeMetrics::new();
    runner.step(LifecycleEvent::Connected, NOW, &mut metrics);
    match runner.step(LifecycleEvent::SubscribeFailed, NOW, &mut metrics) {
        ConnAction::Wait(ms) => assert_eq!(ms, RECONNECT_DELAY_MS),
        _ => panic!("expected a backoff"),
    }
    assert_eq!(metrics.subscription_errors, 1);
    assert_eq!(runner.state, ConnState::ReconnectDelay);
}

#[test]
fn sender_generation_replaced_on_reconnect() {
    let mut metrics = RuntimeMetrics::new();
    let mut s = MasterSender::new(8);
    s.reconnect();
    assert_eq!(s.queue.generation, 1);
    s.send(to_wire_text(&sample_trade()), &mut metrics).unwrap();
    // The link fails with the message still pending.
    s.link_down();
    s.reconnect();
    assert_eq!(s.queue.generation, 2);
    // The superseded generation's pending message is never observed.
    assert!(s.dequeue().is_none());
    // New-generation traffic flows normally.
    s.send("fresh".to_string(), &mut metrics).unwrap();
    assert_eq!(s.dequeue().unwrap(), "fresh");
}

#[test]
fn sender_saturated_queue_drops_silently() {
    let mut metrics = RuntimeMetrics::new();
    let mut s = MasterSender::new(2);
    s.reconnect();
    assert!(s.send("m1".to_string(), &mut metrics).is_ok());
    assert!(s.send("m2".to_string(), &mut metrics).is_ok());
    assert_eq!(metrics.dropped_messages, 0);
    // The third message while saturated: success to the caller, one
    // counted drop, never transmitted.
    assert!(s.send("m3".to_string(), &mut metrics).is_ok());
    assert_eq!(metrics.dropped_messages, 1);
    assert_eq!(s.dequeue().unwrap(), "m1");
    assert_eq!(s.dequeue().unwrap(), "m2");
    assert!(s.dequeue().is_none());
}

#[test]
fn sender_down_link_reports_failure() {
    let mut metrics = RuntimeMetrics::new();
    let mut s = MasterSender::new(2);
    assert_eq!(s.send("m".to_string(), &mut metrics), Err(EngineError::Send));
}

#[test]
fn pool_drops_after_three_attempts() {
    let mut metrics = RuntimeMetrics::new();
    // Two senders, both with their link down: every attempt fails.
    let mut pool = MasterPool::new(2, 8, false);
    let r = pool.send(&sample_trade(), &mut metrics);
    assert_eq!(r, Err(EngineError::AllSendersBusy));
    // The failed relay is a counted, non-fatal drop.
    handle_parsed(ParseOutcome::Market(sample_trade()), &mut pool, &mut metrics);
    assert_eq!(metrics.trades_received, 1);
    assert_eq!(metrics.send_errors, 1);
    assert_eq!(metrics.dropped_messages, 1);
    assert_eq!(metrics.trades_forwarded, 0);
}

#[test]
fn pool_delivers_with_a_live_sender() {
    let mut metrics = RuntimeMetrics::new();
    let mut pool = MasterPool::new(1, 8, false);
    for s in pool.senders.iter_mut() {
        s.reconnect();
    }
    handle_parsed(ParseOutcome::Market(sample_trade()), &mut pool, &mut metrics);
    assert_eq!(metrics.trades_forwarded, 1);
    assert_eq!(metrics.send_errors, 0);
    let wire = pool.senders[0].dequeue().expect("queued for the wire");
    assert_eq!(wire, to_wire_text(&sample_trade()));
}

#[test]
fn demo_pool_touches_only_the_local_sink() {
    let mut metrics = RuntimeMetrics::new();
    let mut pool = MasterPool::new(4, 8, true);
    assert_eq!(pool.senders.len(), 0);
    handle_parsed(ParseOutcome::Market(sample_trade()), &mut pool, &mut metrics);
    assert_eq!(metrics.trades_forwarded, 1);
    assert_eq!(pool.echo.len(), 1);
    assert_eq!(pool.echo[0], to_wire_text(&sample_trade()));
}

#[test]
fn parse_error_is_counted_and_stream_continues() {
    let mut metrics = RuntimeMetrics::new();
    let mut pool = MasterPool::new(0, 8, true);
    handle_parsed(ParseOutcome::Error, &mut pool, &mut metrics);
    handle_parsed(ParseOutcome::Control, &mut pool, &mut metrics);
    assert_eq!(metrics.parse_errors, 1);
    assert_eq!(metrics.trades_received, 0);
    assert_eq!(pool.echo.len(), 0);
}

#[test]
fn wire_text_is_the_canonical_event() {
    let wire = to_wire_text(&sample_trade());
    assert_eq!(
        wire,
        "{\"type\":\"trade\",\"exchange\":\"gateio\",\"symbol\":\"BTC/USDT\",\"timestamp\":1699999999123,\"price\":\"43000.5\",\"amount\":\"0.002\",\"side\":\"buy\"}"
    );
    // The encoding is valid JSON as the aggregator reads it.
    let v: serde_json::Value = serde_json::from_str(&wire).unwrap();
    assert_eq!(v["type"], "trade");
    assert_eq!(v["symbol"], "BTC/USDT");
}

#[test]
fn login_and_heartbeat_lines() {
    assert_eq!(login_message("SECRET-REDACTED"), "key=SECRET-REDACTED&role=collector");
    assert_eq!(ping_text(), "{\"op\":\"ping\"}");
    match writer_step(WriterEvent::QueueMessage("x".to_string())) {
        WriterAction::Transmit(t) => assert_eq!(t, "x"),
        _ => panic!("expected a transmit"),
    }
    match writer_step(WriterEvent::HeartbeatDue) {
        WriterAction::Transmit(t) => assert_eq!(t, "{\"op\":\"ping\"}"),
        _ => panic!("expected a heartbeat"),
    }
    assert!(matches!(writer_step(WriterEvent::LivenessLost), WriterAction::Stop));
}

#[test]
fn kucoin_runtime_endpoint_and_ping() {
    let raw = "{\"data\":{\"token\":\"tok123\",\"instanceServers\":[{\"endpoint\":\"wss://ws.example.test\",\"pingInterval\":18000}]}}";
    let v = market_collector::json::parse_json(raw).unwrap();
    let url = kucoin_endpoint_from_response(&v).unwrap();
    assert_eq!(url, "wss://ws.example.test?token=tok123");
    assert_eq!(kucoin_ping_every_ms(&url), 10000);
    assert_eq!(kucoin_ping_every_ms("wss://x|ping=30000"), 15000);
    assert_eq!(kucoin_ping_text(7), "{\"type\":\"ping\",\"id\":\"7\"}");
}

#[test]
fn kucoin_endpoint_resolved_once_and_cached() {
    let cfg = venue_cfg("kucoin", vec!["BTC/USDT"], vec![], 5);
    let plan = plan_streams(ChannelType::Trades, &cfg);
    let mut runner = ConnectionRunner::new(
        plan.into_iter().next().unwrap(),
        cfg,
        Adapter::Kucoin(KucoinAdapter),
    );
    let mut metrics = RuntimeMetrics::new();
    // The venue has no static endpoint; the resolved one is cached.
    assert_eq!(runner.adapter.ws_url(), "");
    assert!(runner.endpoint.is_none());
    runner.set_endpoint("wss://ws.example.test?token=tok123".to_string());
    // A failed session redials the cached endpoint: no second resolution.
    runner.step(LifecycleEvent::Connected, NOW, &mut metrics);
    runner.step(LifecycleEvent::SubscribeSent, NOW, &mut metrics);
    runner.step(LifecycleEvent::LinkLost, NOW, &mut metrics);
    match runner.step(LifecycleEvent::DelayElapsed, NOW, &mut metrics) {
        ConnAction::Dial(url) => assert_eq!(url, "wss://ws.example.test?token=tok123"),
        _ => panic!("expected a dial"),
    }
    assert_eq!(runner.endpoint.as_deref(), Some("wss://ws.example.test?token=tok123"));
}

#[test]
fn kucoin_ping_frame_gets_a_pong() {
    let cfg = venue_cfg("kucoin", vec!["BTC/USDT"], vec![], 5);
    let plan = plan_streams(ChannelType::Trades, &cfg);
    let mut runner = ConnectionRunner::new(
        plan.into_iter().next().unwrap(),
        cfg,
        Adapter::Kucoin(KucoinAdapter),
    );
    match runner.handle_text_frame("{\"type\":\"ping\",\"id\":\"abc\"}", NOW) {
        FrameReply::Reply(p) => assert_eq!(p, "{\"type\":\"pong\",\"id\":\"abc\"}"),
        _ => panic!("expected a pong"),
    }
    // Ordinary frames still reach the adapter.
    match runner.handle_text_frame("{\"type\":\"welcome\"}", NOW) {
        FrameReply::Outcome(o) => assert!(matches!(o, ParseOutcome::Control)),
        _ => panic!("expected an outcome"),
    }
}

#[test]
fn binary_frame_is_inflated_before_parsing() {
    let raw = "{\"channel\":\"market_e_btcusdt_trade_ticker\",\"tick\":{\"data\":[{\"ts\":1699999993333,\"price\":\"43666.6\",\"amount\":\"0.004\",\"side\":\"buy\"}]}}";
    let mut enc = flate2::write::GzEncoder::new(Vec::new(), flate2::Compression::default());
    enc.write_all(raw.as_bytes()).unwrap();
    let bytes = enc.finish().unwrap();

    let cfg = venue_cfg("bitrue", vec!["BTC/USDT"], vec![], 5);
    let plan = plan_streams(ChannelType::Trades, &cfg);
    let mut runner = ConnectionRunner::new(
        plan.into_iter().next().unwrap(),
        cfg,
        Adapter::Bitrue(market_collector::exchanges::bitrue::BitrueAdapter),
    );
    let outcome = runner.handle_binary_frame(&bytes, NOW).expect("valid gzip");
    match outcome {
        ParseOutcome::Market(MarketMessage::Trade(t)) => {
            assert_eq!(t.symbol, "BTC/USDT");
            assert_eq!(t.price, "43666.6");
        },
        _ => panic!("expected a trade"),
    }
    // Bytes that do not inflate are ignored.
    assert!(runner.handle_binary_frame(&vec![1u8, 2, 3], NOW).is_none());
}
