//! Process-wide runtime counters.
//!
//! One aggregate of independently updated counters: components bump them
//! as events happen and a periodic reporter outside the library reads
//! them. Counters saturate instead of wrapping.

use vstd::prelude::*;

verus! {

/// The collector's runtime counters.
pub struct RuntimeMetrics {
    /// Venues started.
    pub exchanges_active: u64,
    /// Streams currently connected.
    pub ws_connections_active: u64,
    /// Trade symbols being collected.
    pub trade_pairs_active: u64,
    /// Order-book symbols being collected.
    pub orderbook_pairs_active: u64,
    /// Market messages parsed out of frames.
    pub trades_received: u64,
    /// Market messages handed to the outbound pool.
    pub trades_forwarded: u64,
    /// Frames that failed to parse.
    pub parse_errors: u64,
    /// Outbound deliveries that failed.
    pub send_errors: u64,
    /// Stream reconnects.
    pub ws_reconnects: u64,
    /// Messages dropped under backpressure or retry exhaustion.
    pub dropped_messages: u64,
    /// Subscription requests sent.
    pub subscriptions_sent: u64,
    /// Subscription requests that failed.
    pub subscription_errors: u64,
}

/// A counter bumped by one, saturating at the top.
pub open spec fn spec_bump(c: u64) -> u64 {
    if c < u64::MAX {
        (c + 1) as u64
    } else {
        c
    }
}

/// Bumps one counter, saturating at the top.
pub fn bump(c: &mut u64)
    ensures
        *final(c) == spec_bump(*old(c)),
{
    if *c < u64::MAX {
        *c = *c + 1;
    }
}

/// A gauge lowered by one, stopping at zero.
pub open spec fn spec_lower(c: u64) -> u64 {
    if c > 0 {
        (c - 1) as u64
    } else {
        0
    }
}

/// Lowers one gauge, stopping at zero.
pub fn lower(c: &mut u64)
    ensures
        *final(c) == spec_lower(*old(c)),
{
    if *c > 0 {
        *c = *c - 1;
    }
}

/// Whether two counter aggregates agree on everything but the dropped
/// count.
pub open spec fn metrics_eq_except_dropped(a: RuntimeMetrics, b: RuntimeMetrics) -> bool {
    &&& a.exchanges_active == b.exchanges_active
    &&& a.ws_connections_active == b.ws_connections_active
    &&& a.trade_pairs_active == b.trade_pairs_active
    &&& a.orderbook_pairs_active == b.orderbook_pairs_active
    &&& a.trades_received == b.trades_received
    &&& a.trades_forwarded == b.trades_forwarded
    &&& a.parse_errors == b.parse_errors
    &&& a.send_errors == b.send_errors
    &&& a.ws_reconnects == b.ws_reconnects
    &&& a.subscriptions_sent == b.subscriptions_sent
    &&& a.subscription_errors == b.subscription_errors
}

impl RuntimeMetrics {
    /// All counters at zero.
    pub fn new() -> (r: RuntimeMetrics)
        ensures
            r.exchanges_active == 0,
            r.ws_connections_active == 0,
            r.trade_pairs_active == 0,
            r.orderbook_pairs_active == 0,
            r.trades_received == 0,
            r.trades_forwarded == 0,
            r.parse_errors == 0,
            r.send_errors == 0,
            r.ws_reconnects == 0,
            r.dropped_messages == 0,
            r.subscriptions_sent == 0,
            r.subscription_errors == 0,
    {
        RuntimeMetrics {
            exchanges_active: 0,
            ws_connections_active: 0,
            trade_pairs_active: 0,
            orderbook_pairs_active: 0,
            trades_received: 0,
            trades_forwarded: 0,
            parse_errors: 0,
            send_errors: 0,
            ws_reconnects: 0,
            dropped_messages: 0,
            subscriptions_sent: 0,
            subscription_errors: 0,
        }
    }
}

} // verus!
