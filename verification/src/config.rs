//! Typed configuration consumed by the engine.
//!
//! Loading and validating the configuration from disk happens outside the
//! library; the engine only reads these values.

use vstd::prelude::*;

verus! {

/// Connection settings for the downstream aggregator.
pub struct MasterConfig {
    /// Socket URL of the aggregator.
    pub url: String,
    /// Number of parallel links to the aggregator.
    pub connections: usize,
    /// Credential sent during the login handshake.
    pub key: String,
    /// Echo mode: nothing is sent over a network, messages are only logged.
    pub demo: Option<bool>,
}

/// Symbol lists for one venue.
pub struct ExchangePairs {
    /// Pairs subscribed on the trades channel, in `BASE/QUOTE` form.
    pub trades: Vec<String>,
    /// Pairs subscribed on the order-book channel, in `BASE/QUOTE` form.
    pub orderbooks: Vec<String>,
}

/// How many symbols share one stream.
pub struct ExchangeChunking {
    /// Trade symbols per connection.
    pub trades_per_connection: usize,
    /// Order-book symbols per connection; the planner keeps book streams
    /// strictly one symbol each, so this knob is not consulted.
    pub orderbooks_per_connection: usize,
}

/// Venue-specific order-book parameters.
pub struct OrderbookConfig {
    /// Requested book depth.
    pub depth: usize,
    /// Requested update interval in milliseconds.
    pub update_interval_ms: u64,
}

/// Optional debug flags.
pub struct DebugConfig {
    /// Raw frame logging.
    pub raw: Option<bool>,
    /// Structured debug logging.
    pub log: Option<bool>,
}

/// Configuration of a single venue.
pub struct ExchangeConfig {
    /// Venue identifier, e.g. `gateio`.
    pub name: String,
    /// Whether this venue runs at all.
    pub enabled: bool,
    /// Symbol lists.
    pub pairs: ExchangePairs,
    /// Stream grouping.
    pub chunking: ExchangeChunking,
    /// Order-book parameters, when the venue needs them.
    pub orderbook: Option<OrderbookConfig>,
}

/// Root configuration.
pub struct Config {
    /// Aggregator settings.
    pub master: MasterConfig,
    /// One entry per venue.
    pub exchanges: Vec<ExchangeConfig>,
    /// Optional debug flags.
    pub debug: Option<DebugConfig>,
}

} // verus!
