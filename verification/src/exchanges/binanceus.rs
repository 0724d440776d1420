//! Binance US spot adapter: the Binance stream dialect from the US
//! endpoint.

use vstd::prelude::*;
use crate::ChannelType;
use crate::config::ExchangeConfig;
use crate::json::json_of;
use crate::schema::ParseOutcome;
use super::binance_like::{
    binance_parse, binance_subscribe, spec_binance_outcome, spec_binance_sub,
};

verus! {

/// Binance US: pure protocol translation, no shared state.
pub struct BinanceUsAdapter;

impl BinanceUsAdapter {
    /// The canonical venue name.
    pub fn name(&self) -> (r: &'static str)
        ensures
            r@ == "binanceus"@,
    {
        "binanceus"
    }

    /// The venue endpoint.
    pub fn ws_url(&self) -> (r: &'static str)
        ensures
            r@ == "wss://stream.binance.us:9443/ws"@,
    {
        "wss://stream.binance.us:9443/ws"
    }

    /// Builds the subscription payload for one channel.
    pub fn build_subscribe_message(
        &self,
        channel: ChannelType,
        pairs: &Vec<String>,
        config: &ExchangeConfig,
        now: i64,
    ) -> (r: String)
        ensures
            r@ == spec_binance_sub(
                "binanceus"@,
                channel,
                pairs@.map_values(|s: String| s@),
                now as int,
            ),
    {
        binance_subscribe("binanceus", channel, pairs, now)
    }

    /// Parses one raw frame into the canonical outcome.
    pub fn parse_message(&self, raw: &str, exchange: &str, now: i64) -> (r: ParseOutcome)
        ensures
            r@ == spec_binance_outcome(json_of(raw@), exchange@, now as int),
    {
        binance_parse(raw, exchange, now)
    }
}

} // verus!
