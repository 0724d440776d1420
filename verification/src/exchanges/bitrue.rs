//! Bitrue adapter: one trade-ticker channel per symbol; the venue sends
//! gzip-compressed binary frames that the runner inflates before parsing.

use vstd::prelude::*;
use vstd::string::*;
use crate::ChannelType;
use crate::config::ExchangeConfig;
use crate::json::{json_of, parse_json, spec_get_i64, spec_get_str, JsonValue};
use crate::schema::{MarketMessage, MsgModel, OutcomeModel, ParseOutcome, TradeData, TradeModel};
use crate::strings::{
    ends_with_str, spec_ends_with, spec_split_nth, spec_to_lower, split_nth, str_eq,
    to_ascii_lower,
};
use crate::util::{
    spec_symbol_from_exchange, spec_symbol_to_exchange, symbol_from_exchange, symbol_to_exchange,
};
use super::{
    spec_arr, spec_field, spec_str_or, spec_ts_or, unknown_string, zero_string,
};

verus! {

/// Bitrue: pure protocol translation, no shared state.
pub struct BitrueAdapter;

/// The trade subscription payload: one symbol per connection.
pub open spec fn spec_bitrue_sub(channel: ChannelType, pairs: Seq<Seq<char>>) -> Seq<char> {
    if pairs.len() == 0 {
        "{}"@
    } else {
        match channel {
            ChannelType::Trades => {
                let sym = spec_to_lower(spec_symbol_to_exchange("bitrue"@, pairs[0]));
                "{\"event\":\"sub\",\"params\":{\"channel\":\"market_e_"@ + sym
                    + "_trade_ticker\"}}"@
            },
            ChannelType::OrderBooks => "{}"@,
        }
    }
}

/// Outcome of one decoded frame.
pub open spec fn spec_bitrue_frame(v: JsonValue, ex: Seq<char>, now: int) -> OutcomeModel {
    match spec_get_str(v, "channel"@) {
        None => OutcomeModel::Control,
        Some(ch) => if !spec_ends_with(ch, "trade_ticker"@) {
            OutcomeModel::Control
        } else {
            match spec_split_nth(ch, "_"@, 2) {
                None => OutcomeModel::Error,
                Some(sym) => match spec_arr(spec_field(spec_field(v, "tick"@), "data"@)) {
                    Some(ts) => if ts.len() == 0 {
                        OutcomeModel::Control
                    } else {
                        let t = ts[0];
                        OutcomeModel::Market(
                            MsgModel::Trade(
                                TradeModel {
                                    exchange: ex,
                                    symbol: spec_symbol_from_exchange(ex, sym),
                                    timestamp: spec_ts_or(spec_get_i64(t, "ts"@), now),
                                    price: spec_str_or(spec_get_str(t, "price"@), "0"@),
                                    amount: spec_str_or(spec_get_str(t, "amount"@), "0"@),
                                    side: spec_to_lower(
                                        spec_str_or(spec_get_str(t, "side"@), "unknown"@),
                                    ),
                                },
                            ),
                        )
                    },
                    None => OutcomeModel::Control,
                },
            }
        },
    }
}

/// Outcome of one raw frame.
pub open spec fn spec_bitrue_outcome(j: Option<JsonValue>, ex: Seq<char>, now: int) -> OutcomeModel {
    match j {
        None => OutcomeModel::Error,
        Some(v) => spec_bitrue_frame(v, ex, now),
    }
}

/// A venue trade symbol that normalizes cleanly: a nonempty base before
/// the lower-case tether quote suffix, with no slash anywhere.
pub open spec fn bitrue_symbol_ok(sym: Seq<char>) -> bool {
    &&& spec_ends_with(sym, "usdt"@)
    &&& sym.len() > 4
    &&& (forall|i: int| 0 <= i < sym.len() ==> sym[i] != '/')
}

proof fn lemma_bitrue_symbol_normalized(sym: Seq<char>)
    requires
        bitrue_symbol_ok(sym),
    ensures
        crate::schema::is_normalized_symbol(crate::util::spec_lower_concat_from(sym)),
{
    crate::util::lemma_lower_concat_normalized(sym);
}

/// A trade-ticker frame the venue recognizes as valid: the ticker
/// channel with a cleanly normalizing symbol segment, a first trade with
/// decimal price and amount, a known side word, and a nonnegative
/// timestamp.
pub open spec fn bitrue_recognizes_trade(v: JsonValue, now: int) -> bool {
    &&& (match spec_get_str(v, "channel"@) {
        Some(ch) => spec_ends_with(ch, "trade_ticker"@) && (match spec_split_nth(ch, "_"@, 2) {
            Some(sym) => bitrue_symbol_ok(sym),
            None => false,
        }),
        None => false,
    })
    &&& (match spec_arr(spec_field(spec_field(v, "tick"@), "data"@)) {
        Some(ds) => ds.len() > 0 && ({
            let t = ds[0];
            &&& (match spec_get_str(t, "price"@) {
                Some(p) => crate::schema::is_decimal_text(p),
                None => false,
            })
            &&& (match spec_get_str(t, "amount"@) {
                Some(a) => crate::schema::is_decimal_text(a),
                None => false,
            })
            &&& (spec_to_lower(spec_str_or(spec_get_str(t, "side"@), "unknown"@)) == "buy"@
                || spec_to_lower(spec_str_or(spec_get_str(t, "side"@), "unknown"@)) == "sell"@)
            &&& spec_ts_or(spec_get_i64(t, "ts"@), now) >= 0
        }),
        None => false,
    })
}

/// For any trade-ticker frame the venue recognizes as valid, parsing
/// returns exactly one canonical message whose symbol is in `BASE/QUOTE`
/// form, whose price and amount are decimal strings, and whose timestamp
/// is a millisecond epoch value.
pub proof fn lemma_bitrue_recognized_trade_wellformed(v: JsonValue, now: int)
    requires
        bitrue_recognizes_trade(v, now),
    ensures
        spec_bitrue_frame(v, "bitrue"@, now) matches OutcomeModel::Market(m)
            && crate::schema::wellformed_message(m),
{
    broadcast use vstd::string::group_string_axioms;

    reveal_strlit("bitrue");
    reveal_strlit("gateio");
    reveal_strlit("mexc");
    reveal_strlit("binance");
    reveal_strlit("binanceus");
    reveal_strlit("okx");
    reveal_strlit("kucoin");
    reveal_strlit("coinbase");
    reveal_strlit("bybit");
    assert("bitrue"@ != "gateio"@) by {
        assert("bitrue"@[0] == 'b');
        assert("gateio"@[0] == 'g');
    }
    assert("bitrue"@ != "kucoin"@) by {
        assert("bitrue"@[0] == 'b');
        assert("kucoin"@[0] == 'k');
    }
    assert("bitrue"@ != "bybit"@) by {
        assert("bitrue"@.len() == 6);
        assert("bybit"@.len() == 5);
    }
    assert("mexc"@.len() == 4);
    assert("binance"@.len() == 7);
    assert("binanceus"@.len() == 9);
    assert("okx"@.len() == 3);
    assert("coinbase"@.len() == 8);
    let ch = match spec_get_str(v, "channel"@) {
        Some(ch) => ch,
        None => Seq::empty(),
    };
    let sym = match spec_split_nth(ch, "_"@, 2) {
        Some(sym) => sym,
        None => Seq::empty(),
    };
    lemma_bitrue_symbol_normalized(sym);
    assert(crate::util::spec_symbol_from_exchange("bitrue"@, sym)
        == crate::util::spec_lower_concat_from(sym));
}

impl BitrueAdapter {
    /// The canonical venue name.
    pub fn name(&self) -> (r: &'static str)
        ensures
            r@ == "bitrue"@,
    {
        "bitrue"
    }

    /// The venue endpoint.
    pub fn ws_url(&self) -> (r: &'static str)
        ensures
            r@ == "wss://fmarket-ws.bitrue.com/kline-api/ws"@,
    {
        "wss://fmarket-ws.bitrue.com/kline-api/ws"
    }

    /// Builds the subscription payload for one channel.
    pub fn build_subscribe_message(
        &self,
        channel: ChannelType,
        pairs: &Vec<String>,
        config: &ExchangeConfig,
        now: i64,
    ) -> (r: String)
        ensures
            r@ == spec_bitrue_sub(channel, pairs@.map_values(|s: String| s@)),
    {
        let mut out = String::new();
        if pairs.len() == 0 {
            out.append("{}");
            proof {
                assert(out@ =~= "{}"@);
            }
            return out;
        }
        match channel {
            ChannelType::Trades => {
                let conv = symbol_to_exchange("bitrue", pairs[0].as_str());
                let sym = to_ascii_lower(conv.as_str());
                out.append("{\"event\":\"sub\",\"params\":{\"channel\":\"market_e_");
                out.append(sym.as_str());
                out.append("_trade_ticker\"}}");
                proof {
                    assert(out@ =~= spec_bitrue_sub(
                        ChannelType::Trades,
                        pairs@.map_values(|s: String| s@),
                    ));
                }
            },
            ChannelType::OrderBooks => {
                out.append("{}");
                proof {
                    assert(out@ =~= "{}"@);
                }
            },
        }
        out
    }

    /// Parses one raw frame into the canonical outcome.
    pub fn parse_message(&self, raw: &str, exchange: &str, now: i64) -> (r: ParseOutcome)
        ensures
            r@ == spec_bitrue_outcome(json_of(raw@), exchange@, now as int),
    {
        let v = match parse_json(raw) {
            Some(v) => v,
            None => {
                return ParseOutcome::Error;
            },
        };
        let ch = match v.get("channel") {
            Some(x) => match x.as_str() {
                Some(s) => s,
                None => {
                    return ParseOutcome::Control;
                },
            },
            None => {
                return ParseOutcome::Control;
            },
        };
        if !ends_with_str(ch.as_str(), "trade_ticker") {
            return ParseOutcome::Control;
        }
        proof {
            reveal_strlit("_");
        }
        let sym = match split_nth(ch.as_str(), "_", 2) {
            Some(s) => s,
            None => {
                return ParseOutcome::Error;
            },
        };
        let tick = match v.get("tick") {
            Some(t) => t,
            None => {
                return ParseOutcome::Control;
            },
        };
        let data = match tick.get("data") {
            Some(x) => match x.as_array() {
                Some(xs) => xs,
                None => {
                    return ParseOutcome::Control;
                },
            },
            None => {
                return ParseOutcome::Control;
            },
        };
        if data.len() == 0 {
            return ParseOutcome::Control;
        }
        let t = &data[0];
        let ts: i64 = match t.get("ts") {
            Some(x) => match x.as_i64() {
                Some(ms) => ms,
                None => now,
            },
            None => now,
        };
        let price: String = match t.get("price") {
            Some(x) => match x.as_str() {
                Some(s) => s.clone(),
                None => zero_string(),
            },
            None => zero_string(),
        };
        let amount: String = match t.get("amount") {
            Some(x) => match x.as_str() {
                Some(s) => s.clone(),
                None => zero_string(),
            },
            None => zero_string(),
        };
        let side_raw: String = match t.get("side") {
            Some(x) => match x.as_str() {
                Some(s) => s.clone(),
                None => unknown_string(),
            },
            None => unknown_string(),
        };
        let side = to_ascii_lower(side_raw.as_str());
        ParseOutcome::Market(
            MarketMessage::Trade(
                TradeData {
                    exchange: exchange.to_owned(),
                    symbol: symbol_from_exchange(exchange, sym.as_str()),
                    timestamp: ts,
                    price,
                    amount,
                    side,
                },
            ),
        )
    }
}

} // verus!
