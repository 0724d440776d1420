//! Bybit spot adapter: public trade topics and depth-50 book topics.

use vstd::prelude::*;
use vstd::string::*;
use crate::ChannelType;
use crate::config::ExchangeConfig;
use crate::json::{json_of, parse_json, spec_get, spec_get_i64, spec_get_str, JsonValue};
use crate::schema::{
    BookData, BookModel, MarketMessage, MsgModel, OutcomeModel, ParseOutcome, TradeData,
    TradeModel,
};
use crate::strings::{
    spec_starts_with, spec_to_lower, starts_with_str, str_eq, to_ascii_lower,
};
use crate::util::{
    spec_symbol_from_exchange, spec_symbol_to_exchange, symbol_from_exchange, symbol_to_exchange,
};
use crate::wire::{append_str_array, spec_str_array};
use super::{
    collect_levels, spec_arr_or_empty, spec_field, spec_idx, spec_pair_levels, spec_str_or,
    spec_ts_or, unknown_string, zero_string,
};

verus! {

/// Bybit: pure protocol translation, no shared state.
pub struct BybitAdapter;

/// The topic names subscribed on one channel.
pub open spec fn spec_bybit_topics(channel: ChannelType, pairs: Seq<Seq<char>>) -> Seq<Seq<char>> {
    pairs.map_values(
        |s: Seq<char>|
            match channel {
                ChannelType::Trades => "publicTrade."@ + spec_symbol_to_exchange("bybit"@, s),
                ChannelType::OrderBooks => "orderbook.50."@ + spec_symbol_to_exchange("bybit"@, s),
            },
    )
}

/// The subscription payload for one channel.
pub open spec fn spec_bybit_sub(channel: ChannelType, pairs: Seq<Seq<char>>) -> Seq<char> {
    "{\"op\":\"subscribe\",\"args\":"@ + spec_str_array(spec_bybit_topics(channel, pairs)) + "}"@
}

/// Outcome of one decoded frame.
pub open spec fn spec_bybit_frame(v: JsonValue, ex: Seq<char>, now: int) -> OutcomeModel {
    if spec_get(v, "op"@) is Some {
        OutcomeModel::Control
    } else {
        match spec_get_str(v, "topic"@) {
            None => OutcomeModel::Control,
            Some(topic) => match spec_get(v, "data"@) {
                None => OutcomeModel::Control,
                Some(data) => if spec_starts_with(topic, "publicTrade."@) {
                    match data {
                        JsonValue::Arr(xs) => if xs@.len() == 0 {
                            OutcomeModel::Control
                        } else {
                            let t = xs@[0];
                            OutcomeModel::Market(
                                MsgModel::Trade(
                                    TradeModel {
                                        exchange: ex,
                                        symbol: spec_symbol_from_exchange(
                                            ex,
                                            spec_str_or(spec_get_str(t, "s"@), Seq::empty()),
                                        ),
                                        timestamp: spec_ts_or(spec_get_i64(t, "T"@), now),
                                        price: spec_str_or(spec_get_str(t, "p"@), "0"@),
                                        amount: spec_str_or(spec_get_str(t, "v"@), "0"@),
                                        side: spec_to_lower(
                                            spec_str_or(spec_get_str(t, "S"@), "unknown"@),
                                        ),
                                    },
                                ),
                            )
                        },
                        _ => OutcomeModel::Control,
                    }
                } else if spec_starts_with(topic, "orderbook."@) {
                    match spec_get_str(data, "s"@) {
                        None => OutcomeModel::Error,
                        Some(sym) => OutcomeModel::Market(
                            MsgModel::Book(
                                BookModel {
                                    exchange: ex,
                                    symbol: spec_symbol_from_exchange(ex, sym),
                                    timestamp: spec_ts_or(spec_get_i64(data, "ts"@), now),
                                    asks: spec_pair_levels(
                                        spec_arr_or_empty(spec_field(data, "a"@)),
                                    ),
                                    bids: spec_pair_levels(
                                        spec_arr_or_empty(spec_field(data, "b"@)),
                                    ),
                                },
                            ),
                        ),
                    }
                } else {
                    OutcomeModel::Control
                },
            },
        }
    }
}

/// Outcome of one raw frame.
pub open spec fn spec_bybit_outcome(j: Option<JsonValue>, ex: Seq<char>, now: int) -> OutcomeModel {
    match j {
        None => OutcomeModel::Error,
        Some(v) => spec_bybit_frame(v, ex, now),
    }
}

/// A trade frame the venue recognizes as valid: a public-trade topic
/// whose first element carries a cleanly normalizing symbol, decimal
/// price and volume, a known side word, and a nonnegative timestamp.
pub open spec fn bybit_recognizes_trade(v: JsonValue, now: int) -> bool {
    &&& spec_get(v, "op"@) is None
    &&& (match spec_get_str(v, "topic"@) {
        Some(topic) => spec_starts_with(topic, "publicTrade."@),
        None => false,
    })
    &&& (match spec_get(v, "data"@) {
        Some(data) => match data {
            JsonValue::Arr(xs) => xs@.len() > 0 && ({
                let t = xs@[0];
                &&& (match spec_get_str(t, "s"@) {
                    Some(s) => super::binance_like::binance_symbol_ok(s),
                    None => false,
                })
                &&& (match spec_get_str(t, "p"@) {
                    Some(p) => crate::schema::is_decimal_text(p),
                    None => false,
                })
                &&& (match spec_get_str(t, "v"@) {
                    Some(a) => crate::schema::is_decimal_text(a),
                    None => false,
                })
                &&& (spec_to_lower(spec_str_or(spec_get_str(t, "S"@), "unknown"@)) == "buy"@
                    || spec_to_lower(spec_str_or(spec_get_str(t, "S"@), "unknown"@)) == "sell"@)
                &&& spec_ts_or(spec_get_i64(t, "T"@), now) >= 0
            }),
            _ => false,
        },
        None => false,
    })
}

/// For any trade frame the venue recognizes as valid, parsing returns
/// exactly one canonical message whose symbol is in `BASE/QUOTE` form,
/// whose price and amount are decimal strings, and whose timestamp is a
/// millisecond epoch value.
pub proof fn lemma_bybit_recognized_trade_wellformed(v: JsonValue, now: int)
    requires
        bybit_recognizes_trade(v, now),
    ensures
        spec_bybit_frame(v, "bybit"@, now) matches OutcomeModel::Market(m)
            && crate::schema::wellformed_message(m),
{
    broadcast use vstd::string::group_string_axioms;

    reveal_strlit("bybit");
    reveal_strlit("gateio");
    reveal_strlit("mexc");
    reveal_strlit("binance");
    reveal_strlit("binanceus");
    reveal_strlit("USDT");
    reveal_strlit("USD");
    reveal_strlit("okx");
    reveal_strlit("kucoin");
    reveal_strlit("coinbase");
    assert("bybit"@.len() == 5);
    assert("gateio"@.len() == 6);
    assert("mexc"@.len() == 4);
    assert("binance"@.len() == 7);
    assert("binanceus"@.len() == 9);
    assert("okx"@.len() == 3);
    assert("kucoin"@.len() == 6);
    assert("coinbase"@.len() == 8);
    let t = match spec_get(v, "data"@) {
        Some(JsonValue::Arr(xs)) => xs@[0],
        _ => JsonValue::Null,
    };
    let sym = match spec_get_str(t, "s"@) {
        Some(s) => s,
        None => Seq::empty(),
    };
    super::binance_like::lemma_binance_symbol_normalized(sym);
    assert(spec_symbol_from_exchange("bybit"@, sym) == crate::util::spec_quote_join(
        sym,
        "USDT"@,
    ));
    assert(crate::util::spec_concat_from(sym) == crate::util::spec_quote_join(sym, "USDT"@));
}

impl BybitAdapter {
    /// The canonical venue name.
    pub fn name(&self) -> (r: &'static str)
        ensures
            r@ == "bybit"@,
    {
        "bybit"
    }

    /// The venue endpoint.
    pub fn ws_url(&self) -> (r: &'static str)
        ensures
            r@ == "wss://stream.bybit.com/v5/public/spot"@,
    {
        "wss://stream.bybit.com/v5/public/spot"
    }

    /// Builds the subscription payload for one channel.
    pub fn build_subscribe_message(
        &self,
        channel: ChannelType,
        pairs: &Vec<String>,
        config: &ExchangeConfig,
        now: i64,
    ) -> (r: String)
        ensures
            r@ == spec_bybit_sub(channel, pairs@.map_values(|s: String| s@)),
    {
        let ghost full = pairs@.map_values(|s: String| s@);
        let n = pairs.len();
        let mut topics: Vec<String> = Vec::new();
        let mut i: usize = 0;
        while i < n
            invariant
                n == pairs@.len(),
                i <= n,
                full == pairs@.map_values(|s: String| s@),
                topics@.map_values(|s: String| s@) == spec_bybit_topics(
                    channel,
                    full.subrange(0, i as int),
                ),
            decreases n - i,
        {
            let ghost pre = topics@.map_values(|s: String| s@);
            let sym = symbol_to_exchange("bybit", pairs[i].as_str());
            let mut t = String::new();
            match channel {
                ChannelType::Trades => {
                    t.append("publicTrade.");
                },
                ChannelType::OrderBooks => {
                    t.append("orderbook.50.");
                },
            }
            t.append(sym.as_str());
            topics.push(t);
            proof {
                assert(topics@.map_values(|s: String| s@) =~= pre.push(topics@.last()@));
                assert(spec_bybit_topics(channel, full.subrange(0, i + 1)) =~= spec_bybit_topics(
                    channel,
                    full.subrange(0, i as int),
                ).push(
                    match channel {
                        ChannelType::Trades => "publicTrade."@ + spec_symbol_to_exchange(
                            "bybit"@,
                            full[i as int],
                        ),
                        ChannelType::OrderBooks => "orderbook.50."@ + spec_symbol_to_exchange(
                            "bybit"@,
                            full[i as int],
                        ),
                    },
                ));
                assert(topics@.map_values(|s: String| s@) =~= spec_bybit_topics(
                    channel,
                    full.subrange(0, i + 1),
                ));
            }
            i += 1;
        }
        proof {
            assert(full.subrange(0, n as int) =~= full);
        }
        let mut out = String::new();
        out.append("{\"op\":\"subscribe\",\"args\":");
        append_str_array(&mut out, &topics);
        out.append("}");
        proof {
            assert(out@ =~= spec_bybit_sub(channel, full));
        }
        out
    }

    /// Parses one raw frame into the canonical outcome.
    pub fn parse_message(&self, raw: &str, exchange: &str, now: i64) -> (r: ParseOutcome)
        ensures
            r@ == spec_bybit_outcome(json_of(raw@), exchange@, now as int),
    {
        let v = match parse_json(raw) {
            Some(v) => v,
            None => {
                return ParseOutcome::Error;
            },
        };
        if let Some(_) = v.get("op") {
            return ParseOutcome::Control;
        }
        let topic = match v.get("topic") {
            Some(x) => match x.as_str() {
                Some(s) => s,
                None => {
                    return ParseOutcome::Control;
                },
            },
            None => {
                return ParseOutcome::Control;
            },
        };
        let data = match v.get("data") {
            Some(d) => d,
            None => {
                return ParseOutcome::Control;
            },
        };
        if starts_with_str(topic.as_str(), "publicTrade.") {
            let xs = match data.as_array() {
                Some(xs) => xs,
                None => {
                    return ParseOutcome::Control;
                },
            };
            if xs.len() == 0 {
                return ParseOutcome::Control;
            }
            let t = &xs[0];
            let sym_raw: String = match t.get("s") {
                Some(x) => match x.as_str() {
                    Some(s) => s.clone(),
                    None => String::new(),
                },
                None => String::new(),
            };
            let ts: i64 = match t.get("T") {
                Some(x) => match x.as_i64() {
                    Some(ms) => ms,
                    None => now,
                },
                None => now,
            };
            let price: String = match t.get("p") {
                Some(x) => match x.as_str() {
                    Some(s) => s.clone(),
                    None => zero_string(),
                },
                None => zero_string(),
            };
            let amount: String = match t.get("v") {
                Some(x) => match x.as_str() {
                    Some(s) => s.clone(),
                    None => zero_string(),
                },
                None => zero_string(),
            };
            let side_raw: String = match t.get("S") {
                Some(x) => match x.as_str() {
                    Some(s) => s.clone(),
                    None => unknown_string(),
                },
                None => unknown_string(),
            };
            let side = to_ascii_lower(side_raw.as_str());
            ParseOutcome::Market(
                MarketMessage::Trade(
                    TradeData {
                        exchange: exchange.to_owned(),
                        symbol: symbol_from_exchange(exchange, sym_raw.as_str()),
                        timestamp: ts,
                        price,
                        amount,
                        side,
                    },
                ),
            )
        } else if starts_with_str(topic.as_str(), "orderbook.") {
            let sym = match data.get("s") {
                Some(x) => match x.as_str() {
                    Some(s) => s,
                    None => {
                        return ParseOutcome::Error;
                    },
                },
                None => {
                    return ParseOutcome::Error;
                },
            };
            let ts: i64 = match data.get("ts") {
                Some(x) => match x.as_i64() {
                    Some(ms) => ms,
                    None => now,
                },
                None => now,
            };
            let empty_a: Vec<JsonValue> = Vec::new();
            let asks_arr: &Vec<JsonValue> = match data.get("a") {
                Some(x) => match x.as_array() {
                    Some(xs) => xs,
                    None => &empty_a,
                },
                None => &empty_a,
            };
            let asks = collect_levels(asks_arr);
            let empty_b: Vec<JsonValue> = Vec::new();
            let bids_arr: &Vec<JsonValue> = match data.get("b") {
                Some(x) => match x.as_array() {
                    Some(xs) => xs,
                    None => &empty_b,
                },
                None => &empty_b,
            };
            let bids = collect_levels(bids_arr);
            proof {
                assert(spec_pair_levels(Seq::<JsonValue>::empty())
                    =~= Seq::<crate::schema::LevelModel>::empty());
            }
            ParseOutcome::Market(
                MarketMessage::Book(
                    BookData {
                        exchange: exchange.to_owned(),
                        symbol: symbol_from_exchange(exchange, sym.as_str()),
                        timestamp: ts,
                        asks,
                        bids,
                    },
                ),
            )
        } else {
            ParseOutcome::Control
        }
    }
}

} // verus!
