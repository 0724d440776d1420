//! KuCoin spot adapter: trade matches. The endpoint is resolved at
//! runtime from the venue's bullet request, so [`KucoinAdapter::ws_url`]
//! is empty and the runner injects the fetched address.

use vstd::prelude::*;
use vstd::string::*;
use crate::ChannelType;
use crate::config::ExchangeConfig;
use crate::json::{json_of, parse_json, spec_get, spec_get_str, JsonValue};
use crate::schema::{MarketMessage, MsgModel, OutcomeModel, ParseOutcome, TradeData, TradeModel};
use crate::strings::{
    i64_to_string, push_char, spec_dec_i64, spec_split_nth, spec_starts_with, spec_to_upper,
    split_nth, starts_with_str, str_eq, to_ascii_upper,
};
use crate::util::{
    spec_symbol_from_exchange, spec_symbol_to_exchange, symbol_from_exchange, symbol_to_exchange,
};
use super::{
    scaled_str_ts, spec_field, spec_scaled_str_ts, spec_str_or, unknown_string, zero_string,
};

verus! {

/// KuCoin: pure protocol translation, no shared state.
pub struct KucoinAdapter;

/// The trades subscription payload: one symbol per request.
pub open spec fn spec_kucoin_sub(channel: ChannelType, pairs: Seq<Seq<char>>, now: int) -> Seq<
    char,
> {
    match channel {
        ChannelType::Trades => {
            let sym = spec_to_upper(spec_symbol_to_exchange("kucoin"@, pairs[0]));
            "{\"id\":\""@ + spec_dec_i64(now)
                + "\",\"type\":\"subscribe\",\"topic\":\"/market/match:"@ + sym
                + "\",\"privateChannel\":false,\"response\":true}"@
        },
        ChannelType::OrderBooks => "{}"@,
    }
}

/// Outcome of one decoded frame.
pub open spec fn spec_kucoin_frame(v: JsonValue, ex: Seq<char>, now: int) -> OutcomeModel {
    match spec_get_str(v, "type"@) {
        None => OutcomeModel::Control,
        Some(t) => if t != "message"@ {
            OutcomeModel::Control
        } else {
            match spec_get_str(v, "topic"@) {
                None => OutcomeModel::Control,
                Some(topic) => if !spec_starts_with(topic, "/market/match:"@) {
                    OutcomeModel::Control
                } else {
                    match spec_split_nth(topic, ":"@, 1) {
                        None => OutcomeModel::Error,
                        Some(sym) => match spec_get(v, "data"@) {
                            None => OutcomeModel::Error,
                            Some(d) => OutcomeModel::Market(
                                MsgModel::Trade(
                                    TradeModel {
                                        exchange: ex,
                                        symbol: spec_symbol_from_exchange(ex, sym),
                                        timestamp: spec_scaled_str_ts(
                                            spec_get_str(d, "time"@),
                                            1000000,
                                            now,
                                        ),
                                        price: spec_str_or(spec_get_str(d, "price"@), "0"@),
                                        amount: spec_str_or(spec_get_str(d, "size"@), "0"@),
                                        side: spec_str_or(spec_get_str(d, "side"@), "unknown"@),
                                    },
                                ),
                            ),
                        },
                    }
                },
            }
        },
    }
}

/// Outcome of one raw frame.
pub open spec fn spec_kucoin_outcome(j: Option<JsonValue>, ex: Seq<char>, now: int) -> OutcomeModel {
    match j {
        None => OutcomeModel::Error,
        Some(v) => spec_kucoin_frame(v, ex, now),
    }
}

/// A match frame the venue recognizes as valid: the match topic with a
/// cleanly normalizing symbol, decimal price and size, a known side
/// word, and a nonnegative timestamp.
pub open spec fn kucoin_recognizes_trade(v: JsonValue, now: int) -> bool {
    &&& spec_get_str(v, "type"@) == Some("message"@)
    &&& (match spec_get_str(v, "topic"@) {
        Some(topic) => spec_starts_with(topic, "/market/match:"@) && (match spec_split_nth(
            topic,
            ":"@,
            1,
        ) {
            Some(sym) => crate::schema::single_separator_symbol(sym, '-'),
            None => false,
        }),
        None => false,
    })
    &&& (match spec_get(v, "data"@) {
        Some(d) => {
            &&& (match spec_get_str(d, "price"@) {
                Some(p) => crate::schema::is_decimal_text(p),
                None => false,
            })
            &&& (match spec_get_str(d, "size"@) {
                Some(a) => crate::schema::is_decimal_text(a),
                None => false,
            })
            &&& (spec_get_str(d, "side"@) == Some("buy"@) || spec_get_str(d, "side"@) == Some(
                "sell"@,
            ))
            &&& spec_scaled_str_ts(spec_get_str(d, "time"@), 1000000, now) >= 0
        },
        None => false,
    })
}

/// For any match frame the venue recognizes as valid, parsing returns
/// exactly one canonical message whose symbol is in `BASE/QUOTE` form,
/// whose price and amount are decimal strings, and whose timestamp is a
/// millisecond epoch value.
pub proof fn lemma_kucoin_recognized_trade_wellformed(v: JsonValue, now: int)
    requires
        kucoin_recognizes_trade(v, now),
    ensures
        spec_kucoin_frame(v, "kucoin"@, now) matches OutcomeModel::Market(m)
            && crate::schema::wellformed_message(m),
{
    broadcast use vstd::string::group_string_axioms;

    reveal_strlit("kucoin");
    reveal_strlit("gateio");
    reveal_strlit("mexc");
    reveal_strlit("binance");
    reveal_strlit("binanceus");
    reveal_strlit("okx");
    assert("kucoin"@ != "gateio"@) by {
        assert("kucoin"@[0] == 'k');
        assert("gateio"@[0] == 'g');
    }
    assert("kucoin"@.len() == 6);
    assert("mexc"@.len() == 4);
    assert("binance"@.len() == 7);
    assert("binanceus"@.len() == 9);
    let topic = match spec_get_str(v, "topic"@) {
        Some(topic) => topic,
        None => Seq::empty(),
    };
    let sym = match spec_split_nth(topic, ":"@, 1) {
        Some(sym) => sym,
        None => Seq::empty(),
    };
    crate::schema::lemma_separated_symbol_normalized(sym, '-');
    assert(crate::util::spec_symbol_from_exchange("kucoin"@, sym)
        == crate::strings::spec_replace(sym, '-', '/'));
}

impl KucoinAdapter {
    /// The canonical venue name.
    pub fn name(&self) -> (r: &'static str)
        ensures
            r@ == "kucoin"@,
    {
        "kucoin"
    }

    /// Unused for this venue: the address comes from the bullet request.
    pub fn ws_url(&self) -> (r: &'static str)
        ensures
            r@ == ""@,
    {
        ""
    }

    /// Builds the subscription payload for one channel.
    pub fn build_subscribe_message(
        &self,
        channel: ChannelType,
        pairs: &Vec<String>,
        config: &ExchangeConfig,
        now: i64,
    ) -> (r: String)
        requires
            channel == ChannelType::Trades ==> pairs@.len() > 0,
        ensures
            r@ == spec_kucoin_sub(channel, pairs@.map_values(|s: String| s@), now as int),
    {
        let mut out = String::new();
        match channel {
            ChannelType::Trades => {
                let conv = symbol_to_exchange("kucoin", pairs[0].as_str());
                let sym = to_ascii_upper(conv.as_str());
                out.append("{\"id\":\"");
                let t = i64_to_string(now);
                out.append(t.as_str());
                out.append("\",\"type\":\"subscribe\",\"topic\":\"/market/match:");
                out.append(sym.as_str());
                out.append("\",\"privateChannel\":false,\"response\":true}");
                proof {
                    assert(out@ =~= spec_kucoin_sub(
                        ChannelType::Trades,
                        pairs@.map_values(|s: String| s@),
                        now as int,
                    ));
                }
            },
            ChannelType::OrderBooks => {
                out.append("{}");
                proof {
                    assert(out@ =~= "{}"@);
                }
            },
        }
        out
    }

    /// Parses one raw frame into the canonical outcome.
    pub fn parse_message(&self, raw: &str, exchange: &str, now: i64) -> (r: ParseOutcome)
        ensures
            r@ == spec_kucoin_outcome(json_of(raw@), exchange@, now as int),
    {
        let v = match parse_json(raw) {
            Some(v) => v,
            None => {
                return ParseOutcome::Error;
            },
        };
        let t = match v.get("type") {
            Some(x) => match x.as_str() {
                Some(s) => s,
                None => {
                    return ParseOutcome::Control;
                },
            },
            None => {
                return ParseOutcome::Control;
            },
        };
        if !str_eq(t.as_str(), "message") {
            return ParseOutcome::Control;
        }
        let topic = match v.get("topic") {
            Some(x) => match x.as_str() {
                Some(s) => s,
                None => {
                    return ParseOutcome::Control;
                },
            },
            None => {
                return ParseOutcome::Control;
            },
        };
        if !starts_with_str(topic.as_str(), "/market/match:") {
            return ParseOutcome::Control;
        }
        proof {
            reveal_strlit(":");
        }
        let sym = match split_nth(topic.as_str(), ":", 1) {
            Some(s) => s,
            None => {
                return ParseOutcome::Error;
            },
        };
        let d = match v.get("data") {
            Some(d) => d,
            None => {
                return ParseOutcome::Error;
            },
        };
        let ts = scaled_str_ts(d, "time", 1000000, now);
        let price: String = match d.get("price") {
            Some(x) => match x.as_str() {
                Some(s) => s.clone(),
                None => zero_string(),
            },
            None => zero_string(),
        };
        let amount: String = match d.get("size") {
            Some(x) => match x.as_str() {
                Some(s) => s.clone(),
                None => zero_string(),
            },
            None => zero_string(),
        };
        let side: String = match d.get("side") {
            Some(x) => match x.as_str() {
                Some(s) => s.clone(),
                None => unknown_string(),
            },
            None => unknown_string(),
        };
        ParseOutcome::Market(
            MarketMessage::Trade(
                TradeData {
                    exchange: exchange.to_owned(),
                    symbol: symbol_from_exchange(exchange, sym.as_str()),
                    timestamp: ts,
                    price,
                    amount,
                    side,
                },
            ),
        )
    }
}

} // verus!
