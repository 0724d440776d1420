//! Bitstamp adapter: live trades, one subscription per symbol.

use vstd::prelude::*;
use vstd::string::*;
use crate::ChannelType;
use crate::config::ExchangeConfig;
use crate::json::{json_of, parse_json, spec_get, spec_get_i64, spec_get_str, JsonValue};
use crate::schema::{MarketMessage, MsgModel, OutcomeModel, ParseOutcome, TradeData, TradeModel};
use crate::strings::{
    spec_starts_with, spec_to_lower, starts_with_str, str_eq, to_ascii_lower,
};
use crate::util::{
    spec_symbol_from_exchange, spec_symbol_to_exchange, symbol_from_exchange, symbol_to_exchange,
};
use super::{
    scaled_str_ts, spec_field, spec_scaled_str_ts, spec_str_or, unknown_string, zero_string,
};

verus! {

/// Bitstamp: pure protocol translation, no shared state.
pub struct BitstampAdapter;

/// The live-trades subscription payload: one symbol per request.
pub open spec fn spec_bitstamp_sub(channel: ChannelType, pairs: Seq<Seq<char>>) -> Seq<char> {
    match channel {
        ChannelType::Trades => {
            let sym = spec_to_lower(spec_symbol_to_exchange("bitstamp"@, pairs[0]));
            "{\"event\":\"bts:subscribe\",\"data\":{\"channel\":\"live_trades_"@ + sym + "\"}}"@
        },
        ChannelType::OrderBooks => "{}"@,
    }
}

/// The venue symbol embedded in a channel name.
pub open spec fn spec_bitstamp_channel_symbol(ch: Seq<char>) -> Seq<char> {
    if spec_starts_with(ch, "live_trades_"@) {
        ch.subrange("live_trades_"@.len() as int, ch.len() as int)
    } else {
        Seq::empty()
    }
}

/// The trade side carried as a numeric code.
pub open spec fn spec_bitstamp_side(o: Option<i64>) -> Seq<char> {
    match o {
        Some(0i64) => "buy"@,
        Some(1i64) => "sell"@,
        _ => "unknown"@,
    }
}

/// Outcome of one decoded frame.
pub open spec fn spec_bitstamp_frame(v: JsonValue, ex: Seq<char>, now: int) -> OutcomeModel {
    if spec_get_str(v, "event"@) != Some("trade"@) {
        OutcomeModel::Control
    } else {
        match spec_get(v, "data"@) {
            None => OutcomeModel::Control,
            Some(d) => {
                let ch = spec_str_or(spec_get_str(v, "channel"@), Seq::empty());
                OutcomeModel::Market(
                    MsgModel::Trade(
                        TradeModel {
                            exchange: ex,
                            symbol: spec_symbol_from_exchange(
                                ex,
                                spec_bitstamp_channel_symbol(ch),
                            ),
                            timestamp: spec_scaled_str_ts(
                                spec_get_str(d, "microtimestamp"@),
                                1000,
                                now,
                            ),
                            price: spec_str_or(spec_get_str(d, "price_str"@), "0"@),
                            amount: spec_str_or(spec_get_str(d, "amount_str"@), "0"@),
                            side: spec_bitstamp_side(spec_get_i64(d, "type"@)),
                        },
                    ),
                )
            },
        }
    }
}

/// Outcome of one raw frame.
pub open spec fn spec_bitstamp_outcome(j: Option<JsonValue>, ex: Seq<char>, now: int) -> OutcomeModel {
    match j {
        None => OutcomeModel::Error,
        Some(v) => spec_bitstamp_frame(v, ex, now),
    }
}

/// A trade frame the venue recognizes as valid: the trade event with a
/// live-trades channel whose symbol segment splits cleanly, decimal
/// price and amount, a known side code, and a nonnegative timestamp.
pub open spec fn bitstamp_recognizes_trade(v: JsonValue, now: int) -> bool {
    &&& spec_get_str(v, "event"@) == Some("trade"@)
    &&& (match spec_get_str(v, "channel"@) {
        Some(ch) => spec_starts_with(ch, "live_trades_"@) && crate::util::lower_concat_symbol_ok(
            spec_bitstamp_channel_symbol(ch),
        ),
        None => false,
    })
    &&& (match spec_get(v, "data"@) {
        Some(d) => {
            &&& (match spec_get_str(d, "price_str"@) {
                Some(p) => crate::schema::is_decimal_text(p),
                None => false,
            })
            &&& (match spec_get_str(d, "amount_str"@) {
                Some(a) => crate::schema::is_decimal_text(a),
                None => false,
            })
            &&& (spec_get_i64(d, "type"@) == Some(0i64) || spec_get_i64(d, "type"@) == Some(
                1i64,
            ))
            &&& spec_scaled_str_ts(spec_get_str(d, "microtimestamp"@), 1000, now) >= 0
        },
        None => false,
    })
}

/// For any trade frame the venue recognizes as valid, parsing returns
/// exactly one canonical message whose symbol is in `BASE/QUOTE` form,
/// whose price and amount are decimal strings, and whose timestamp is a
/// millisecond epoch value.
pub proof fn lemma_bitstamp_recognized_trade_wellformed(v: JsonValue, now: int)
    requires
        bitstamp_recognizes_trade(v, now),
    ensures
        spec_bitstamp_frame(v, "bitstamp"@, now) matches OutcomeModel::Market(m)
            && crate::schema::wellformed_message(m),
{
    broadcast use vstd::string::group_string_axioms;

    reveal_strlit("bitstamp");
    reveal_strlit("gateio");
    reveal_strlit("mexc");
    reveal_strlit("binance");
    reveal_strlit("binanceus");
    reveal_strlit("okx");
    reveal_strlit("kucoin");
    reveal_strlit("coinbase");
    reveal_strlit("bybit");
    assert("bitstamp"@ != "coinbase"@) by {
        assert("bitstamp"@[0] == 'b');
        assert("coinbase"@[0] == 'c');
    }
    assert("bitstamp"@.len() == 8);
    assert("gateio"@.len() == 6);
    assert("mexc"@.len() == 4);
    assert("binance"@.len() == 7);
    assert("binanceus"@.len() == 9);
    assert("okx"@.len() == 3);
    assert("kucoin"@.len() == 6);
    assert("bybit"@.len() == 5);
    let ch = match spec_get_str(v, "channel"@) {
        Some(ch) => ch,
        None => Seq::empty(),
    };
    let sym = spec_bitstamp_channel_symbol(ch);
    crate::util::lemma_lower_concat_normalized(sym);
    assert(crate::util::spec_symbol_from_exchange("bitstamp"@, sym)
        == crate::util::spec_lower_concat_from(sym));
}

impl BitstampAdapter {
    /// The canonical venue name.
    pub fn name(&self) -> (r: &'static str)
        ensures
            r@ == "bitstamp"@,
    {
        "bitstamp"
    }

    /// The venue endpoint.
    pub fn ws_url(&self) -> (r: &'static str)
        ensures
            r@ == "wss://ws.bitstamp.net"@,
    {
        "wss://ws.bitstamp.net"
    }

    /// Builds the subscription payload for one channel.
    pub fn build_subscribe_message(
        &self,
        channel: ChannelType,
        pairs: &Vec<String>,
        config: &ExchangeConfig,
        now: i64,
    ) -> (r: String)
        requires
            channel == ChannelType::Trades ==> pairs@.len() > 0,
        ensures
            r@ == spec_bitstamp_sub(channel, pairs@.map_values(|s: String| s@)),
    {
        let mut out = String::new();
        match channel {
            ChannelType::Trades => {
                let conv = symbol_to_exchange("bitstamp", pairs[0].as_str());
                let sym = to_ascii_lower(conv.as_str());
                out.append("{\"event\":\"bts:subscribe\",\"data\":{\"channel\":\"live_trades_");
                out.append(sym.as_str());
                out.append("\"}}");
                proof {
                    assert(out@ =~= spec_bitstamp_sub(
                        ChannelType::Trades,
                        pairs@.map_values(|s: String| s@),
                    ));
                }
            },
            ChannelType::OrderBooks => {
                out.append("{}");
                proof {
                    assert(out@ =~= "{}"@);
                }
            },
        }
        out
    }

    /// Parses one raw frame into the canonical outcome.
    pub fn parse_message(&self, raw: &str, exchange: &str, now: i64) -> (r: ParseOutcome)
        ensures
            r@ == spec_bitstamp_outcome(json_of(raw@), exchange@, now as int),
    {
        let v = match parse_json(raw) {
            Some(v) => v,
            None => {
                return ParseOutcome::Error;
            },
        };
        let is_trade: bool = match v.get("event") {
            Some(x) => match x.as_str() {
                Some(s) => str_eq(s.as_str(), "trade"),
                None => false,
            },
            None => false,
        };
        if !is_trade {
            return ParseOutcome::Control;
        }
        let d = match v.get("data") {
            Some(d) => d,
            None => {
                return ParseOutcome::Control;
            },
        };
        proof {
            reveal_strlit("live_trades_");
        }
        let sym_raw: String = match v.get("channel") {
            Some(x) => match x.as_str() {
                Some(ch) => {
                    if starts_with_str(ch.as_str(), "live_trades_") {
                        proof {
                            reveal_strlit("live_trades_");
                        }
                        let n = ch.as_str().unicode_len();
                        ch.as_str().substring_char(12, n).to_owned()
                    } else {
                        String::new()
                    }
                },
                None => String::new(),
            },
            None => String::new(),
        };
        let ts = scaled_str_ts(d, "microtimestamp", 1000, now);
        let price: String = match d.get("price_str") {
            Some(x) => match x.as_str() {
                Some(s) => s.clone(),
                None => zero_string(),
            },
            None => zero_string(),
        };
        let amount: String = match d.get("amount_str") {
            Some(x) => match x.as_str() {
                Some(s) => s.clone(),
                None => zero_string(),
            },
            None => zero_string(),
        };
        let code: Option<i64> = match d.get("type") {
            Some(x) => x.as_i64(),
            None => None,
        };
        let side: String = match code {
            Some(c) => {
                if c == 0 {
                    let mut s = String::new();
                    s.append("buy");
                    proof {
                        assert(s@ =~= "buy"@);
                    }
                    s
                } else if c == 1 {
                    let mut s = String::new();
                    s.append("sell");
                    proof {
                        assert(s@ =~= "sell"@);
                    }
                    s
                } else {
                    unknown_string()
                }
            },
            None => unknown_string(),
        };
        ParseOutcome::Market(
            MarketMessage::Trade(
                TradeData {
                    exchange: exchange.to_owned(),
                    symbol: symbol_from_exchange(exchange, sym_raw.as_str()),
                    timestamp: ts,
                    price,
                    amount,
                    side,
                },
            ),
        )
    }
}

} // verus!
