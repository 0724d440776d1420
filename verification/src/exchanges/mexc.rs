//! MEXC adapter: the contract deal stream, one symbol per connection.

use vstd::prelude::*;
use vstd::string::*;
use crate::ChannelType;
use crate::config::ExchangeConfig;
use crate::json::{json_of, parse_json, spec_get, spec_get_i64, spec_get_str, JsonValue};
use crate::schema::{MarketMessage, MsgModel, OutcomeModel, ParseOutcome, TradeData, TradeModel};
use crate::strings::{
    replace_char, spec_replace, spec_to_upper, str_eq, to_ascii_upper,
};
use crate::util::{
    spec_symbol_from_exchange, spec_symbol_to_exchange, symbol_from_exchange, symbol_to_exchange,
};
use super::{num_text, spec_arr, spec_field, spec_num_text, spec_ts_or, unknown_string};

verus! {

/// MEXC: pure protocol translation, no shared state.
pub struct MexcAdapter;

/// The trade side carried as a numeric code.
pub open spec fn spec_mexc_side(o: Option<i64>) -> Seq<char> {
    match o {
        Some(1i64) => "buy"@,
        Some(2i64) => "sell"@,
        _ => "unknown"@,
    }
}

/// The deal subscription payload: one symbol per request.
pub open spec fn spec_mexc_sub(channel: ChannelType, pairs: Seq<Seq<char>>) -> Seq<char> {
    match channel {
        ChannelType::Trades => {
            let sym = spec_to_upper(
                spec_replace(spec_symbol_to_exchange("mexc"@, pairs[0]), '-', '_'),
            );
            "{\"method\":\"sub.deal\",\"param\":{\"symbol\":\""@ + sym + "\"}}"@
        },
        ChannelType::OrderBooks => "{}"@,
    }
}

/// Outcome of one decoded frame.
pub open spec fn spec_mexc_frame(v: JsonValue, ex: Seq<char>, now: int) -> OutcomeModel {
    match spec_get_str(v, "channel"@) {
        None => OutcomeModel::Control,
        Some(ch) => if ch != "push.deal"@ {
            OutcomeModel::Control
        } else {
            match spec_get_str(v, "symbol"@) {
                None => OutcomeModel::Error,
                Some(sym) => match spec_arr(spec_field(v, "data"@)) {
                    Some(ts) => if ts.len() == 0 {
                        OutcomeModel::Control
                    } else {
                        let t = ts[0];
                        OutcomeModel::Market(
                            MsgModel::Trade(
                                TradeModel {
                                    exchange: ex,
                                    symbol: spec_symbol_from_exchange(ex, sym),
                                    timestamp: spec_ts_or(spec_get_i64(t, "t"@), now),
                                    price: spec_num_text(spec_field(t, "p"@)),
                                    amount: spec_num_text(spec_field(t, "v"@)),
                                    side: spec_mexc_side(spec_get_i64(t, "T"@)),
                                },
                            ),
                        )
                    },
                    None => OutcomeModel::Control,
                },
            }
        },
    }
}

/// Outcome of one raw frame.
pub open spec fn spec_mexc_outcome(j: Option<JsonValue>, ex: Seq<char>, now: int) -> OutcomeModel {
    match j {
        None => OutcomeModel::Error,
        Some(v) => spec_mexc_frame(v, ex, now),
    }
}

/// A deal frame the venue recognizes as valid: the push channel with a
/// cleanly normalizing symbol, a first deal with decimal price and
/// volume, a known side code, and a nonnegative timestamp.
pub open spec fn mexc_recognizes_trade(v: JsonValue, now: int) -> bool {
    &&& spec_get_str(v, "channel"@) == Some("push.deal"@)
    &&& (match spec_get_str(v, "symbol"@) {
        Some(sym) => crate::schema::single_separator_symbol(sym, '_'),
        None => false,
    })
    &&& (match spec_arr(spec_field(v, "data"@)) {
        Some(ds) => ds.len() > 0 && ({
            let t = ds[0];
            &&& crate::schema::is_decimal_text(spec_num_text(spec_field(t, "p"@)))
            &&& crate::schema::is_decimal_text(spec_num_text(spec_field(t, "v"@)))
            &&& (spec_get_i64(t, "T"@) == Some(1i64) || spec_get_i64(t, "T"@) == Some(2i64))
            &&& spec_ts_or(spec_get_i64(t, "t"@), now) >= 0
        }),
        None => false,
    })
}

/// For any deal frame the venue recognizes as valid, parsing returns
/// exactly one canonical message whose symbol is in `BASE/QUOTE` form,
/// whose price and amount are decimal strings, and whose timestamp is a
/// millisecond epoch value.
pub proof fn lemma_mexc_recognized_trade_wellformed(v: JsonValue, now: int)
    requires
        mexc_recognizes_trade(v, now),
    ensures
        spec_mexc_frame(v, "mexc"@, now) matches OutcomeModel::Market(m)
            && crate::schema::wellformed_message(m),
{
    let sym = match spec_get_str(v, "symbol"@) {
        Some(sym) => sym,
        None => Seq::empty(),
    };
    crate::schema::lemma_separated_symbol_normalized(sym, '_');
}

impl MexcAdapter {
    /// The canonical venue name.
    pub fn name(&self) -> (r: &'static str)
        ensures
            r@ == "mexc"@,
    {
        "mexc"
    }

    /// The venue endpoint.
    pub fn ws_url(&self) -> (r: &'static str)
        ensures
            r@ == "wss://contract.mexc.com/edge"@,
    {
        "wss://contract.mexc.com/edge"
    }

    /// Builds the subscription payload for one channel.
    pub fn build_subscribe_message(
        &self,
        channel: ChannelType,
        pairs: &Vec<String>,
        config: &ExchangeConfig,
        now: i64,
    ) -> (r: String)
        requires
            channel == ChannelType::Trades ==> pairs@.len() > 0,
        ensures
            r@ == spec_mexc_sub(channel, pairs@.map_values(|s: String| s@)),
    {
        let mut out = String::new();
        match channel {
            ChannelType::Trades => {
                let conv = symbol_to_exchange("mexc", pairs[0].as_str());
                let und = replace_char(conv.as_str(), '-', '_');
                let sym = to_ascii_upper(und.as_str());
                out.append("{\"method\":\"sub.deal\",\"param\":{\"symbol\":\"");
                out.append(sym.as_str());
                out.append("\"}}");
                proof {
                    assert(out@ =~= spec_mexc_sub(
                        ChannelType::Trades,
                        pairs@.map_values(|s: String| s@),
                    ));
                }
            },
            ChannelType::OrderBooks => {
                out.append("{}");
                proof {
                    assert(out@ =~= "{}"@);
                }
            },
        }
        out
    }

    /// Parses one raw frame into the canonical outcome.
    pub fn parse_message(&self, raw: &str, exchange: &str, now: i64) -> (r: ParseOutcome)
        ensures
            r@ == spec_mexc_outcome(json_of(raw@), exchange@, now as int),
    {
        let v = match parse_json(raw) {
            Some(v) => v,
            None => {
                return ParseOutcome::Error;
            },
        };
        let ch = match v.get("channel") {
            Some(x) => match x.as_str() {
                Some(s) => s,
                None => {
                    return ParseOutcome::Control;
                },
            },
            None => {
                return ParseOutcome::Control;
            },
        };
        if !str_eq(ch.as_str(), "push.deal") {
            return ParseOutcome::Control;
        }
        let sym = match v.get("symbol") {
            Some(x) => match x.as_str() {
                Some(s) => s,
                None => {
                    return ParseOutcome::Error;
                },
            },
            None => {
                return ParseOutcome::Error;
            },
        };
        let data = match v.get("data") {
            Some(x) => match x.as_array() {
                Some(xs) => xs,
                None => {
                    return ParseOutcome::Control;
                },
            },
            None => {
                return ParseOutcome::Control;
            },
        };
        if data.len() == 0 {
            return ParseOutcome::Control;
        }
        let t = &data[0];
        let code: Option<i64> = match t.get("T") {
            Some(x) => x.as_i64(),
            None => None,
        };
        let side: String = match code {
            Some(c) => {
                if c == 1 {
                    let mut s = String::new();
                    s.append("buy");
                    proof {
                        assert(s@ =~= "buy"@);
                    }
                    s
                } else if c == 2 {
                    let mut s = String::new();
                    s.append("sell");
                    proof {
                        assert(s@ =~= "sell"@);
                    }
                    s
                } else {
                    unknown_string()
                }
            },
            None => unknown_string(),
        };
        let ts: i64 = match t.get("t") {
            Some(x) => match x.as_i64() {
                Some(ms) => ms,
                None => now,
            },
            None => now,
        };
        let price: String = match t.get("p") {
            Some(x) => num_text(x),
            None => num_text(&JsonValue::Null),
        };
        let amount: String = match t.get("v") {
            Some(x) => num_text(x),
            None => num_text(&JsonValue::Null),
        };
        ParseOutcome::Market(
            MarketMessage::Trade(
                TradeData {
                    exchange: exchange.to_owned(),
                    symbol: symbol_from_exchange(exchange, sym.as_str()),
                    timestamp: ts,
                    price,
                    amount,
                    side,
                },
            ),
        )
    }
}

} // verus!
