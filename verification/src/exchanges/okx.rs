//! OKX spot adapter: public trade streams over socket v5.

use vstd::prelude::*;
use vstd::string::*;
use crate::ChannelType;
use crate::config::ExchangeConfig;
use crate::json::{json_of, parse_json, spec_get, spec_get_str, JsonValue};
use crate::schema::{MarketMessage, MsgModel, OutcomeModel, ParseOutcome, TradeData, TradeModel};
use crate::strings::{
    parse_i64, spec_parse_i64, spec_to_lower, str_eq, to_ascii_lower,
};
use crate::util::{
    spec_symbol_from_exchange, spec_symbol_to_exchange, symbol_from_exchange, symbol_to_exchange,
};
use crate::wire::{append_joined, append_quoted, spec_join_comma, spec_quoted};
use super::{spec_arr, spec_field, spec_str_or};

verus! {

/// OKX: pure protocol translation, no shared state.
pub struct OkxAdapter;

/// One subscription argument object.
pub open spec fn spec_okx_arg(sym: Seq<char>) -> Seq<char> {
    "{\"channel\":\"trades\",\"instId\":"@ + spec_quoted(sym) + "}"@
}

/// The trades subscription payload; the order-book channel is not offered
/// and subscribes to nothing.
pub open spec fn spec_okx_sub(channel: ChannelType, pairs: Seq<Seq<char>>) -> Seq<char> {
    match channel {
        ChannelType::Trades => "{\"op\":\"subscribe\",\"args\":["@ + spec_join_comma(
            pairs.map_values(
                |s: Seq<char>| spec_okx_arg(spec_symbol_to_exchange("okx"@, s)),
            ),
        ) + "]}"@,
        ChannelType::OrderBooks => "{}"@,
    }
}

/// The timestamp field: OKX sends it as a decimal string.
pub open spec fn spec_okx_ts(o: Option<Seq<char>>, now: int) -> int {
    match o {
        Some(s) => match spec_parse_i64(s) {
            Some(t) => t as int,
            None => now,
        },
        None => now,
    }
}

/// Outcome of one decoded frame.
pub open spec fn spec_okx_frame(v: JsonValue, ex: Seq<char>, now: int) -> OutcomeModel {
    match spec_get_str(v, "event"@) {
        Some(ev) => if ev == "error"@ {
            OutcomeModel::Error
        } else {
            OutcomeModel::Control
        },
        None => {
            let arg = spec_field(v, "arg"@);
            match spec_get_str(arg, "channel"@) {
                None => OutcomeModel::Control,
                Some(ch) => if ch != "trades"@ {
                    OutcomeModel::Control
                } else {
                    match spec_get_str(arg, "instId"@) {
                        None => OutcomeModel::Error,
                        Some(inst) => match spec_arr(spec_field(v, "data"@)) {
                            Some(ts) => if ts.len() == 0 {
                                OutcomeModel::Control
                            } else {
                                let t = ts[0];
                                OutcomeModel::Market(
                                    MsgModel::Trade(
                                        TradeModel {
                                            exchange: ex,
                                            symbol: spec_symbol_from_exchange(ex, inst),
                                            timestamp: spec_okx_ts(spec_get_str(t, "ts"@), now),
                                            price: spec_str_or(spec_get_str(t, "px"@), "0"@),
                                            amount: spec_str_or(spec_get_str(t, "sz"@), "0"@),
                                            side: spec_to_lower(
                                                spec_str_or(spec_get_str(t, "side"@), "unknown"@),
                                            ),
                                        },
                                    ),
                                )
                            },
                            None => OutcomeModel::Control,
                        },
                    }
                },
            }
        },
    }
}

/// Outcome of one raw frame.
pub open spec fn spec_okx_outcome(j: Option<JsonValue>, ex: Seq<char>, now: int) -> OutcomeModel {
    match j {
        None => OutcomeModel::Error,
        Some(v) => spec_okx_frame(v, ex, now),
    }
}

/// A trade frame the venue recognizes as valid: the trades channel with
/// a first element carrying a cleanly normalizing instrument, decimal
/// price and size, a known side word, and a nonnegative timestamp.
pub open spec fn okx_recognizes_trade(v: JsonValue, now: int) -> bool {
    &&& spec_get_str(v, "event"@) is None
    &&& ({
        let arg = spec_field(v, "arg"@);
        &&& spec_get_str(arg, "channel"@) == Some("trades"@)
        &&& (match spec_get_str(arg, "instId"@) {
            Some(inst) => crate::schema::single_separator_symbol(inst, '-'),
            None => false,
        })
        &&& (match spec_arr(spec_field(v, "data"@)) {
            Some(ds) => ds.len() > 0 && ({
                let t = ds[0];
                &&& (match spec_get_str(t, "px"@) {
                    Some(p) => crate::schema::is_decimal_text(p),
                    None => false,
                })
                &&& (match spec_get_str(t, "sz"@) {
                    Some(a) => crate::schema::is_decimal_text(a),
                    None => false,
                })
                &&& (spec_to_lower(spec_str_or(spec_get_str(t, "side"@), "unknown"@)) == "buy"@
                    || spec_to_lower(spec_str_or(spec_get_str(t, "side"@), "unknown"@))
                    == "sell"@)
                &&& spec_okx_ts(spec_get_str(t, "ts"@), now) >= 0
            }),
            None => false,
        })
    })
}

/// For any trade frame the venue recognizes as valid, parsing returns
/// exactly one canonical message whose symbol is in `BASE/QUOTE` form,
/// whose price and amount are decimal strings, and whose timestamp is a
/// millisecond epoch value.
pub proof fn lemma_okx_recognized_trade_wellformed(v: JsonValue, now: int)
    requires
        okx_recognizes_trade(v, now),
    ensures
        spec_okx_frame(v, "okx"@, now) matches OutcomeModel::Market(m)
            && crate::schema::wellformed_message(m),
{
    broadcast use vstd::string::group_string_axioms;

    reveal_strlit("okx");
    reveal_strlit("gateio");
    reveal_strlit("mexc");
    reveal_strlit("binance");
    reveal_strlit("binanceus");
    assert("okx"@.len() == 3);
    assert("gateio"@.len() == 6);
    assert("mexc"@.len() == 4);
    assert("binance"@.len() == 7);
    assert("binanceus"@.len() == 9);
    let arg = spec_field(v, "arg"@);
    let inst = match spec_get_str(arg, "instId"@) {
        Some(inst) => inst,
        None => Seq::empty(),
    };
    crate::schema::lemma_separated_symbol_normalized(inst, '-');
    assert(spec_symbol_from_exchange("okx"@, inst) == crate::strings::spec_replace(
        inst,
        '-',
        '/',
    ));
}

impl OkxAdapter {
    /// The canonical venue name.
    pub fn name(&self) -> (r: &'static str)
        ensures
            r@ == "okx"@,
    {
        "okx"
    }

    /// The venue endpoint.
    pub fn ws_url(&self) -> (r: &'static str)
        ensures
            r@ == "wss://ws.okx.com:8443/ws/v5/public"@,
    {
        "wss://ws.okx.com:8443/ws/v5/public"
    }

    /// Builds the subscription payload for one channel.
    pub fn build_subscribe_message(
        &self,
        channel: ChannelType,
        pairs: &Vec<String>,
        config: &ExchangeConfig,
        now: i64,
    ) -> (r: String)
        ensures
            r@ == spec_okx_sub(channel, pairs@.map_values(|s: String| s@)),
    {
        let mut out = String::new();
        match channel {
            ChannelType::Trades => {
                let ghost full = pairs@.map_values(|s: String| s@);
                let n = pairs.len();
                let mut args: Vec<String> = Vec::new();
                let mut i: usize = 0;
                while i < n
                    invariant
                        n == pairs@.len(),
                        i <= n,
                        full == pairs@.map_values(|s: String| s@),
                        args@.map_values(|s: String| s@) == full.subrange(0, i as int).map_values(
                            |s: Seq<char>| spec_okx_arg(spec_symbol_to_exchange("okx"@, s)),
                        ),
                    decreases n - i,
                {
                    let ghost pre = args@.map_values(|s: String| s@);
                    let sym = symbol_to_exchange("okx", pairs[i].as_str());
                    let mut a = String::new();
                    a.append("{\"channel\":\"trades\",\"instId\":");
                    append_quoted(&mut a, sym.as_str());
                    a.append("}");
                    proof {
                        assert(a@ =~= spec_okx_arg(
                            spec_symbol_to_exchange("okx"@, full[i as int]),
                        ));
                    }
                    args.push(a);
                    proof {
                        let f = |s: Seq<char>| spec_okx_arg(spec_symbol_to_exchange("okx"@, s));
                        assert(args@.map_values(|s: String| s@) =~= pre.push(args@.last()@));
                        assert(full.subrange(0, i + 1).map_values(f) =~= full.subrange(
                            0,
                            i as int,
                        ).map_values(f).push(f(full[i as int])));
                        assert(args@.map_values(|s: String| s@) =~= full.subrange(
                            0,
                            i + 1,
                        ).map_values(f));
                    }
                    i += 1;
                }
                proof {
                    assert(full.subrange(0, n as int) =~= full);
                }
                out.append("{\"op\":\"subscribe\",\"args\":[");
                append_joined(&mut out, &args);
                out.append("]}");
                proof {
                    assert(out@ =~= spec_okx_sub(ChannelType::Trades, full));
                }
            },
            ChannelType::OrderBooks => {
                out.append("{}");
                proof {
                    assert(out@ =~= "{}"@);
                }
            },
        }
        out
    }

    /// Parses one raw frame into the canonical outcome.
    pub fn parse_message(&self, raw: &str, exchange: &str, now: i64) -> (r: ParseOutcome)
        ensures
            r@ == spec_okx_outcome(json_of(raw@), exchange@, now as int),
    {
        let v = match parse_json(raw) {
            Some(v) => v,
            None => {
                return ParseOutcome::Error;
            },
        };
        let ev_opt: Option<&String> = match v.get("event") {
            Some(x) => x.as_str(),
            None => None,
        };
        match ev_opt {
            Some(ev) => {
                if str_eq(ev.as_str(), "error") {
                    return ParseOutcome::Error;
                }
                return ParseOutcome::Control;
            },
            None => {},
        }
        let arg = match v.get("arg") {
            Some(a) => a,
            None => {
                return ParseOutcome::Control;
            },
        };
        let ch = match arg.get("channel") {
            Some(x) => match x.as_str() {
                Some(s) => s,
                None => {
                    return ParseOutcome::Control;
                },
            },
            None => {
                return ParseOutcome::Control;
            },
        };
        if !str_eq(ch.as_str(), "trades") {
            return ParseOutcome::Control;
        }
        let inst = match arg.get("instId") {
            Some(x) => match x.as_str() {
                Some(s) => s,
                None => {
                    return ParseOutcome::Error;
                },
            },
            None => {
                return ParseOutcome::Error;
            },
        };
        let data = match v.get("data") {
            Some(x) => match x.as_array() {
                Some(xs) => xs,
                None => {
                    return ParseOutcome::Control;
                },
            },
            None => {
                return ParseOutcome::Control;
            },
        };
        if data.len() == 0 {
            return ParseOutcome::Control;
        }
        let t = &data[0];
        let ts: i64 = match t.get("ts") {
            Some(x) => match x.as_str() {
                Some(s) => match parse_i64(s.as_str()) {
                    Some(ms) => ms,
                    None => now,
                },
                None => now,
            },
            None => now,
        };
        let price: String = match t.get("px") {
            Some(x) => match x.as_str() {
                Some(s) => s.clone(),
                None => super::zero_string(),
            },
            None => super::zero_string(),
        };
        let amount: String = match t.get("sz") {
            Some(x) => match x.as_str() {
                Some(s) => s.clone(),
                None => super::zero_string(),
            },
            None => super::zero_string(),
        };
        let side_raw: String = match t.get("side") {
            Some(x) => match x.as_str() {
                Some(s) => s.clone(),
                None => super::unknown_string(),
            },
            None => super::unknown_string(),
        };
        let side = to_ascii_lower(side_raw.as_str());
        ParseOutcome::Market(
            MarketMessage::Trade(
                TradeData {
                    exchange: exchange.to_owned(),
                    symbol: symbol_from_exchange(exchange, inst.as_str()),
                    timestamp: ts,
                    price,
                    amount,
                    side,
                },
            ),
        )
    }
}

} // verus!
