//! Gate.io spot adapter: trades and order-book updates over socket v4.

use vstd::prelude::*;
use vstd::string::*;
use crate::ChannelType;
use crate::config::ExchangeConfig;
use crate::json::{json_of, parse_json, spec_get_i64, spec_get_str, JsonValue};
use crate::schema::{
    BookData, BookModel, MarketMessage, MsgModel, OutcomeModel, ParseOutcome, TradeData,
    TradeModel,
};
use crate::strings::{i64_to_string, spec_dec_i64, spec_dec_u64, str_eq, u64_to_string};
use crate::util::{
    spec_symbol_from_exchange, spec_symbol_to_exchange, symbol_from_exchange, symbol_to_exchange,
};
use crate::wire::{append_quoted, append_str_array, spec_quoted, spec_str_array};
use super::{
    collect_levels, map_symbols, spec_arr, spec_field, spec_map_to_exchange, spec_pair_levels,
    spec_ts_or,
};

verus! {

/// Gate.io: pure protocol translation, no shared state.
pub struct GateIoAdapter;

/// The trades subscription payload.
pub open spec fn spec_gateio_sub_trades(pairs: Seq<Seq<char>>, now: int) -> Seq<char> {
    "{\"time\":"@ + spec_dec_i64(now)
        + ",\"channel\":\"spot.trades\",\"event\":\"subscribe\",\"payload\":"@ + spec_str_array(
        spec_map_to_exchange("gateio"@, pairs),
    ) + "}"@
}

/// The order-book subscription payload: one symbol, depth and interval
/// from configuration with the venue's defaults.
pub open spec fn spec_gateio_sub_book(pairs: Seq<Seq<char>>, cfg: ExchangeConfig, now: int) -> Seq<
    char,
> {
    let depth: Seq<char> = match cfg.orderbook {
        Some(o) => spec_dec_u64(o.depth as nat),
        None => "20"@,
    };
    let ival: Seq<char> = match cfg.orderbook {
        Some(o) => spec_dec_u64(o.update_interval_ms as nat) + "ms"@,
        None => "1000ms"@,
    };
    let sym = spec_symbol_to_exchange("gateio"@, spec_symbol_to_exchange("gateio"@, pairs[0]));
    "{\"time\":"@ + spec_dec_i64(now)
        + ",\"channel\":\"spot.order_book\",\"event\":\"subscribe\",\"payload\":["@ + spec_quoted(
        sym,
    ) + ","@ + spec_quoted(depth) + ","@ + spec_quoted(ival) + "]}"@
}

/// Outcome of one trades-channel frame.
pub open spec fn spec_gateio_trade(v: JsonValue, ex: Seq<char>, now: int) -> OutcomeModel {
    let r = spec_field(v, "result"@);
    match (
        spec_get_str(r, "currency_pair"@),
        spec_get_str(r, "price"@),
        spec_get_str(r, "amount"@),
        spec_get_str(r, "side"@),
    ) {
        (Some(cp), Some(p), Some(a), Some(sd)) => OutcomeModel::Market(
            MsgModel::Trade(
                TradeModel {
                    exchange: ex,
                    symbol: spec_symbol_from_exchange(ex, cp),
                    timestamp: spec_ts_or(spec_get_i64(r, "create_time_ms"@), now),
                    price: p,
                    amount: a,
                    side: sd,
                },
            ),
        ),
        _ => OutcomeModel::Control,
    }
}

/// Outcome of one order-book frame.
pub open spec fn spec_gateio_book(v: JsonValue, ex: Seq<char>, now: int) -> OutcomeModel {
    let r = spec_field(v, "result"@);
    match (
        spec_arr(spec_field(r, "asks"@)),
        spec_arr(spec_field(r, "bids"@)),
        spec_get_str(r, "s"@),
    ) {
        (Some(asks), Some(bids), Some(sym)) => OutcomeModel::Market(
            MsgModel::Book(
                BookModel {
                    exchange: ex,
                    symbol: spec_symbol_from_exchange(ex, sym),
                    timestamp: spec_ts_or(spec_get_i64(r, "t"@), now),
                    asks: spec_pair_levels(asks),
                    bids: spec_pair_levels(bids),
                },
            ),
        ),
        _ => OutcomeModel::Control,
    }
}

/// Outcome of one decoded frame.
pub open spec fn spec_gateio_frame(v: JsonValue, ex: Seq<char>, now: int) -> OutcomeModel {
    match (spec_get_str(v, "channel"@), spec_get_str(v, "event"@)) {
        (Some(ch), Some(ev)) => if ev != "update"@ {
            OutcomeModel::Control
        } else if ch == "spot.trades"@ {
            spec_gateio_trade(v, ex, now)
        } else if ch == "spot.order_book"@ {
            spec_gateio_book(v, ex, now)
        } else {
            OutcomeModel::Control
        },
        _ => OutcomeModel::Control,
    }
}

/// Outcome of one raw frame: invalid JSON is an error, unrecognized but
/// well-formed frames are control traffic.
pub open spec fn spec_gateio_outcome(j: Option<JsonValue>, ex: Seq<char>, now: int) -> OutcomeModel {
    match j {
        None => OutcomeModel::Error,
        Some(v) => spec_gateio_frame(v, ex, now),
    }
}

/// A venue trade symbol that normalizes cleanly: exactly one interior
/// underscore separator and no stray separator characters.
pub open spec fn gateio_symbol_ok(cp: Seq<char>) -> bool {
    crate::schema::single_separator_symbol(cp, '_')
}

proof fn lemma_gateio_symbol_normalized(cp: Seq<char>)
    requires
        gateio_symbol_ok(cp),
    ensures
        crate::schema::is_normalized_symbol(crate::strings::spec_replace(cp, '_', '/')),
{
    crate::schema::lemma_separated_symbol_normalized(cp, '_');
}

/// A trades frame the venue recognizes as valid: the update envelope
/// with every trade field present, a cleanly normalizing symbol, decimal
/// price and amount, a known side word, and a nonnegative timestamp.
pub open spec fn gateio_recognizes_trade(v: JsonValue, now: int) -> bool {
    &&& spec_get_str(v, "channel"@) == Some("spot.trades"@)
    &&& spec_get_str(v, "event"@) == Some("update"@)
    &&& ({
        let r = spec_field(v, "result"@);
        match (
            spec_get_str(r, "currency_pair"@),
            spec_get_str(r, "price"@),
            spec_get_str(r, "amount"@),
            spec_get_str(r, "side"@),
        ) {
            (Some(cp), Some(p), Some(a), Some(sd)) => {
                &&& gateio_symbol_ok(cp)
                &&& crate::schema::is_decimal_text(p)
                &&& crate::schema::is_decimal_text(a)
                &&& (sd == "buy"@ || sd == "sell"@)
                &&& (match spec_get_i64(r, "create_time_ms"@) {
                    Some(t) => t >= 0,
                    None => now >= 0,
                })
            },
            _ => false,
        }
    })
}

/// For any trades frame the venue recognizes as valid, parsing returns
/// exactly one canonical message whose symbol is in `BASE/QUOTE` form,
/// whose price and amount are decimal strings, and whose timestamp is a
/// millisecond epoch value.
pub proof fn lemma_recognized_trade_wellformed(v: JsonValue, now: int)
    requires
        gateio_recognizes_trade(v, now),
    ensures
        spec_gateio_frame(v, "gateio"@, now) matches OutcomeModel::Market(m)
            && crate::schema::wellformed_message(m),
{
    reveal_strlit("update");
    reveal_strlit("spot.trades");
    let r = spec_field(v, "result"@);
    let cp = match spec_get_str(r, "currency_pair"@) {
        Some(cp) => cp,
        None => Seq::empty(),
    };
    lemma_gateio_symbol_normalized(cp);
}

/// A book frame the venue recognizes as valid: the update envelope with
/// both sides and the symbol present, a cleanly normalizing symbol,
/// every extracted level decimal, and a nonnegative timestamp.
pub open spec fn gateio_recognizes_book(v: JsonValue, now: int) -> bool {
    &&& spec_get_str(v, "channel"@) == Some("spot.order_book"@)
    &&& spec_get_str(v, "event"@) == Some("update"@)
    &&& ({
        let r = spec_field(v, "result"@);
        match (
            spec_arr(spec_field(r, "asks"@)),
            spec_arr(spec_field(r, "bids"@)),
            spec_get_str(r, "s"@),
        ) {
            (Some(asks), Some(bids), Some(sym)) => {
                &&& gateio_symbol_ok(sym)
                &&& (forall|i: int|
                    0 <= i < spec_pair_levels(asks).len() ==> crate::schema::is_decimal_text(
                        (#[trigger] spec_pair_levels(asks)[i]).price,
                    ) && crate::schema::is_decimal_text(spec_pair_levels(asks)[i].amount))
                &&& (forall|i: int|
                    0 <= i < spec_pair_levels(bids).len() ==> crate::schema::is_decimal_text(
                        (#[trigger] spec_pair_levels(bids)[i]).price,
                    ) && crate::schema::is_decimal_text(spec_pair_levels(bids)[i].amount))
                &&& (match spec_get_i64(r, "t"@) {
                    Some(t) => t >= 0,
                    None => now >= 0,
                })
            },
            _ => false,
        }
    })
}

/// For any book frame the venue recognizes as valid, parsing returns
/// exactly one canonical message whose symbol is in `BASE/QUOTE` form,
/// whose levels are decimal strings, and whose timestamp is a
/// millisecond epoch value.
pub proof fn lemma_recognized_book_wellformed(v: JsonValue, now: int)
    requires
        gateio_recognizes_book(v, now),
    ensures
        spec_gateio_frame(v, "gateio"@, now) matches OutcomeModel::Market(m)
            && crate::schema::wellformed_message(m),
{
    broadcast use vstd::string::group_string_axioms;

    reveal_strlit("update");
    reveal_strlit("spot.trades");
    reveal_strlit("spot.order_book");
    assert("spot.order_book"@.len() == 15);
    assert("spot.order_book"@ != "spot.trades"@);
    assert(spec_gateio_frame(v, "gateio"@, now) == spec_gateio_book(v, "gateio"@, now));
    let r = spec_field(v, "result"@);
    let sym = match spec_get_str(r, "s"@) {
        Some(sym) => sym,
        None => Seq::empty(),
    };
    lemma_gateio_symbol_normalized(sym);
    let asks = match spec_arr(spec_field(r, "asks"@)) {
        Some(a) => a,
        None => Seq::empty(),
    };
    let bids = match spec_arr(spec_field(r, "bids"@)) {
        Some(b) => b,
        None => Seq::empty(),
    };
    match spec_gateio_book(v, "gateio"@, now) {
        OutcomeModel::Market(MsgModel::Book(b)) => {
            assert(b.asks == spec_pair_levels(asks));
            assert(b.bids == spec_pair_levels(bids));
            assert(crate::schema::wellformed_book(b));
        },
        _ => {
            assert(false);
        },
    }
}

impl GateIoAdapter {
    /// The canonical venue name.
    pub fn name(&self) -> (r: &'static str)
        ensures
            r@ == "gateio"@,
    {
        "gateio"
    }

    /// The venue endpoint.
    pub fn ws_url(&self) -> (r: &'static str)
        ensures
            r@ == "wss://api.gateio.ws/ws/v4/"@,
    {
        "wss://api.gateio.ws/ws/v4/"
    }

    /// Builds the subscription payload for one channel. Pure translation:
    /// no I/O, no shared state.
    pub fn build_subscribe_message(
        &self,
        channel: ChannelType,
        pairs: &Vec<String>,
        config: &ExchangeConfig,
        now: i64,
    ) -> (r: String)
        requires
            channel == ChannelType::OrderBooks ==> pairs@.len() > 0,
        ensures
            channel == ChannelType::Trades ==> r@ == spec_gateio_sub_trades(
                pairs@.map_values(|s: String| s@),
                now as int,
            ),
            channel == ChannelType::OrderBooks ==> r@ == spec_gateio_sub_book(
                pairs@.map_values(|s: String| s@),
                *config,
                now as int,
            ),
    {
        let mut out = String::new();
        match channel {
            ChannelType::Trades => {
                let conv = map_symbols("gateio", pairs);
                out.append("{\"time\":");
                let t = i64_to_string(now);
                out.append(t.as_str());
                out.append(",\"channel\":\"spot.trades\",\"event\":\"subscribe\",\"payload\":");
                append_str_array(&mut out, &conv);
                out.append("}");
                proof {
                    assert(out@ =~= spec_gateio_sub_trades(
                        pairs@.map_values(|s: String| s@),
                        now as int,
                    ));
                }
            },
            ChannelType::OrderBooks => {
                let depth: String = match &config.orderbook {
                    Some(o) => u64_to_string(o.depth as u64),
                    None => {
                        let mut d = String::new();
                        d.append("20");
                        d
                    },
                };
                let ival: String = match &config.orderbook {
                    Some(o) => {
                        let mut s = u64_to_string(o.update_interval_ms);
                        s.append("ms");
                        s
                    },
                    None => {
                        let mut s = String::new();
                        s.append("1000ms");
                        s
                    },
                };
                let once = symbol_to_exchange("gateio", pairs[0].as_str());
                let sym = symbol_to_exchange("gateio", once.as_str());
                out.append("{\"time\":");
                let t = i64_to_string(now);
                out.append(t.as_str());
                out.append(",\"channel\":\"spot.order_book\",\"event\":\"subscribe\",\"payload\":[");
                append_quoted(&mut out, sym.as_str());
                out.append(",");
                append_quoted(&mut out, depth.as_str());
                out.append(",");
                append_quoted(&mut out, ival.as_str());
                out.append("]}");
                proof {
                    assert(out@ =~= spec_gateio_sub_book(
                        pairs@.map_values(|s: String| s@),
                        *config,
                        now as int,
                    ));
                }
            },
        }
        out
    }

    /// Parses one raw frame into the canonical outcome.
    pub fn parse_message(&self, raw: &str, exchange: &str, now: i64) -> (r: ParseOutcome)
        ensures
            r@ == spec_gateio_outcome(json_of(raw@), exchange@, now as int),
    {
        let v = match parse_json(raw) {
            Some(v) => v,
            None => {
                return ParseOutcome::Error;
            },
        };
        let channel = match v.get("channel") {
            Some(c) => match c.as_str() {
                Some(s) => s,
                None => {
                    return ParseOutcome::Control;
                },
            },
            None => {
                return ParseOutcome::Control;
            },
        };
        let event = match v.get("event") {
            Some(c) => match c.as_str() {
                Some(s) => s,
                None => {
                    return ParseOutcome::Control;
                },
            },
            None => {
                return ParseOutcome::Control;
            },
        };
        if !str_eq(event.as_str(), "update") {
            return ParseOutcome::Control;
        }
        if str_eq(channel.as_str(), "spot.trades") {
            let rf = match v.get("result") {
                Some(x) => x,
                None => {
                    return ParseOutcome::Control;
                },
            };
            let cp = match rf.get("currency_pair") {
                Some(x) => match x.as_str() {
                    Some(s) => s,
                    None => {
                        return ParseOutcome::Control;
                    },
                },
                None => {
                    return ParseOutcome::Control;
                },
            };
            let p = match rf.get("price") {
                Some(x) => match x.as_str() {
                    Some(s) => s,
                    None => {
                        return ParseOutcome::Control;
                    },
                },
                None => {
                    return ParseOutcome::Control;
                },
            };
            let a = match rf.get("amount") {
                Some(x) => match x.as_str() {
                    Some(s) => s,
                    None => {
                        return ParseOutcome::Control;
                    },
                },
                None => {
                    return ParseOutcome::Control;
                },
            };
            let sd = match rf.get("side") {
                Some(x) => match x.as_str() {
                    Some(s) => s,
                    None => {
                        return ParseOutcome::Control;
                    },
                },
                None => {
                    return ParseOutcome::Control;
                },
            };
            let ts = match rf.get("create_time_ms") {
                Some(x) => match x.as_i64() {
                    Some(t) => t,
                    None => now,
                },
                None => now,
            };
            ParseOutcome::Market(
                MarketMessage::Trade(
                    TradeData {
                        exchange: exchange.to_owned(),
                        symbol: symbol_from_exchange(exchange, cp.as_str()),
                        timestamp: ts,
                        price: p.clone(),
                        amount: a.clone(),
                        side: sd.clone(),
                    },
                ),
            )
        } else if str_eq(channel.as_str(), "spot.order_book") {
            let rf = match v.get("result") {
                Some(x) => x,
                None => {
                    return ParseOutcome::Control;
                },
            };
            let asks_arr = match rf.get("asks") {
                Some(x) => match x.as_array() {
                    Some(xs) => xs,
                    None => {
                        return ParseOutcome::Control;
                    },
                },
                None => {
                    return ParseOutcome::Control;
                },
            };
            let bids_arr = match rf.get("bids") {
                Some(x) => match x.as_array() {
                    Some(xs) => xs,
                    None => {
                        return ParseOutcome::Control;
                    },
                },
                None => {
                    return ParseOutcome::Control;
                },
            };
            let sym = match rf.get("s") {
                Some(x) => match x.as_str() {
                    Some(s) => s,
                    None => {
                        return ParseOutcome::Control;
                    },
                },
                None => {
                    return ParseOutcome::Control;
                },
            };
            let ts = match rf.get("t") {
                Some(x) => match x.as_i64() {
                    Some(t) => t,
                    None => now,
                },
                None => now,
            };
            let asks = collect_levels(asks_arr);
            let bids = collect_levels(bids_arr);
            ParseOutcome::Market(
                MarketMessage::Book(
                    BookData {
                        exchange: exchange.to_owned(),
                        symbol: symbol_from_exchange(exchange, sym.as_str()),
                        timestamp: ts,
                        asks,
                        bids,
                    },
                ),
            )
        } else {
            ParseOutcome::Control
        }
    }
}

} // verus!
