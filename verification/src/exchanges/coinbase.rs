//! Coinbase adapter: the `matches` trade channel and `level2` book deltas.

use vstd::prelude::*;
use vstd::string::*;
use crate::ChannelType;
use crate::config::ExchangeConfig;
use crate::json::{json_of, parse_json, spec_as_str, spec_get_str, JsonValue};
use crate::schema::{
    BookData, BookLevel, BookModel, LevelModel, MarketMessage, MsgModel, OutcomeModel,
    ParseOutcome, TradeData, TradeModel,
};
use crate::strings::str_eq;
use crate::util::{spec_symbol_from_exchange, symbol_from_exchange};
use crate::wire::{append_str_array, spec_str_array};
use super::{
    map_symbols, spec_arr, spec_field, spec_idx, spec_map_to_exchange, spec_str_or,
    unknown_string, zero_string,
};

verus! {

/// Coinbase: pure protocol translation, no shared state.
pub struct CoinbaseAdapter;

/// The subscription payload for one channel.
pub open spec fn spec_cb_sub(channel: ChannelType, pairs: Seq<Seq<char>>) -> Seq<char> {
    let ids = spec_str_array(spec_map_to_exchange("coinbase"@, pairs));
    match channel {
        ChannelType::Trades => "{\"type\":\"subscribe\",\"product_ids\":"@ + ids
            + ",\"channels\":[\"matches\"]}"@,
        ChannelType::OrderBooks => "{\"type\":\"subscribe\",\"product_ids\":"@ + ids
            + ",\"channels\":[\"level2\"]}"@,
    }
}

/// One level-2 change entry: `[side, price, amount]`, all strings.
pub open spec fn spec_cb_change(x: JsonValue) -> Option<(Seq<char>, LevelModel)> {
    match (spec_idx(x, 0), spec_idx(x, 1), spec_idx(x, 2)) {
        (Some(a), Some(b), Some(c)) => match (spec_as_str(a), spec_as_str(b), spec_as_str(c)) {
            (Some(sd), Some(p), Some(q)) => if q == "0"@ {
                None
            } else {
                Some((sd, LevelModel { price: p, amount: q }))
            },
            _ => None,
        },
        _ => None,
    }
}

/// The changes of one side, malformed and zero entries dropped.
pub open spec fn spec_cb_side(chs: Seq<JsonValue>, want: Seq<char>) -> Seq<LevelModel>
    decreases chs.len(),
{
    if chs.len() == 0 {
        Seq::empty()
    } else {
        spec_cb_side(chs.drop_last(), want) + match spec_cb_change(chs.last()) {
            Some(p) => if p.0 == want {
                seq![p.1]
            } else {
                Seq::empty()
            },
            None => Seq::empty(),
        }
    }
}

/// Outcome of one decoded frame.
pub open spec fn spec_cb_frame(v: JsonValue, ex: Seq<char>, now: int) -> OutcomeModel {
    match spec_get_str(v, "type"@) {
        None => OutcomeModel::Control,
        Some(t) => if t == "match"@ {
            OutcomeModel::Market(
                MsgModel::Trade(
                    TradeModel {
                        exchange: ex,
                        symbol: spec_symbol_from_exchange(
                            ex,
                            spec_str_or(spec_get_str(v, "product_id"@), Seq::empty()),
                        ),
                        timestamp: now,
                        price: spec_str_or(spec_get_str(v, "price"@), "0"@),
                        amount: spec_str_or(spec_get_str(v, "size"@), "0"@),
                        side: spec_str_or(spec_get_str(v, "side"@), "unknown"@),
                    },
                ),
            )
        } else if t == "l2update"@ {
            match spec_get_str(v, "product_id"@) {
                None => OutcomeModel::Error,
                Some(pid) => match spec_arr(spec_field(v, "changes"@)) {
                    None => OutcomeModel::Control,
                    Some(chs) => OutcomeModel::Market(
                        MsgModel::Book(
                            BookModel {
                                exchange: ex,
                                symbol: spec_symbol_from_exchange(ex, pid),
                                timestamp: now,
                                asks: spec_cb_side(chs, "sell"@),
                                bids: spec_cb_side(chs, "buy"@),
                            },
                        ),
                    ),
                },
            }
        } else {
            OutcomeModel::Control
        },
    }
}

/// Outcome of one raw frame.
pub open spec fn spec_cb_outcome(j: Option<JsonValue>, ex: Seq<char>, now: int) -> OutcomeModel {
    match j {
        None => OutcomeModel::Error,
        Some(v) => spec_cb_frame(v, ex, now),
    }
}

/// A trade frame the venue recognizes as valid: a match event with a
/// cleanly normalizing product, decimal price and size, and a known side
/// word, stamped with the arrival clock.
pub open spec fn cb_recognizes_trade(v: JsonValue, now: int) -> bool {
    &&& spec_get_str(v, "type"@) == Some("match"@)
    &&& (match spec_get_str(v, "product_id"@) {
        Some(pid) => crate::schema::single_separator_symbol(pid, '-'),
        None => false,
    })
    &&& (match spec_get_str(v, "price"@) {
        Some(p) => crate::schema::is_decimal_text(p),
        None => false,
    })
    &&& (match spec_get_str(v, "size"@) {
        Some(a) => crate::schema::is_decimal_text(a),
        None => false,
    })
    &&& (spec_str_or(spec_get_str(v, "side"@), "unknown"@) == "buy"@ || spec_str_or(
        spec_get_str(v, "side"@),
        "unknown"@,
    ) == "sell"@)
    &&& now >= 0
}

/// For any trade frame the venue recognizes as valid, parsing returns
/// exactly one canonical message whose symbol is in `BASE/QUOTE` form,
/// whose price and amount are decimal strings, and whose timestamp is a
/// millisecond epoch value.
pub proof fn lemma_cb_recognized_trade_wellformed(v: JsonValue, now: int)
    requires
        cb_recognizes_trade(v, now),
    ensures
        spec_cb_frame(v, "coinbase"@, now) matches OutcomeModel::Market(m)
            && crate::schema::wellformed_message(m),
{
    broadcast use vstd::string::group_string_axioms;

    reveal_strlit("coinbase");
    reveal_strlit("gateio");
    reveal_strlit("mexc");
    reveal_strlit("binance");
    reveal_strlit("binanceus");
    reveal_strlit("match");
    reveal_strlit("l2update");
    assert("coinbase"@.len() == 8);
    assert("gateio"@.len() == 6);
    assert("mexc"@.len() == 4);
    assert("binance"@.len() == 7);
    assert("binanceus"@.len() == 9);
    let pid = match spec_get_str(v, "product_id"@) {
        Some(pid) => pid,
        None => Seq::empty(),
    };
    crate::schema::lemma_separated_symbol_normalized(pid, '-');
    assert(crate::util::spec_symbol_from_exchange("coinbase"@, pid)
        == crate::strings::spec_replace(pid, '-', '/'));
}

fn cb_change(x: &JsonValue) -> (r: Option<(String, BookLevel)>)
    ensures
        match r {
            Some(p) => spec_cb_change(*x) == Some((p.0@, p.1@)),
            None => spec_cb_change(*x) is None,
        },
{
    let a = match x.idx(0) {
        Some(y) => match y.as_str() {
            Some(s) => s,
            None => {
                return None;
            },
        },
        None => {
            return None;
        },
    };
    let b = match x.idx(1) {
        Some(y) => match y.as_str() {
            Some(s) => s,
            None => {
                return None;
            },
        },
        None => {
            return None;
        },
    };
    let c = match x.idx(2) {
        Some(y) => match y.as_str() {
            Some(s) => s,
            None => {
                return None;
            },
        },
        None => {
            return None;
        },
    };
    if str_eq(c.as_str(), "0") {
        return None;
    }
    Some((a.clone(), BookLevel { price: b.clone(), amount: c.clone() }))
}

impl CoinbaseAdapter {
    /// The canonical venue name.
    pub fn name(&self) -> (r: &'static str)
        ensures
            r@ == "coinbase"@,
    {
        "coinbase"
    }

    /// The venue endpoint.
    pub fn ws_url(&self) -> (r: &'static str)
        ensures
            r@ == "wss://ws-feed.exchange.coinbase.com"@,
    {
        "wss://ws-feed.exchange.coinbase.com"
    }

    /// Builds the subscription payload for one channel.
    pub fn build_subscribe_message(
        &self,
        channel: ChannelType,
        pairs: &Vec<String>,
        config: &ExchangeConfig,
        now: i64,
    ) -> (r: String)
        ensures
            r@ == spec_cb_sub(channel, pairs@.map_values(|s: String| s@)),
    {
        let ids = map_symbols("coinbase", pairs);
        let mut out = String::new();
        out.append("{\"type\":\"subscribe\",\"product_ids\":");
        append_str_array(&mut out, &ids);
        match channel {
            ChannelType::Trades => {
                out.append(",\"channels\":[\"matches\"]}");
            },
            ChannelType::OrderBooks => {
                out.append(",\"channels\":[\"level2\"]}");
            },
        }
        proof {
            assert(out@ =~= spec_cb_sub(channel, pairs@.map_values(|s: String| s@)));
        }
        out
    }

    /// Parses one raw frame into the canonical outcome.
    pub fn parse_message(&self, raw: &str, exchange: &str, now: i64) -> (r: ParseOutcome)
        ensures
            r@ == spec_cb_outcome(json_of(raw@), exchange@, now as int),
    {
        let v = match parse_json(raw) {
            Some(v) => v,
            None => {
                return ParseOutcome::Error;
            },
        };
        let t = match v.get("type") {
            Some(x) => match x.as_str() {
                Some(s) => s,
                None => {
                    return ParseOutcome::Control;
                },
            },
            None => {
                return ParseOutcome::Control;
            },
        };
        if str_eq(t.as_str(), "match") {
            let sym_raw: String = match v.get("product_id") {
                Some(x) => match x.as_str() {
                    Some(s) => s.clone(),
                    None => String::new(),
                },
                None => String::new(),
            };
            let price: String = match v.get("price") {
                Some(x) => match x.as_str() {
                    Some(s) => s.clone(),
                    None => zero_string(),
                },
                None => zero_string(),
            };
            let amount: String = match v.get("size") {
                Some(x) => match x.as_str() {
                    Some(s) => s.clone(),
                    None => zero_string(),
                },
                None => zero_string(),
            };
            let side: String = match v.get("side") {
                Some(x) => match x.as_str() {
                    Some(s) => s.clone(),
                    None => unknown_string(),
                },
                None => unknown_string(),
            };
            ParseOutcome::Market(
                MarketMessage::Trade(
                    TradeData {
                        exchange: exchange.to_owned(),
                        symbol: symbol_from_exchange(exchange, sym_raw.as_str()),
                        timestamp: now,
                        price,
                        amount,
                        side,
                    },
                ),
            )
        } else if str_eq(t.as_str(), "l2update") {
            let pid = match v.get("product_id") {
                Some(x) => match x.as_str() {
                    Some(s) => s,
                    None => {
                        return ParseOutcome::Error;
                    },
                },
                None => {
                    return ParseOutcome::Error;
                },
            };
            let chs = match v.get("changes") {
                Some(x) => match x.as_array() {
                    Some(xs) => xs,
                    None => {
                        return ParseOutcome::Control;
                    },
                },
                None => {
                    return ParseOutcome::Control;
                },
            };
            let n = chs.len();
            let mut asks: Vec<BookLevel> = Vec::new();
            let mut bids: Vec<BookLevel> = Vec::new();
            let mut i: usize = 0;
            while i < n
                invariant
                    n == chs@.len(),
                    i <= n,
                    asks@.map_values(|l: BookLevel| l@) == spec_cb_side(
                        chs@.subrange(0, i as int),
                        "sell"@,
                    ),
                    bids@.map_values(|l: BookLevel| l@) == spec_cb_side(
                        chs@.subrange(0, i as int),
                        "buy"@,
                    ),
                decreases n - i,
            {
                proof {
                    reveal_strlit("buy");
                    reveal_strlit("sell");
                    assert(chs@.subrange(0, i + 1).drop_last() =~= chs@.subrange(0, i as int));
                    assert(chs@.subrange(0, i + 1).last() == chs@[i as int]);
                }
                let ghost pre_a = asks@.map_values(|l: BookLevel| l@);
                let ghost pre_b = bids@.map_values(|l: BookLevel| l@);
                match cb_change(&chs[i]) {
                    Some(p) => {
                        proof {
                            assert(spec_cb_change(chs@[i as int]) == Some((p.0@, p.1@)));
                        }
                        if str_eq(p.0.as_str(), "buy") {
                            proof {
                                reveal_strlit("buy");
                                reveal_strlit("sell");
                                assert("buy"@.len() == 3);
                                assert("sell"@.len() == 4);
                                assert(p.0@ != "sell"@);
                            }
                            let ghost lv = p.1@;
                            bids.push(p.1);
                            proof {
                                assert(bids@.map_values(|l: BookLevel| l@) =~= pre_b.push(lv));
                                assert(bids@.map_values(|l: BookLevel| l@) =~= spec_cb_side(
                                    chs@.subrange(0, i + 1),
                                    "buy"@,
                                ));
                                assert(asks@.map_values(|l: BookLevel| l@) =~= spec_cb_side(
                                    chs@.subrange(0, i + 1),
                                    "sell"@,
                                ));
                            }
                        } else if str_eq(p.0.as_str(), "sell") {
                            let ghost lv = p.1@;
                            asks.push(p.1);
                            proof {
                                assert(asks@.map_values(|l: BookLevel| l@) =~= pre_a.push(lv));
                                assert(asks@.map_values(|l: BookLevel| l@) =~= spec_cb_side(
                                    chs@.subrange(0, i + 1),
                                    "sell"@,
                                ));
                                assert(bids@.map_values(|l: BookLevel| l@) =~= spec_cb_side(
                                    chs@.subrange(0, i + 1),
                                    "buy"@,
                                ));
                            }
                        } else {
                            proof {
                                assert(asks@.map_values(|l: BookLevel| l@) =~= spec_cb_side(
                                    chs@.subrange(0, i + 1),
                                    "sell"@,
                                ));
                                assert(bids@.map_values(|l: BookLevel| l@) =~= spec_cb_side(
                                    chs@.subrange(0, i + 1),
                                    "buy"@,
                                ));
                            }
                        }
                    },
                    None => {
                        proof {
                            assert(asks@.map_values(|l: BookLevel| l@) =~= spec_cb_side(
                                chs@.subrange(0, i + 1),
                                "sell"@,
                            ));
                            assert(bids@.map_values(|l: BookLevel| l@) =~= spec_cb_side(
                                chs@.subrange(0, i + 1),
                                "buy"@,
                            ));
                        }
                    },
                }
                i += 1;
            }
            proof {
                assert(chs@.subrange(0, n as int) =~= chs@);
            }
            ParseOutcome::Market(
                MarketMessage::Book(
                    BookData {
                        exchange: exchange.to_owned(),
                        symbol: symbol_from_exchange(exchange, pid.as_str()),
                        timestamp: now,
                        asks,
                        bids,
                    },
                ),
            )
        } else {
            ParseOutcome::Control
        }
    }
}

} // verus!
