//! Bitfinex adapter: spot trades. Trade frames carry a numeric channel
//! identifier that was announced in an earlier subscribe acknowledgement,
//! so the adapter keeps a channel-to-symbol map across calls.

use vstd::prelude::*;
use vstd::string::*;
use crate::ChannelType;
use crate::config::ExchangeConfig;
use crate::json::{
    json_of, parse_json, spec_get_i64, spec_get_str, JsonValue,
};
use crate::schema::{MarketMessage, MsgModel, OutcomeModel, ParseOutcome, TradeData, TradeModel};
use crate::strings::{push_char, str_eq};
use crate::util::{spec_symbol_from_exchange, symbol_from_exchange, symbol_to_exchange};
use crate::wire::{append_quoted, spec_quoted};
use super::{num_text, spec_arr, spec_idx, spec_num_text};

verus! {

/// Bitfinex: keeps the channel-to-symbol announcements between calls.
pub struct BitfinexAdapter {
    /// Announced channel identifiers and their normalized symbols, in
    /// announcement order.
    pub chan_map: Vec<(i64, String)>,
    /// Parsed trades waiting to be emitted, oldest first.
    pub trade_buffer: Vec<MarketMessage>,
}

/// The channel map as id-to-symbol pairs.
pub open spec fn chan_model(m: Seq<(i64, String)>) -> Seq<(i64, Seq<char>)> {
    m.map_values(|p: (i64, String)| (p.0, p.1@))
}

/// The symbol a channel identifier resolves to: the latest announcement
/// wins, as an overwriting map insert would.
pub open spec fn spec_chan_lookup(m: Seq<(i64, Seq<char>)>, id: i64) -> Option<Seq<char>>
    decreases m.len(),
{
    if m.len() == 0 {
        None
    } else if m.last().0 == id {
        Some(m.last().1)
    } else {
        spec_chan_lookup(m.drop_last(), id)
    }
}

/// The side of a trade, read from the sign of the raw amount's decimal
/// text: unsigned means a buy, signed or non-numeric means a sell. A
/// trade whose amount is exactly zero therefore counts as a buy — a
/// deliberate policy of this textual reading (the feed carries no
/// zero-amount trades), as floats are kept out of the engine.
pub open spec fn spec_bfx_side(a: JsonValue) -> Seq<char> {
    match a {
        JsonValue::Num(t) => if t@.len() > 0 && t@[0] != '-' {
            "buy"@
        } else {
            "sell"@
        },
        _ => "sell"@,
    }
}

/// The amount of a trade: the raw number's text with its sign stripped.
pub open spec fn spec_bfx_amount(a: JsonValue) -> Seq<char> {
    match a {
        JsonValue::Num(t) => if t@.len() > 0 && t@[0] == '-' {
            t@.drop_first()
        } else {
            t@
        },
        _ => "0"@,
    }
}

/// The subscription payload: one symbol per request on the trades
/// channel; the order-book channel is not offered.
pub open spec fn spec_bfx_sub(channel: ChannelType, pairs: Seq<Seq<char>>) -> Seq<char> {
    match channel {
        ChannelType::Trades => "{\"event\":\"subscribe\",\"channel\":\"trades\",\"symbol\":"@
            + spec_quoted(crate::util::spec_symbol_to_exchange("bitfinex"@, pairs[0])) + "}"@,
        ChannelType::OrderBooks => "{}"@,
    }
}

/// Outcome of one raw frame arriving while the buffer is empty: the
/// returned outcome and the channel map afterwards.
pub open spec fn spec_bfx_parse(
    j: Option<JsonValue>,
    ex: Seq<char>,
    now: int,
    chan: Seq<(i64, Seq<char>)>,
) -> (OutcomeModel, Seq<(i64, Seq<char>)>) {
    match j {
        None => (OutcomeModel::Error, chan),
        Some(v) => if v is Obj {
            if spec_get_str(v, "event"@) == Some("subscribed"@) && spec_get_str(v, "channel"@)
                == Some("trades"@) {
                match (spec_get_i64(v, "chanId"@), spec_get_str(v, "symbol"@)) {
                    (Some(id), Some(sym)) => (
                        OutcomeModel::Control,
                        chan.push((id, spec_symbol_from_exchange(ex, sym))),
                    ),
                    _ => (OutcomeModel::Control, chan),
                }
            } else {
                (OutcomeModel::Control, chan)
            }
        } else {
            match spec_arr(v) {
                None => (OutcomeModel::Control, chan),
                Some(arr) => if arr.len() < 2 {
                    (OutcomeModel::Control, chan)
                } else {
                    match crate::json::spec_as_i64(arr[0]) {
                        None => (OutcomeModel::Control, chan),
                        Some(id) => if crate::json::spec_as_str(arr[1]) != Some("tu"@) {
                            (OutcomeModel::Control, chan)
                        } else {
                            match spec_idx(v, 2) {
                                None => (OutcomeModel::Control, chan),
                                Some(te) => match spec_arr(te) {
                                    None => (OutcomeModel::Control, chan),
                                    Some(trade) => if trade.len() < 4 {
                                        (OutcomeModel::Control, chan)
                                    } else {
                                        match spec_chan_lookup(chan, id) {
                                            None => (OutcomeModel::Control, chan),
                                            Some(sym) => (
                                                OutcomeModel::Market(
                                                    MsgModel::Trade(
                                                        TradeModel {
                                                            exchange: ex,
                                                            symbol: sym,
                                                            timestamp: match crate::json::spec_as_i64(
                                                                trade[1],
                                                            ) {
                                                                Some(t) => t as int,
                                                                None => now,
                                                            },
                                                            price: spec_num_text(trade[3]),
                                                            amount: spec_bfx_amount(trade[2]),
                                                            side: spec_bfx_side(trade[2]),
                                                        },
                                                    ),
                                                ),
                                                chan,
                                            ),
                                        }
                                    },
                                },
                            }
                        },
                    }
                },
            }
        },
    }
}

/// An announcement whose symbol splits cleanly is stored normalized: the
/// channel map gains exactly one entry, and its symbol is in
/// `BASE/QUOTE` form, so every later trade resolved through it carries a
/// normalized symbol.
pub proof fn lemma_bfx_announcement_normalized(
    v: JsonValue,
    now: int,
    chan: Seq<(i64, Seq<char>)>,
)
    requires
        v is Obj,
        spec_get_str(v, "event"@) == Some("subscribed"@),
        spec_get_str(v, "channel"@) == Some("trades"@),
        spec_get_i64(v, "chanId"@) is Some,
        (match spec_get_str(v, "symbol"@) {
            Some(s) => super::binance_like::binance_symbol_ok(s),
            None => false,
        }),
    ensures
        spec_bfx_parse(Some(v), "bitfinex"@, now, chan).0 == OutcomeModel::Control,
        ({
            let nc = spec_bfx_parse(Some(v), "bitfinex"@, now, chan).1;
            nc.len() == chan.len() + 1 && crate::schema::is_normalized_symbol(nc.last().1)
        }),
{
    broadcast use vstd::string::group_string_axioms;

    reveal_strlit("bitfinex");
    reveal_strlit("gateio");
    reveal_strlit("mexc");
    reveal_strlit("binance");
    reveal_strlit("binanceus");
    reveal_strlit("okx");
    reveal_strlit("kucoin");
    reveal_strlit("coinbase");
    reveal_strlit("bybit");
    reveal_strlit("bitrue");
    reveal_strlit("bitstamp");
    assert("bitfinex"@ != "coinbase"@) by {
        assert("bitfinex"@[0] == 'b');
        assert("coinbase"@[0] == 'c');
    }
    assert("bitfinex"@ != "bitstamp"@) by {
        assert("bitfinex"@[3] == 'f');
        assert("bitstamp"@[3] == 's');
    }
    assert("bitfinex"@.len() == 8);
    assert("gateio"@.len() == 6);
    assert("mexc"@.len() == 4);
    assert("binance"@.len() == 7);
    assert("binanceus"@.len() == 9);
    assert("okx"@.len() == 3);
    assert("kucoin"@.len() == 6);
    assert("bybit"@.len() == 5);
    assert("bitrue"@.len() == 6);
    let sym = match spec_get_str(v, "symbol"@) {
        Some(s) => s,
        None => Seq::empty(),
    };
    super::binance_like::lemma_binance_symbol_normalized(sym);
    assert(crate::util::spec_symbol_from_exchange("bitfinex"@, sym)
        == crate::util::spec_concat_from(sym));
}

/// A trade frame the venue recognizes as valid: a `tu` frame whose
/// channel identifier was announced and resolved to a normalized symbol,
/// with decimal price and amount and a nonnegative timestamp.
pub open spec fn bfx_recognizes_trade(v: JsonValue, now: int, chan: Seq<(i64, Seq<char>)>) -> bool {
    &&& !(v is Obj)
    &&& (match spec_arr(v) {
        Some(arr) => arr.len() >= 2 && (match crate::json::spec_as_i64(arr[0]) {
            Some(id) => crate::json::spec_as_str(arr[1]) == Some("tu"@) && (match spec_idx(v, 2) {
                Some(te) => (match spec_arr(te) {
                    Some(trade) => trade.len() >= 4 && (match spec_chan_lookup(chan, id) {
                        Some(sym) => {
                            &&& crate::schema::is_normalized_symbol(sym)
                            &&& crate::schema::is_decimal_text(spec_num_text(trade[3]))
                            &&& crate::schema::is_decimal_text(spec_bfx_amount(trade[2]))
                            &&& (match crate::json::spec_as_i64(trade[1]) {
                                Some(t) => t >= 0,
                                None => now >= 0,
                            })
                        },
                        None => false,
                    }),
                    None => false,
                }),
                None => false,
            }),
            None => false,
        }),
        None => false,
    })
}

/// For any trade frame the venue recognizes as valid, parsing while no
/// buffered message is pending returns exactly one canonical message
/// whose symbol is in `BASE/QUOTE` form, whose price and amount are
/// decimal strings, and whose timestamp is a millisecond epoch value.
pub proof fn lemma_bfx_recognized_trade_wellformed(
    v: JsonValue,
    now: int,
    chan: Seq<(i64, Seq<char>)>,
)
    requires
        bfx_recognizes_trade(v, now, chan),
    ensures
        spec_bfx_parse(Some(v), "bitfinex"@, now, chan).0 matches OutcomeModel::Market(m)
            && crate::schema::wellformed_message(m),
{
}

fn chan_lookup(m: &Vec<(i64, String)>, id: i64) -> (r: Option<String>)
    ensures
        match r {
            Some(s) => spec_chan_lookup(chan_model(m@), id) == Some(s@),
            None => spec_chan_lookup(chan_model(m@), id) is None,
        },
{
    let mut i = m.len();
    proof {
        assert(chan_model(m@).subrange(0, m@.len() as int) =~= chan_model(m@));
    }
    while i > 0
        invariant
            i <= m@.len(),
            spec_chan_lookup(chan_model(m@), id) == spec_chan_lookup(
                chan_model(m@).subrange(0, i as int),
                id,
            ),
        decreases i,
    {
        i = i - 1;
        proof {
            assert(chan_model(m@).subrange(0, i + 1).drop_last() =~= chan_model(m@).subrange(
                0,
                i as int,
            ));
            assert(chan_model(m@).subrange(0, i + 1).last() == chan_model(m@)[i as int]);
            assert(chan_model(m@)[i as int] == (m@[i as int].0, m@[i as int].1@));
        }
        if m[i].0 == id {
            return Some(m[i].1.clone());
        }
    }
    proof {
        assert(chan_model(m@).subrange(0, 0).len() == 0);
    }
    None
}

impl BitfinexAdapter {
    /// A fresh adapter with no announcements and an empty buffer.
    pub fn new() -> (r: BitfinexAdapter)
        ensures
            r.chan_map@.len() == 0,
            r.trade_buffer@.len() == 0,
    {
        BitfinexAdapter { chan_map: Vec::new(), trade_buffer: Vec::new() }
    }

    /// The canonical venue name.
    pub fn name(&self) -> (r: &'static str)
        ensures
            r@ == "bitfinex"@,
    {
        "bitfinex"
    }

    /// The venue endpoint.
    pub fn ws_url(&self) -> (r: &'static str)
        ensures
            r@ == "wss://api-pub.bitfinex.com/ws/2"@,
    {
        "wss://api-pub.bitfinex.com/ws/2"
    }

    /// Builds the subscription payload for one channel.
    pub fn build_subscribe_message(
        &self,
        channel: ChannelType,
        pairs: &Vec<String>,
        config: &ExchangeConfig,
        now: i64,
    ) -> (r: String)
        requires
            channel == ChannelType::Trades ==> pairs@.len() > 0,
        ensures
            r@ == spec_bfx_sub(channel, pairs@.map_values(|s: String| s@)),
    {
        let mut out = String::new();
        match channel {
            ChannelType::Trades => {
                let sym = symbol_to_exchange("bitfinex", pairs[0].as_str());
                out.append("{\"event\":\"subscribe\",\"channel\":\"trades\",\"symbol\":");
                append_quoted(&mut out, sym.as_str());
                out.append("}");
                proof {
                    assert(out@ =~= spec_bfx_sub(
                        ChannelType::Trades,
                        pairs@.map_values(|s: String| s@),
                    ));
                }
            },
            ChannelType::OrderBooks => {
                out.append("{}");
                proof {
                    assert(out@ =~= "{}"@);
                }
            },
        }
        out
    }

    /// Parses one raw frame. A pending buffered trade is emitted first; in
    /// that case the frame itself is not decoded.
    pub fn parse_message(&mut self, raw: &str, exchange: &str, now: i64) -> (r: ParseOutcome)
        ensures
            old(self).trade_buffer@.len() > 0 ==> (r@ == OutcomeModel::Market(
                old(self).trade_buffer@[0]@,
            ) && final(self).trade_buffer@ == old(self).trade_buffer@.drop_first() && chan_model(
                final(self).chan_map@,
            ) == chan_model(old(self).chan_map@)),
            old(self).trade_buffer@.len() == 0 ==> {
                let (outcome, new_chan) = spec_bfx_parse(
                    json_of(raw@),
                    exchange@,
                    now as int,
                    chan_model(old(self).chan_map@),
                );
                &&& r@ == outcome
                &&& chan_model(final(self).chan_map@) == new_chan
                &&& final(self).trade_buffer@.len() == 0
            },
    {
        if self.trade_buffer.len() > 0 {
            let m = self.trade_buffer.remove(0);
            proof {
                assert(self.trade_buffer@ =~= old(self).trade_buffer@.drop_first());
            }
            return ParseOutcome::Market(m);
        }
        let v = match parse_json(raw) {
            Some(v) => v,
            None => {
                return ParseOutcome::Error;
            },
        };
        if v.is_object() {
            let is_sub: bool = match v.get("event") {
                Some(x) => match x.as_str() {
                    Some(s) => str_eq(s.as_str(), "subscribed"),
                    None => false,
                },
                None => false,
            };
            let is_trades: bool = match v.get("channel") {
                Some(x) => match x.as_str() {
                    Some(s) => str_eq(s.as_str(), "trades"),
                    None => false,
                },
                None => false,
            };
            if is_sub && is_trades {
                let id_opt: Option<i64> = match v.get("chanId") {
                    Some(x) => x.as_i64(),
                    None => None,
                };
                let sym_opt: Option<&String> = match v.get("symbol") {
                    Some(x) => x.as_str(),
                    None => None,
                };
                match (id_opt, sym_opt) {
                    (Some(id), Some(sym)) => {
                        let ghost pre = chan_model(self.chan_map@);
                        let norm = symbol_from_exchange(exchange, sym.as_str());
                        self.chan_map.push((id, norm));
                        proof {
                            assert(chan_model(self.chan_map@) =~= pre.push(
                                (
                                    self.chan_map@.last().0,
                                    self.chan_map@.last().1@,
                                ),
                            ));
                        }
                        return ParseOutcome::Control;
                    },
                    _ => {
                        return ParseOutcome::Control;
                    },
                }
            }
            return ParseOutcome::Control;
        }
        let arr = match v.as_array() {
            Some(a) => a,
            None => {
                return ParseOutcome::Control;
            },
        };
        if arr.len() < 2 {
            return ParseOutcome::Control;
        }
        let id = match arr[0].as_i64() {
            Some(id) => id,
            None => {
                return ParseOutcome::Control;
            },
        };
        let is_tu: bool = match arr[1].as_str() {
            Some(s) => str_eq(s.as_str(), "tu"),
            None => false,
        };
        if !is_tu {
            return ParseOutcome::Control;
        }
        if arr.len() < 3 {
            return ParseOutcome::Control;
        }
        let trade = match arr[2].as_array() {
            Some(t) => t,
            None => {
                return ParseOutcome::Control;
            },
        };
        if trade.len() < 4 {
            return ParseOutcome::Control;
        }
        let sym = match chan_lookup(&self.chan_map, id) {
            Some(s) => s,
            None => {
                return ParseOutcome::Control;
            },
        };
        let ts: i64 = match trade[1].as_i64() {
            Some(t) => t,
            None => now,
        };
        let price = num_text(&trade[3]);
        let amount_v = &trade[2];
        let side: String = match amount_v {
            JsonValue::Num(t) => {
                let n = t.as_str().unicode_len();
                if n > 0 && t.as_str().get_char(0) != '-' {
                    let mut s = String::new();
                    s.append("buy");
                    proof {
                        assert(s@ =~= "buy"@);
                    }
                    s
                } else {
                    sell_string()
                }
            },
            _ => sell_string(),
        };
        let amount: String = match amount_v {
            JsonValue::Num(t) => {
                let n = t.as_str().unicode_len();
                if n > 0 && t.as_str().get_char(0) == '-' {
                    t.as_str().substring_char(1, n).to_owned()
                } else {
                    t.clone()
                }
            },
            _ => super::zero_string(),
        };
        ParseOutcome::Market(
            MarketMessage::Trade(
                TradeData {
                    exchange: exchange.to_owned(),
                    symbol: sym,
                    timestamp: ts,
                    price,
                    amount,
                    side,
                },
            ),
        )
    }
}

fn sell_string() -> (r: String)
    ensures
        r@ == "sell"@,
{
    let mut s = String::new();
    s.append("sell");
    proof {
        assert(s@ =~= "sell"@);
    }
    s
}

} // verus!
