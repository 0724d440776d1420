//! Kraken v2 adapter: trade batches. One wire frame may carry several
//! trades; the adapter buffers them and hands out at most one canonical
//! message per `parse_message` call, draining the buffer on later calls.

use vstd::prelude::*;
use vstd::string::*;
use crate::ChannelType;
use crate::config::ExchangeConfig;
use crate::json::{json_of, parse_json, spec_get_str, JsonValue};
use crate::schema::{MarketMessage, MsgModel, OutcomeModel, ParseOutcome, TradeData, TradeModel};
use crate::strings::str_eq;
use crate::util::{spec_symbol_from_exchange, symbol_from_exchange};
use crate::wire::{append_str_array, spec_str_array};
use super::{
    map_symbols, num_text, spec_arr, spec_field, spec_map_to_exchange, spec_num_text,
    spec_str_or, unknown_string,
};

verus! {

/// The epoch milliseconds a valid RFC 3339 text denotes; `None` for any
/// other text. The reading depends on the text alone.
pub uninterp spec fn rfc3339_ms_of(s: Seq<char>) -> Option<i64>;

/// Relies on `chrono::DateTime::parse_from_rfc3339` and
/// `timestamp_millis`: decides whether the text is a valid RFC 3339 date
/// and converts it to epoch milliseconds.
#[verifier::external_body]
fn rfc3339_to_ms(s: &str) -> (r: Option<i64>)
    ensures
        r == rfc3339_ms_of(s@),
{
    chrono::DateTime::parse_from_rfc3339(s).ok().map(|dt| dt.timestamp_millis())
}

/// Kraken v2: buffers the tail of a trade batch between calls.
pub struct KrakenV2Adapter {
    /// Parsed trades waiting to be emitted, oldest first.
    pub trade_buffer: Vec<MarketMessage>,
}

/// The buffer as a sequence of message models.
pub open spec fn buf_model(b: Seq<MarketMessage>) -> Seq<MsgModel> {
    b.map_values(|m: MarketMessage| m@)
}

/// The subscription payload for one channel.
pub open spec fn spec_kraken_sub(channel: ChannelType, pairs: Seq<Seq<char>>) -> Seq<char> {
    let syms = spec_str_array(spec_map_to_exchange("kraken"@, pairs));
    match channel {
        ChannelType::Trades => "{\"method\":\"subscribe\",\"params\":{\"channel\":\"trade\",\"symbol\":"@
            + syms + "}}"@,
        ChannelType::OrderBooks => "{\"method\":\"subscribe\",\"params\":{\"channel\":\"book\",\"symbol\":"@
            + syms + ",\"depth\":20}}"@,
    }
}

/// The timestamp field: an RFC 3339 text, read as epoch milliseconds.
pub open spec fn spec_kraken_ts(o: Option<Seq<char>>, now: int) -> int {
    match o {
        Some(s) => match rfc3339_ms_of(s) {
            Some(ms) => ms as int,
            None => now,
        },
        None => now,
    }
}

/// One trade of a batch, with the venue's defaults for missing fields.
pub open spec fn spec_kraken_trade(t: JsonValue, ex: Seq<char>, now: int) -> MsgModel {
    MsgModel::Trade(
        TradeModel {
            exchange: ex,
            symbol: spec_symbol_from_exchange(
                ex,
                spec_str_or(spec_get_str(t, "symbol"@), Seq::empty()),
            ),
            timestamp: spec_kraken_ts(spec_get_str(t, "timestamp"@), now),
            price: spec_num_text(spec_field(t, "price"@)),
            amount: spec_num_text(spec_field(t, "qty"@)),
            side: spec_str_or(spec_get_str(t, "side"@), "unknown"@),
        },
    )
}

/// Outcome of one raw frame arriving while the buffer is empty: the
/// returned outcome and the trades left in the buffer.
pub open spec fn spec_kraken_parse(j: Option<JsonValue>, ex: Seq<char>, now: int) -> (
    OutcomeModel,
    Seq<MsgModel>,
) {
    match j {
        None => (OutcomeModel::Error, Seq::empty()),
        Some(v) => {
            let ch = spec_get_str(v, "channel"@);
            if ch == Some("heartbeat"@) {
                (OutcomeModel::Control, Seq::empty())
            } else if spec_get_str(v, "type"@) != Some("update"@) {
                (OutcomeModel::Control, Seq::empty())
            } else if ch == Some("trade"@) {
                match spec_arr(spec_field(v, "data"@)) {
                    Some(ds) => if ds.len() == 0 {
                        (OutcomeModel::Control, Seq::empty())
                    } else {
                        let trades = ds.map_values(|t: JsonValue| spec_kraken_trade(t, ex, now));
                        (OutcomeModel::Market(trades[0]), trades.drop_first())
                    },
                    None => (OutcomeModel::Control, Seq::empty()),
                }
            } else {
                (OutcomeModel::Control, Seq::empty())
            }
        },
    }
}

/// A trade batch the venue recognizes as valid, judged by its first
/// trade: the update envelope on the trade channel, a symbol already in
/// the internal form, decimal price and quantity, a known side word, and
/// a valid nonnegative timestamp.
pub open spec fn kraken_recognizes_trade(v: JsonValue, now: int) -> bool {
    &&& spec_get_str(v, "channel"@) == Some("trade"@)
    &&& spec_get_str(v, "type"@) == Some("update"@)
    &&& (match spec_arr(spec_field(v, "data"@)) {
        Some(ds) => ds.len() > 0 && ({
            let t = ds[0];
            &&& (match spec_get_str(t, "symbol"@) {
                Some(s) => crate::schema::is_normalized_symbol(s),
                None => false,
            })
            &&& crate::schema::is_decimal_text(spec_num_text(spec_field(t, "price"@)))
            &&& crate::schema::is_decimal_text(spec_num_text(spec_field(t, "qty"@)))
            &&& (spec_get_str(t, "side"@) == Some("buy"@) || spec_get_str(t, "side"@) == Some(
                "sell"@,
            ))
            &&& spec_kraken_ts(spec_get_str(t, "timestamp"@), now) >= 0
        }),
        None => false,
    })
}

/// For any trade batch the venue recognizes as valid, parsing while no
/// buffered message is pending returns exactly one canonical message
/// whose symbol is in `BASE/QUOTE` form, whose price and amount are
/// decimal strings, and whose timestamp is a millisecond epoch value.
pub proof fn lemma_kraken_recognized_trade_wellformed(v: JsonValue, now: int)
    requires
        kraken_recognizes_trade(v, now),
    ensures
        spec_kraken_parse(Some(v), "kraken"@, now).0 matches OutcomeModel::Market(m)
            && crate::schema::wellformed_message(m),
{
    broadcast use vstd::string::group_string_axioms;

    reveal_strlit("kraken");
    reveal_strlit("gateio");
    reveal_strlit("mexc");
    reveal_strlit("binance");
    reveal_strlit("binanceus");
    reveal_strlit("okx");
    reveal_strlit("kucoin");
    reveal_strlit("coinbase");
    reveal_strlit("bybit");
    reveal_strlit("bitrue");
    reveal_strlit("trade");
    reveal_strlit("heartbeat");
    assert("kraken"@ != "gateio"@) by {
        assert("kraken"@[0] == 'k');
        assert("gateio"@[0] == 'g');
    }
    assert("kraken"@ != "kucoin"@) by {
        assert("kraken"@[1] == 'r');
        assert("kucoin"@[1] == 'u');
    }
    assert("kraken"@ != "bitrue"@) by {
        assert("kraken"@[0] == 'k');
        assert("bitrue"@[0] == 'b');
    }
    reveal_strlit("bitfinex");
    reveal_strlit("bitstamp");
    assert("kraken"@.len() == 6);
    assert("mexc"@.len() == 4);
    assert("binance"@.len() == 7);
    assert("binanceus"@.len() == 9);
    assert("okx"@.len() == 3);
    assert("coinbase"@.len() == 8);
    assert("bybit"@.len() == 5);
    assert("bitfinex"@.len() == 8);
    assert("bitstamp"@.len() == 8);
    assert("trade"@ != "heartbeat"@) by {
        assert("trade"@.len() == 5);
        assert("heartbeat"@.len() == 9);
    }
    let ds = match spec_arr(spec_field(v, "data"@)) {
        Some(ds) => ds,
        None => Seq::empty(),
    };
    let t = ds[0];
    let sym = match spec_get_str(t, "symbol"@) {
        Some(s) => s,
        None => Seq::empty(),
    };
    assert(crate::util::spec_symbol_from_exchange("kraken"@, sym) == sym);
    let trades = ds.map_values(|x: JsonValue| spec_kraken_trade(x, "kraken"@, now));
    assert(trades[0] == spec_kraken_trade(t, "kraken"@, now));
}

impl KrakenV2Adapter {
    /// A fresh adapter with an empty batch buffer.
    pub fn new() -> (r: KrakenV2Adapter)
        ensures
            r.trade_buffer@.len() == 0,
    {
        KrakenV2Adapter { trade_buffer: Vec::new() }
    }

    /// The canonical venue name.
    pub fn name(&self) -> (r: &'static str)
        ensures
            r@ == "kraken"@,
    {
        "kraken"
    }

    /// The venue endpoint.
    pub fn ws_url(&self) -> (r: &'static str)
        ensures
            r@ == "wss://ws.kraken.com/v2"@,
    {
        "wss://ws.kraken.com/v2"
    }

    /// Builds the subscription payload for one channel.
    pub fn build_subscribe_message(
        &self,
        channel: ChannelType,
        pairs: &Vec<String>,
        config: &ExchangeConfig,
        now: i64,
    ) -> (r: String)
        ensures
            r@ == spec_kraken_sub(channel, pairs@.map_values(|s: String| s@)),
    {
        let syms = map_symbols("kraken", pairs);
        let mut out = String::new();
        match channel {
            ChannelType::Trades => {
                out.append("{\"method\":\"subscribe\",\"params\":{\"channel\":\"trade\",\"symbol\":");
                append_str_array(&mut out, &syms);
                out.append("}}");
            },
            ChannelType::OrderBooks => {
                out.append("{\"method\":\"subscribe\",\"params\":{\"channel\":\"book\",\"symbol\":");
                append_str_array(&mut out, &syms);
                out.append(",\"depth\":20}}");
            },
        }
        proof {
            assert(out@ =~= spec_kraken_sub(channel, pairs@.map_values(|s: String| s@)));
        }
        out
    }

    /// Parses one raw frame. A pending buffered trade is emitted first; in
    /// that case the frame itself is not decoded.
    pub fn parse_message(&mut self, raw: &str, exchange: &str, now: i64) -> (r: ParseOutcome)
        ensures
            old(self).trade_buffer@.len() > 0 ==> (r@ == OutcomeModel::Market(
                old(self).trade_buffer@[0]@,
            ) && final(self).trade_buffer@ == old(self).trade_buffer@.drop_first()),
            old(self).trade_buffer@.len() == 0 ==> {
                let (outcome, rest) = spec_kraken_parse(json_of(raw@), exchange@, now as int);
                r@ == outcome && buf_model(final(self).trade_buffer@) == rest
            },
    {
        if self.trade_buffer.len() > 0 {
            let m = self.trade_buffer.remove(0);
            proof {
                assert(self.trade_buffer@ =~= old(self).trade_buffer@.drop_first());
            }
            return ParseOutcome::Market(m);
        }
        let v = match parse_json(raw) {
            Some(v) => v,
            None => {
                return ParseOutcome::Error;
            },
        };
        let ch: Option<&String> = match v.get("channel") {
            Some(x) => x.as_str(),
            None => None,
        };
        let is_heartbeat: bool = match ch {
            Some(s) => str_eq(s.as_str(), "heartbeat"),
            None => false,
        };
        if is_heartbeat {
            return ParseOutcome::Control;
        }
        let is_update: bool = match v.get("type") {
            Some(x) => match x.as_str() {
                Some(s) => str_eq(s.as_str(), "update"),
                None => false,
            },
            None => false,
        };
        if !is_update {
            return ParseOutcome::Control;
        }
        let is_trade: bool = match ch {
            Some(s) => str_eq(s.as_str(), "trade"),
            None => false,
        };
        if !is_trade {
            return ParseOutcome::Control;
        }
        let ds = match v.get("data") {
            Some(x) => match x.as_array() {
                Some(xs) => xs,
                None => {
                    return ParseOutcome::Control;
                },
            },
            None => {
                return ParseOutcome::Control;
            },
        };
        let n = ds.len();
        if n == 0 {
            return ParseOutcome::Control;
        }
        let ghost trades = ds@.map_values(
            |t: JsonValue| spec_kraken_trade(t, exchange@, now as int),
        );
        let mut i: usize = 0;
        while i < n
            invariant
                n == ds@.len(),
                i <= n,
                trades == ds@.map_values(
                    |t: JsonValue| spec_kraken_trade(t, exchange@, now as int),
                ),
                buf_model(self.trade_buffer@) == trades.subrange(0, i as int),
            decreases n - i,
        {
            let t = &ds[i];
            let sym_raw: String = match t.get("symbol") {
                Some(x) => match x.as_str() {
                    Some(s) => s.clone(),
                    None => String::new(),
                },
                None => String::new(),
            };
            let ts: i64 = match t.get("timestamp") {
                Some(x) => match x.as_str() {
                    Some(s) => match rfc3339_to_ms(s.as_str()) {
                        Some(ms) => ms,
                        None => now,
                    },
                    None => now,
                },
                None => now,
            };
            let price: String = match t.get("price") {
                Some(x) => num_text(x),
                None => num_text(&JsonValue::Null),
            };
            let amount: String = match t.get("qty") {
                Some(x) => num_text(x),
                None => num_text(&JsonValue::Null),
            };
            let side: String = match t.get("side") {
                Some(x) => match x.as_str() {
                    Some(s) => s.clone(),
                    None => unknown_string(),
                },
                None => unknown_string(),
            };
            let ghost pre = buf_model(self.trade_buffer@);
            self.trade_buffer.push(
                MarketMessage::Trade(
                    TradeData {
                        exchange: exchange.to_owned(),
                        symbol: symbol_from_exchange(exchange, sym_raw.as_str()),
                        timestamp: ts,
                        price,
                        amount,
                        side,
                    },
                ),
            );
            proof {
                assert(buf_model(self.trade_buffer@) =~= pre.push(self.trade_buffer@.last()@));
                assert(trades.subrange(0, i + 1) =~= trades.subrange(0, i as int).push(
                    trades[i as int],
                ));
                assert(buf_model(self.trade_buffer@) =~= trades.subrange(0, i + 1));
            }
            i += 1;
        }
        proof {
            assert(trades.subrange(0, n as int) =~= trades);
        }
        let ghost full_buf = self.trade_buffer@;
        let first = self.trade_buffer.remove(0);
        proof {
            assert(first == full_buf[0]);
            assert(first@ == buf_model(full_buf)[0]);
            assert(buf_model(self.trade_buffer@) =~= trades.drop_first());
        }
        ParseOutcome::Market(first)
    }
}

} // verus!
