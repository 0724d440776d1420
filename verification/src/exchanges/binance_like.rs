//! Shared protocol logic for the Binance-style venues: Binance global and
//! Binance US speak the same stream dialect from different endpoints.

use vstd::prelude::*;
use vstd::string::*;
use crate::ChannelType;
use crate::json::{
    json_of, parse_json, spec_get, spec_get_bool, spec_get_i64, spec_get_str, JsonValue,
};
use crate::schema::{
    BookData, BookLevel, BookModel, LevelModel, MarketMessage, MsgModel, OutcomeModel,
    ParseOutcome, TradeData, TradeModel,
};
use crate::strings::{i64_to_string, spec_dec_i64, spec_to_lower, str_eq, to_ascii_lower};
use crate::util::{
    spec_symbol_from_exchange, spec_symbol_to_exchange, symbol_from_exchange, symbol_to_exchange,
};
use crate::wire::{append_str_array, spec_str_array};
use super::{
    pair_level, spec_arr_or_empty, spec_bool_or, spec_field, spec_pair_level, spec_str_or,
    spec_ts_or,
};

verus! {

/// The stream names subscribed: lower-cased venue symbols with a channel
/// suffix.
pub open spec fn spec_binance_streams(ex: Seq<char>, pairs: Seq<Seq<char>>, suffix: Seq<char>) -> Seq<
    Seq<char>,
> {
    pairs.map_values(|s: Seq<char>| spec_to_lower(spec_symbol_to_exchange(ex, s)) + suffix)
}

/// The subscription payload for one channel.
pub open spec fn spec_binance_sub(
    ex: Seq<char>,
    channel: ChannelType,
    pairs: Seq<Seq<char>>,
    now: int,
) -> Seq<char> {
    let suffix: Seq<char> = match channel {
        ChannelType::Trades => "@trade"@,
        ChannelType::OrderBooks => "@depth"@,
    };
    "{\"method\":\"SUBSCRIBE\",\"params\":"@ + spec_str_array(
        spec_binance_streams(ex, pairs, suffix),
    ) + ",\"id\":"@ + spec_dec_i64(now) + "}"@
}

/// One depth level, dropped when the amount is the venue's zero marker.
pub open spec fn spec_nz_pair_level(x: JsonValue) -> Option<LevelModel> {
    match spec_pair_level(x) {
        Some(l) => if l.amount == "0.00000000"@ {
            None
        } else {
            Some(l)
        },
        None => None,
    }
}

/// The depth levels of an array, zero-amount entries removed.
pub open spec fn spec_nz_levels(xs: Seq<JsonValue>) -> Seq<LevelModel>
    decreases xs.len(),
{
    if xs.len() == 0 {
        Seq::empty()
    } else {
        spec_nz_levels(xs.drop_last()) + match spec_nz_pair_level(xs.last()) {
            Some(l) => seq![l],
            None => Seq::empty(),
        }
    }
}

fn collect_nz_levels(xs: &Vec<JsonValue>) -> (r: Vec<BookLevel>)
    ensures
        r@.map_values(|l: BookLevel| l@) == spec_nz_levels(xs@),
{
    let n = xs.len();
    let mut r: Vec<BookLevel> = Vec::new();
    let mut i: usize = 0;
    while i < n
        invariant
            n == xs@.len(),
            i <= n,
            r@.map_values(|l: BookLevel| l@) == spec_nz_levels(xs@.subrange(0, i as int)),
        decreases n - i,
    {
        proof {
            assert(xs@.subrange(0, i + 1).drop_last() =~= xs@.subrange(0, i as int));
            assert(xs@.subrange(0, i + 1).last() == xs@[i as int]);
        }
        let ghost pre = r@.map_values(|l: BookLevel| l@);
        match pair_level(&xs[i]) {
            Some(l) => {
                if !str_eq(l.amount.as_str(), "0.00000000") {
                    r.push(l);
                    proof {
                        assert(r@.map_values(|l: BookLevel| l@) =~= pre.push(r@.last()@));
                        assert(r@.map_values(|l: BookLevel| l@) =~= spec_nz_levels(
                            xs@.subrange(0, i + 1),
                        ));
                    }
                } else {
                    proof {
                        assert(r@.map_values(|l: BookLevel| l@) =~= spec_nz_levels(
                            xs@.subrange(0, i + 1),
                        ));
                    }
                }
            },
            None => {
                proof {
                    assert(r@.map_values(|l: BookLevel| l@) =~= spec_nz_levels(
                        xs@.subrange(0, i + 1),
                    ));
                }
            },
        }
        i += 1;
    }
    proof {
        assert(xs@.subrange(0, n as int) =~= xs@);
    }
    r
}

/// The payload part of a frame: combined streams wrap it in `data`.
pub open spec fn spec_binance_data(v: JsonValue) -> JsonValue {
    match spec_get(v, "data"@) {
        Some(d) => d,
        None => v,
    }
}

/// Outcome of one decoded frame.
pub open spec fn spec_binance_frame(v: JsonValue, ex: Seq<char>, now: int) -> OutcomeModel {
    if spec_get(v, "result"@) is Some {
        OutcomeModel::Control
    } else {
        let data = spec_binance_data(v);
        match spec_get_str(data, "e"@) {
            None => OutcomeModel::Control,
            Some(ev) => if ev == "trade"@ {
                OutcomeModel::Market(
                    MsgModel::Trade(
                        TradeModel {
                            exchange: ex,
                            symbol: spec_symbol_from_exchange(
                                ex,
                                spec_str_or(spec_get_str(data, "s"@), Seq::empty()),
                            ),
                            timestamp: spec_ts_or(spec_get_i64(data, "T"@), now),
                            price: spec_str_or(spec_get_str(data, "p"@), "0"@),
                            amount: spec_str_or(spec_get_str(data, "q"@), "0"@),
                            side: if spec_bool_or(spec_get_bool(data, "m"@), false) {
                                "sell"@
                            } else {
                                "buy"@
                            },
                        },
                    ),
                )
            } else if ev == "depthUpdate"@ {
                OutcomeModel::Market(
                    MsgModel::Book(
                        BookModel {
                            exchange: ex,
                            symbol: spec_symbol_from_exchange(
                                ex,
                                spec_str_or(spec_get_str(data, "s"@), Seq::empty()),
                            ),
                            timestamp: spec_ts_or(spec_get_i64(data, "E"@), now),
                            asks: spec_nz_levels(spec_arr_or_empty(spec_field(data, "a"@))),
                            bids: spec_nz_levels(spec_arr_or_empty(spec_field(data, "b"@))),
                        },
                    ),
                )
            } else {
                OutcomeModel::Control
            },
        }
    }
}

/// Outcome of one raw frame.
pub open spec fn spec_binance_outcome(j: Option<JsonValue>, ex: Seq<char>, now: int) -> OutcomeModel {
    match j {
        None => OutcomeModel::Error,
        Some(v) => spec_binance_frame(v, ex, now),
    }
}

/// A venue trade symbol that normalizes cleanly: a nonempty base
/// followed by the dollar-tether quote suffix, with no stray slash.
pub open spec fn binance_symbol_ok(sym: Seq<char>) -> bool {
    &&& crate::strings::spec_ends_with(sym, "USDT"@)
    &&& sym.len() > 4
    &&& (forall|i: int| 0 <= i < sym.len() ==> sym[i] != '/')
}

pub proof fn lemma_binance_symbol_normalized(sym: Seq<char>)
    requires
        binance_symbol_ok(sym),
    ensures
        crate::schema::is_normalized_symbol(crate::util::spec_concat_from(sym)),
{
    broadcast use vstd::string::group_string_axioms;

    reveal_strlit("USDT");
    let rs = crate::util::spec_quote_join(sym, "USDT"@);
    let k = sym.len() - 4;
    assert(rs.len() == sym.len() + 1);
    assert(rs[k as int] == '/');
    assert forall|i: int| 0 <= i < rs.len() && i != k implies rs[i] != '/' by {
        if i < k {
            assert(rs[i] == sym.subrange(0, k as int)[i]);
            assert(sym[i] != '/');
        } else {
            assert(rs[i] == "USDT"@[i - k - 1]);
        }
    }
}

/// A trade frame the Binance dialect recognizes as valid: no
/// acknowledgement marker, the trade event with every field present, a
/// cleanly normalizing symbol, decimal price and amount, and a
/// nonnegative timestamp.
pub open spec fn binance_recognizes_trade(v: JsonValue, now: int) -> bool {
    &&& spec_get(v, "result"@) is None
    &&& ({
        let data = spec_binance_data(v);
        &&& spec_get_str(data, "e"@) == Some("trade"@)
        &&& (match spec_get_str(data, "s"@) {
            Some(s) => binance_symbol_ok(s),
            None => false,
        })
        &&& (match spec_get_str(data, "p"@) {
            Some(p) => crate::schema::is_decimal_text(p),
            None => false,
        })
        &&& (match spec_get_str(data, "q"@) {
            Some(q) => crate::schema::is_decimal_text(q),
            None => false,
        })
        &&& spec_get_bool(data, "m"@) is Some
        &&& (match spec_get_i64(data, "T"@) {
            Some(t) => t >= 0,
            None => now >= 0,
        })
    })
}

/// For any trade frame the Binance dialect recognizes as valid, parsing
/// returns exactly one canonical message whose symbol is in `BASE/QUOTE`
/// form, whose price and amount are decimal strings, and whose timestamp
/// is a millisecond epoch value.
pub proof fn lemma_binance_recognized_trade_wellformed(v: JsonValue, ex: Seq<char>, now: int)
    requires
        binance_recognizes_trade(v, now),
        ex == "binance"@ || ex == "binanceus"@,
    ensures
        spec_binance_frame(v, ex, now) matches OutcomeModel::Market(m)
            && crate::schema::wellformed_message(m),
{
    broadcast use vstd::string::group_string_axioms;

    reveal_strlit("binance");
    reveal_strlit("binanceus");
    reveal_strlit("gateio");
    reveal_strlit("mexc");
    assert("binance"@.len() == 7);
    assert("binanceus"@.len() == 9);
    assert("gateio"@.len() == 6);
    assert("mexc"@.len() == 4);
    let data = spec_binance_data(v);
    let sym = match spec_get_str(data, "s"@) {
        Some(s) => s,
        None => Seq::empty(),
    };
    lemma_binance_symbol_normalized(sym);
    assert(crate::util::spec_symbol_from_exchange(ex, sym) == crate::util::spec_concat_from(sym));
}
pub fn binance_subscribe(
    exchange: &str,
    channel: ChannelType,
    pairs: &Vec<String>,
    now: i64,
) -> (r: String)
    ensures
        r@ == spec_binance_sub(exchange@, channel, pairs@.map_values(|s: String| s@), now as int),
{
    let suffix: &str = match channel {
        ChannelType::Trades => "@trade",
        ChannelType::OrderBooks => "@depth",
    };
    let n = pairs.len();
    let mut streams: Vec<String> = Vec::new();
    let ghost full = pairs@.map_values(|s: String| s@);
    let ghost sfx = suffix@;
    let mut i: usize = 0;
    while i < n
        invariant
            n == pairs@.len(),
            i <= n,
            full == pairs@.map_values(|s: String| s@),
            sfx == suffix@,
            streams@.map_values(|s: String| s@) == spec_binance_streams(
                exchange@,
                full.subrange(0, i as int),
                sfx,
            ),
        decreases n - i,
    {
        let ghost pre = streams@.map_values(|s: String| s@);
        let sym = symbol_to_exchange(exchange, pairs[i].as_str());
        let mut low = to_ascii_lower(sym.as_str());
        low.append(suffix);
        streams.push(low);
        proof {
            assert(streams@.map_values(|s: String| s@) =~= pre.push(streams@.last()@));
            assert(spec_binance_streams(exchange@, full.subrange(0, i + 1), sfx)
                =~= spec_binance_streams(exchange@, full.subrange(0, i as int), sfx).push(
                spec_to_lower(spec_symbol_to_exchange(exchange@, full[i as int])) + sfx,
            ));
            assert(streams@.map_values(|s: String| s@) =~= spec_binance_streams(
                exchange@,
                full.subrange(0, i + 1),
                sfx,
            ));
        }
        i += 1;
    }
    proof {
        assert(full.subrange(0, n as int) =~= full);
    }
    let mut out = String::new();
    out.append("{\"method\":\"SUBSCRIBE\",\"params\":");
    append_str_array(&mut out, &streams);
    out.append(",\"id\":");
    let t = i64_to_string(now);
    out.append(t.as_str());
    out.append("}");
    proof {
        assert(out@ =~= spec_binance_sub(exchange@, channel, full, now as int));
    }
    out
}

/// Parses one raw frame of the Binance stream dialect.
pub fn binance_parse(raw: &str, exchange: &str, now: i64) -> (r: ParseOutcome)
    ensures
        r@ == spec_binance_outcome(json_of(raw@), exchange@, now as int),
{
    let v = match parse_json(raw) {
        Some(v) => v,
        None => {
            return ParseOutcome::Error;
        },
    };
    if let Some(_) = v.get("result") {
        return ParseOutcome::Control;
    }
    let data: &JsonValue = match v.get("data") {
        Some(d) => d,
        None => &v,
    };
    let event = match data.get("e") {
        Some(x) => match x.as_str() {
            Some(s) => s,
            None => {
                return ParseOutcome::Control;
            },
        },
        None => {
            return ParseOutcome::Control;
        },
    };
    if str_eq(event.as_str(), "trade") {
        let sym_raw: String = match data.get("s") {
            Some(x) => match x.as_str() {
                Some(s) => s.clone(),
                None => String::new(),
            },
            None => String::new(),
        };
        let price: String = match data.get("p") {
            Some(x) => match x.as_str() {
                Some(s) => s.clone(),
                None => zero_text(),
            },
            None => zero_text(),
        };
        let amount: String = match data.get("q") {
            Some(x) => match x.as_str() {
                Some(s) => s.clone(),
                None => zero_text(),
            },
            None => zero_text(),
        };
        let maker: bool = match data.get("m") {
            Some(x) => match x.as_bool() {
                Some(b) => b,
                None => false,
            },
            None => false,
        };
        let ts: i64 = match data.get("T") {
            Some(x) => match x.as_i64() {
                Some(t) => t,
                None => now,
            },
            None => now,
        };
        let mut side = String::new();
        if maker {
            side.append("sell");
        } else {
            side.append("buy");
        }
        proof {
            assert(side@ =~= (if maker {
                "sell"@
            } else {
                "buy"@
            }));
        }
        ParseOutcome::Market(
            MarketMessage::Trade(
                TradeData {
                    exchange: exchange.to_owned(),
                    symbol: symbol_from_exchange(exchange, sym_raw.as_str()),
                    timestamp: ts,
                    price,
                    amount,
                    side,
                },
            ),
        )
    } else if str_eq(event.as_str(), "depthUpdate") {
        let sym_raw: String = match data.get("s") {
            Some(x) => match x.as_str() {
                Some(s) => s.clone(),
                None => String::new(),
            },
            None => String::new(),
        };
        let ts: i64 = match data.get("E") {
            Some(x) => match x.as_i64() {
                Some(t) => t,
                None => now,
            },
            None => now,
        };
        let empty_a: Vec<JsonValue> = Vec::new();
        let asks_arr: &Vec<JsonValue> = match data.get("a") {
            Some(x) => match x.as_array() {
                Some(xs) => xs,
                None => &empty_a,
            },
            None => &empty_a,
        };
        let asks = collect_nz_levels(asks_arr);
        let empty_b: Vec<JsonValue> = Vec::new();
        let bids_arr: &Vec<JsonValue> = match data.get("b") {
            Some(x) => match x.as_array() {
                Some(xs) => xs,
                None => &empty_b,
            },
            None => &empty_b,
        };
        let bids = collect_nz_levels(bids_arr);
        proof {
            assert(spec_nz_levels(Seq::<JsonValue>::empty()) =~= Seq::<LevelModel>::empty());
        }
        ParseOutcome::Market(
            MarketMessage::Book(
                BookData {
                    exchange: exchange.to_owned(),
                    symbol: symbol_from_exchange(exchange, sym_raw.as_str()),
                    timestamp: ts,
                    asks,
                    bids,
                },
            ),
        )
    } else {
        ParseOutcome::Control
    }
}

fn zero_text() -> (r: String)
    ensures
        r@ == "0"@,
{
    let mut s = String::new();
    s.append("0");
    proof {
        assert(s@ =~= "0"@);
    }
    s
}

} // verus!
