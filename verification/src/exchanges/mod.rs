//! Venue adapters.
//!
//! Each venue implements the same capability set — identify, endpoint,
//! build a subscription payload, parse one raw frame — and everything
//! else in the engine depends only on that contract. Parsing never
//! panics: every frame resolves to one of the three [`ParseOutcome`]
//! states.

pub mod binance;
pub mod binance_like;
pub mod binanceus;
pub mod bitfinex;
pub mod bitrue;
pub mod bitstamp;
pub mod bybit;
pub mod coinbase;
pub mod gateio;
pub mod kraken_v2;
pub mod kucoin;
pub mod mexc;
pub mod okx;

use vstd::prelude::*;
use vstd::string::*;
use crate::ChannelType;
use crate::config::ExchangeConfig;
use crate::json::{json_of, spec_as_str, spec_get, JsonValue};
use crate::schema::{BookLevel, LevelModel, OutcomeModel, ParseOutcome};
use crate::strings::str_eq;
use binance_like::{spec_binance_outcome, spec_binance_sub};
use bitfinex::{chan_model, spec_bfx_parse, spec_bfx_sub, BitfinexAdapter};
use bitrue::{spec_bitrue_outcome, spec_bitrue_sub, BitrueAdapter};
use bitstamp::{spec_bitstamp_outcome, spec_bitstamp_sub, BitstampAdapter};
use bybit::{spec_bybit_outcome, spec_bybit_sub, BybitAdapter};
use coinbase::{spec_cb_outcome, spec_cb_sub, CoinbaseAdapter};
use gateio::{spec_gateio_outcome, spec_gateio_sub_book, spec_gateio_sub_trades, GateIoAdapter};
use kraken_v2::{buf_model, spec_kraken_parse, spec_kraken_sub, KrakenV2Adapter};
use kucoin::{spec_kucoin_outcome, spec_kucoin_sub, KucoinAdapter};
use mexc::{spec_mexc_outcome, spec_mexc_sub, MexcAdapter};
use okx::{spec_okx_outcome, spec_okx_sub, OkxAdapter};
use binance::BinanceAdapter;
use binanceus::BinanceUsAdapter;

verus! {

/// One venue adapter behind the shared capability set: identify,
/// endpoint, build a subscription payload, parse one raw frame.
pub enum Adapter {
    /// Binance global.
    Binance(BinanceAdapter),
    /// Binance US.
    BinanceUs(BinanceUsAdapter),
    /// Bitfinex, with its channel announcements.
    Bitfinex(BitfinexAdapter),
    /// Bitrue.
    Bitrue(BitrueAdapter),
    /// Bitstamp.
    Bitstamp(BitstampAdapter),
    /// Bybit.
    Bybit(BybitAdapter),
    /// Coinbase.
    Coinbase(CoinbaseAdapter),
    /// Gate.io.
    GateIo(GateIoAdapter),
    /// Kraken v2, with its batch buffer.
    KrakenV2(KrakenV2Adapter),
    /// KuCoin.
    Kucoin(KucoinAdapter),
    /// MEXC.
    Mexc(MexcAdapter),
    /// OKX.
    Okx(OkxAdapter),
}

/// The canonical name of an adapter's venue.
pub open spec fn spec_adapter_name(a: Adapter) -> Seq<char> {
    match a {
        Adapter::Binance(_) => "binance"@,
        Adapter::BinanceUs(_) => "binanceus"@,
        Adapter::Bitfinex(_) => "bitfinex"@,
        Adapter::Bitrue(_) => "bitrue"@,
        Adapter::Bitstamp(_) => "bitstamp"@,
        Adapter::Bybit(_) => "bybit"@,
        Adapter::Coinbase(_) => "coinbase"@,
        Adapter::KrakenV2(_) => "kraken"@,
        Adapter::GateIo(_) => "gateio"@,
        Adapter::Kucoin(_) => "kucoin"@,
        Adapter::Mexc(_) => "mexc"@,
        Adapter::Okx(_) => "okx"@,
    }
}

/// The static endpoint of an adapter's venue; empty where the endpoint
/// is resolved at runtime.
pub open spec fn spec_adapter_url(a: Adapter) -> Seq<char> {
    match a {
        Adapter::Binance(_) => "wss://stream.binance.com:9443/ws"@,
        Adapter::BinanceUs(_) => "wss://stream.binance.us:9443/ws"@,
        Adapter::Bitfinex(_) => "wss://api-pub.bitfinex.com/ws/2"@,
        Adapter::Bitrue(_) => "wss://fmarket-ws.bitrue.com/kline-api/ws"@,
        Adapter::Bitstamp(_) => "wss://ws.bitstamp.net"@,
        Adapter::Bybit(_) => "wss://stream.bybit.com/v5/public/spot"@,
        Adapter::Coinbase(_) => "wss://ws-feed.exchange.coinbase.com"@,
        Adapter::KrakenV2(_) => "wss://ws.kraken.com/v2"@,
        Adapter::GateIo(_) => "wss://api.gateio.ws/ws/v4/"@,
        Adapter::Kucoin(_) => ""@,
        Adapter::Mexc(_) => "wss://contract.mexc.com/edge"@,
        Adapter::Okx(_) => "wss://ws.okx.com:8443/ws/v5/public"@,
    }
}

/// Whether two adapter values are the same venue.
pub open spec fn same_venue(a: Adapter, b: Adapter) -> bool {
    spec_adapter_name(a) == spec_adapter_name(b)
}

impl Adapter {
    /// The canonical venue name.
    pub fn name(&self) -> (r: &'static str)
        ensures
            r@ == spec_adapter_name(*self),
    {
        match self {
            Adapter::Binance(a) => a.name(),
            Adapter::BinanceUs(a) => a.name(),
            Adapter::Bitfinex(a) => a.name(),
            Adapter::Bitrue(a) => a.name(),
            Adapter::Bitstamp(a) => a.name(),
            Adapter::Bybit(a) => a.name(),
            Adapter::Coinbase(a) => a.name(),
            Adapter::KrakenV2(a) => a.name(),
            Adapter::GateIo(a) => a.name(),
            Adapter::Kucoin(a) => a.name(),
            Adapter::Mexc(a) => a.name(),
            Adapter::Okx(a) => a.name(),
        }
    }

    /// The venue endpoint; empty when the runner must resolve it at
    /// runtime.
    pub fn ws_url(&self) -> (r: &'static str)
        ensures
            r@ == spec_adapter_url(*self),
    {
        match self {
            Adapter::Binance(a) => a.ws_url(),
            Adapter::BinanceUs(a) => a.ws_url(),
            Adapter::Bitfinex(a) => a.ws_url(),
            Adapter::Bitrue(a) => a.ws_url(),
            Adapter::Bitstamp(a) => a.ws_url(),
            Adapter::Bybit(a) => a.ws_url(),
            Adapter::Coinbase(a) => a.ws_url(),
            Adapter::KrakenV2(a) => a.ws_url(),
            Adapter::GateIo(a) => a.ws_url(),
            Adapter::Kucoin(a) => a.ws_url(),
            Adapter::Mexc(a) => a.ws_url(),
            Adapter::Okx(a) => a.ws_url(),
        }
    }

    /// The subscription payload one adapter builds for one channel and
    /// symbol subset: a pure translation of the stream's own identity.
    pub open spec fn spec_subscribe(
        a: Adapter,
        channel: ChannelType,
        pairs: Seq<Seq<char>>,
        cfg: ExchangeConfig,
        now: int,
    ) -> Seq<char> {
        match a {
            Adapter::Binance(_) => spec_binance_sub("binance"@, channel, pairs, now),
            Adapter::BinanceUs(_) => spec_binance_sub("binanceus"@, channel, pairs, now),
            Adapter::Bitfinex(_) => spec_bfx_sub(channel, pairs),
            Adapter::Bitrue(_) => spec_bitrue_sub(channel, pairs),
            Adapter::Bitstamp(_) => spec_bitstamp_sub(channel, pairs),
            Adapter::Bybit(_) => spec_bybit_sub(channel, pairs),
            Adapter::Coinbase(_) => spec_cb_sub(channel, pairs),
            Adapter::KrakenV2(_) => spec_kraken_sub(channel, pairs),
            Adapter::GateIo(_) => match channel {
                ChannelType::Trades => spec_gateio_sub_trades(pairs, now),
                ChannelType::OrderBooks => spec_gateio_sub_book(pairs, cfg, now),
            },
            Adapter::Kucoin(_) => spec_kucoin_sub(channel, pairs, now),
            Adapter::Mexc(_) => spec_mexc_sub(channel, pairs),
            Adapter::Okx(_) => spec_okx_sub(channel, pairs),
        }
    }

    /// Builds the subscription payload for one channel. No I/O and no
    /// shared state: the payload depends only on the adapter, the channel,
    /// the symbols, the configuration and the clock reading.
    pub fn build_subscribe_message(
        &self,
        channel: ChannelType,
        pairs: &Vec<String>,
        config: &ExchangeConfig,
        now: i64,
    ) -> (r: String)
        requires
            pairs@.len() > 0,
        ensures
            r@ == Adapter::spec_subscribe(
                *self,
                channel,
                pairs@.map_values(|s: String| s@),
                *config,
                now as int,
            ),
    {
        match self {
            Adapter::Binance(a) => a.build_subscribe_message(channel, pairs, config, now),
            Adapter::BinanceUs(a) => a.build_subscribe_message(channel, pairs, config, now),
            Adapter::Bitfinex(a) => a.build_subscribe_message(channel, pairs, config, now),
            Adapter::Bitrue(a) => a.build_subscribe_message(channel, pairs, config, now),
            Adapter::Bitstamp(a) => a.build_subscribe_message(channel, pairs, config, now),
            Adapter::Bybit(a) => a.build_subscribe_message(channel, pairs, config, now),
            Adapter::Coinbase(a) => a.build_subscribe_message(channel, pairs, config, now),
            Adapter::KrakenV2(a) => a.build_subscribe_message(channel, pairs, config, now),
            Adapter::GateIo(a) => a.build_subscribe_message(channel, pairs, config, now),
            Adapter::Kucoin(a) => a.build_subscribe_message(channel, pairs, config, now),
            Adapter::Mexc(a) => a.build_subscribe_message(channel, pairs, config, now),
            Adapter::Okx(a) => a.build_subscribe_message(channel, pairs, config, now),
        }
    }

    /// What parsing one decoded frame returns, given the adapter states
    /// before and after the call. Stateless venues have one outcome
    /// function; the buffering venues first drain a pending message.
    pub open spec fn parse_contract(
        a0: Adapter,
        a1: Adapter,
        j: Option<JsonValue>,
        ex: Seq<char>,
        t: int,
        r: OutcomeModel,
    ) -> bool {
        match a0 {
            Adapter::Binance(_) => r == spec_binance_outcome(j, ex, t),
            Adapter::BinanceUs(_) => r == spec_binance_outcome(j, ex, t),
            Adapter::Bitrue(_) => r == spec_bitrue_outcome(j, ex, t),
            Adapter::Bitstamp(_) => r == spec_bitstamp_outcome(j, ex, t),
            Adapter::Bybit(_) => r == spec_bybit_outcome(j, ex, t),
            Adapter::Coinbase(_) => r == spec_cb_outcome(j, ex, t),
            Adapter::GateIo(_) => r == spec_gateio_outcome(j, ex, t),
            Adapter::Kucoin(_) => r == spec_kucoin_outcome(j, ex, t),
            Adapter::Mexc(_) => r == spec_mexc_outcome(j, ex, t),
            Adapter::Okx(_) => r == spec_okx_outcome(j, ex, t),
            Adapter::KrakenV2(k0) => {
                &&& a1 is KrakenV2
                &&& (k0.trade_buffer@.len() == 0 ==> r == spec_kraken_parse(j, ex, t).0)
                &&& (k0.trade_buffer@.len() > 0 ==> r == OutcomeModel::Market(
                    k0.trade_buffer@[0]@,
                ))
            },
            Adapter::Bitfinex(b0) => {
                &&& a1 is Bitfinex
                &&& (b0.trade_buffer@.len() == 0 ==> r == spec_bfx_parse(
                    j,
                    ex,
                    t,
                    chan_model(b0.chan_map@),
                ).0)
                &&& (b0.trade_buffer@.len() > 0 ==> r == OutcomeModel::Market(
                    b0.trade_buffer@[0]@,
                ))
            },
        }
    }

    /// Parses one raw frame into the canonical outcome. Never panics:
    /// every input resolves to market data, control traffic, or an error
    /// value. Stateless venues leave the adapter unchanged; the buffering
    /// venues drain one pending message per call, as their own contracts
    /// state.
    pub fn parse_message(&mut self, raw: &str, exchange: &str, now: i64) -> (r: ParseOutcome)
        ensures
            same_venue(*final(self), *old(self)),
            Adapter::parse_contract(
                *old(self),
                *final(self),
                json_of(raw@),
                exchange@,
                now as int,
                r@,
            ),
    {
        match self {
            Adapter::Binance(a) => a.parse_message(raw, exchange, now),
            Adapter::BinanceUs(a) => a.parse_message(raw, exchange, now),
            Adapter::Bitfinex(a) => a.parse_message(raw, exchange, now),
            Adapter::Bitrue(a) => a.parse_message(raw, exchange, now),
            Adapter::Bitstamp(a) => a.parse_message(raw, exchange, now),
            Adapter::Bybit(a) => a.parse_message(raw, exchange, now),
            Adapter::Coinbase(a) => a.parse_message(raw, exchange, now),
            Adapter::KrakenV2(a) => a.parse_message(raw, exchange, now),
            Adapter::GateIo(a) => a.parse_message(raw, exchange, now),
            Adapter::Kucoin(a) => a.parse_message(raw, exchange, now),
            Adapter::Mexc(a) => a.parse_message(raw, exchange, now),
            Adapter::Okx(a) => a.parse_message(raw, exchange, now),
        }
    }
}

/// For input that is not valid structured data, every venue's parse
/// resolves to the error outcome — and, all parse paths being verified,
/// the process is never aborted. For the two buffering venues this is
/// the outcome of a call made while no buffered message is pending.
pub proof fn lemma_malformed_input_is_error(ex: Seq<char>, now: int, chan: Seq<(i64, Seq<char>)>)
    ensures
        spec_binance_outcome(None, ex, now) == OutcomeModel::Error,
        spec_bitrue_outcome(None, ex, now) == OutcomeModel::Error,
        spec_bitstamp_outcome(None, ex, now) == OutcomeModel::Error,
        spec_bybit_outcome(None, ex, now) == OutcomeModel::Error,
        spec_cb_outcome(None, ex, now) == OutcomeModel::Error,
        spec_gateio_outcome(None, ex, now) == OutcomeModel::Error,
        spec_kucoin_outcome(None, ex, now) == OutcomeModel::Error,
        spec_mexc_outcome(None, ex, now) == OutcomeModel::Error,
        spec_okx_outcome(None, ex, now) == OutcomeModel::Error,
        kraken_v2::spec_kraken_parse(None, ex, now).0 == OutcomeModel::Error,
        bitfinex::spec_bfx_parse(None, ex, now, chan).0 == OutcomeModel::Error,
{
}

/// Resolves an adapter by its configured name: the central registry, as
/// the rest of the engine never branches on a venue name itself. Each of
/// the registered names yields its venue's adapter; any other name —
/// including venues whose adapters exist but are not registered — yields
/// nothing.
pub fn get_adapter(name: &str) -> (r: Option<Adapter>)
    ensures
        ({
            if name@ == "gateio"@ {
                r == Some(Adapter::GateIo(GateIoAdapter))
            } else if name@ == "binanceus"@ {
                r == Some(Adapter::BinanceUs(BinanceUsAdapter))
            } else if name@ == "binance"@ {
                r == Some(Adapter::Binance(BinanceAdapter))
            } else if name@ == "okx"@ {
                r == Some(Adapter::Okx(OkxAdapter))
            } else if name@ == "bitrue"@ {
                r == Some(Adapter::Bitrue(BitrueAdapter))
            } else if name@ == "kucoin"@ {
                r == Some(Adapter::Kucoin(KucoinAdapter))
            } else if name@ == "coinbase"@ {
                r == Some(Adapter::Coinbase(CoinbaseAdapter))
            } else if name@ == "bybit"@ {
                r == Some(Adapter::Bybit(BybitAdapter))
            } else {
                r is None
            }
        }),
        r matches Some(a) ==> spec_adapter_name(a) == name@,
{
    if str_eq(name, "gateio") {
        Some(Adapter::GateIo(GateIoAdapter))
    } else if str_eq(name, "binanceus") {
        Some(Adapter::BinanceUs(BinanceUsAdapter))
    } else if str_eq(name, "binance") {
        Some(Adapter::Binance(BinanceAdapter))
    } else if str_eq(name, "okx") {
        Some(Adapter::Okx(OkxAdapter))
    } else if str_eq(name, "bitrue") {
        Some(Adapter::Bitrue(BitrueAdapter))
    } else if str_eq(name, "kucoin") {
        Some(Adapter::Kucoin(KucoinAdapter))
    } else if str_eq(name, "coinbase") {
        Some(Adapter::Coinbase(CoinbaseAdapter))
    } else if str_eq(name, "bybit") {
        Some(Adapter::Bybit(BybitAdapter))
    } else {
        None
    }
}

/// Field of an object, with JSON `null` standing in for a missing field,
/// as indexing a decoded document does.
pub open spec fn spec_field(v: JsonValue, name: Seq<char>) -> JsonValue {
    match spec_get(v, name) {
        Some(f) => f,
        None => JsonValue::Null,
    }
}

/// The element list of an array document.
pub open spec fn spec_arr(v: JsonValue) -> Option<Seq<JsonValue>> {
    match v {
        JsonValue::Arr(xs) => Some(xs@),
        _ => None,
    }
}

/// Array element lookup.
pub open spec fn spec_idx(v: JsonValue, i: int) -> Option<JsonValue> {
    match v {
        JsonValue::Arr(xs) => if 0 <= i < xs@.len() {
            Some(xs@[i])
        } else {
            None
        },
        _ => None,
    }
}

/// A millisecond timestamp read from a frame, with the arrival clock as
/// the fallback when the frame carries none.
pub open spec fn spec_ts_or(o: Option<i64>, now: int) -> int {
    match o {
        Some(t) => t as int,
        None => now,
    }
}

/// A string field with a fallback for a missing or non-string value.
pub open spec fn spec_str_or(o: Option<Seq<char>>, d: Seq<char>) -> Seq<char> {
    match o {
        Some(s) => s,
        None => d,
    }
}

/// A boolean field with a fallback for a missing or non-boolean value.
pub open spec fn spec_bool_or(o: Option<bool>, d: bool) -> bool {
    match o {
        Some(b) => b,
        None => d,
    }
}

/// An array field read as its element list, empty when missing or not an
/// array.
pub open spec fn spec_arr_or_empty(v: JsonValue) -> Seq<JsonValue> {
    match spec_arr(v) {
        Some(xs) => xs,
        None => Seq::empty(),
    }
}

/// One `[price, amount]` level when the element is a two-string array.
pub open spec fn spec_pair_level(x: JsonValue) -> Option<LevelModel> {
    match (spec_idx(x, 0), spec_idx(x, 1)) {
        (Some(a), Some(b)) => match (spec_as_str(a), spec_as_str(b)) {
            (Some(p), Some(q)) => Some(LevelModel { price: p, amount: q }),
            _ => None,
        },
        _ => None,
    }
}

/// The levels of an array, keeping the elements that are two-string
/// arrays and dropping the rest.
pub open spec fn spec_pair_levels(xs: Seq<JsonValue>) -> Seq<LevelModel>
    decreases xs.len(),
{
    if xs.len() == 0 {
        Seq::empty()
    } else {
        spec_pair_levels(xs.drop_last()) + match spec_pair_level(xs.last()) {
            Some(l) => seq![l],
            None => Seq::empty(),
        }
    }
}

pub fn pair_level(x: &JsonValue) -> (r: Option<BookLevel>)
    ensures
        match r {
            Some(l) => spec_pair_level(*x) == Some(l@),
            None => spec_pair_level(*x) is None,
        },
{
    match x.idx(0) {
        Some(a) => match a.as_str() {
            Some(p) => match x.idx(1) {
                Some(b) => match b.as_str() {
                    Some(q) => Some(BookLevel { price: p.clone(), amount: q.clone() }),
                    None => None,
                },
                None => None,
            },
            None => None,
        },
        None => None,
    }
}

/// Collects the well-shaped `[price, amount]` levels of an array.
pub fn collect_levels(xs: &Vec<JsonValue>) -> (r: Vec<BookLevel>)
    ensures
        r@.map_values(|l: BookLevel| l@) == spec_pair_levels(xs@),
{
    let n = xs.len();
    let mut r: Vec<BookLevel> = Vec::new();
    let mut i: usize = 0;
    while i < n
        invariant
            n == xs@.len(),
            i <= n,
            r@.map_values(|l: BookLevel| l@) == spec_pair_levels(xs@.subrange(0, i as int)),
        decreases n - i,
    {
        proof {
            assert(xs@.subrange(0, i + 1).drop_last() =~= xs@.subrange(0, i as int));
            assert(xs@.subrange(0, i + 1).last() == xs@[i as int]);
        }
        let ghost pre = r@.map_values(|l: BookLevel| l@);
        match pair_level(&xs[i]) {
            Some(l) => {
                r.push(l);
                proof {
                    assert(r@.map_values(|l: BookLevel| l@) =~= pre.push(r@.last()@));
                    assert(r@.map_values(|l: BookLevel| l@) =~= spec_pair_levels(
                        xs@.subrange(0, i + 1),
                    ));
                }
            },
            None => {
                proof {
                    assert(r@.map_values(|l: BookLevel| l@) =~= spec_pair_levels(
                        xs@.subrange(0, i + 1),
                    ));
                }
            },
        }
        i += 1;
    }
    proof {
        assert(xs@.subrange(0, n as int) =~= xs@);
    }
    r
}

/// A timestamp carried as a decimal string in finer units: scaled down to
/// milliseconds, with the arrival clock as the fallback for a missing,
/// malformed or negative value.
pub open spec fn spec_scaled_str_ts(o: Option<Seq<char>>, div: int, now: int) -> int {
    match o {
        Some(s) => match crate::strings::spec_parse_i64(s) {
            Some(n) => if n >= 0 {
                n as int / div
            } else {
                now
            },
            None => now,
        },
        None => now,
    }
}

/// Reads a string timestamp field and scales it down to milliseconds.
pub fn scaled_str_ts(d: &JsonValue, name: &str, div: u64, now: i64) -> (r: i64)
    requires
        div > 0,
    ensures
        r == spec_scaled_str_ts(crate::json::spec_get_str(*d, name@), div as int, now as int),
{
    match d.get(name) {
        Some(x) => match x.as_str() {
            Some(s) => match crate::strings::parse_i64(s.as_str()) {
                Some(n) => {
                    if n >= 0 {
                        ((n as u64) / div) as i64
                    } else {
                        now
                    }
                },
                None => now,
            },
            None => now,
        },
        None => now,
    }
}

/// The decimal text a numeric frame field carries: a number's own text, a
/// string's content, and `0` for anything else.
pub open spec fn spec_num_text(v: JsonValue) -> Seq<char> {
    match v {
        JsonValue::Num(t) => t@,
        JsonValue::Str(s) => s@,
        _ => "0"@,
    }
}

/// Reads a numeric field as decimal text without ever going through a
/// float.
pub fn num_text(v: &JsonValue) -> (r: String)
    ensures
        r@ == spec_num_text(*v),
{
    match v {
        JsonValue::Num(t) => t.clone(),
        JsonValue::Str(s) => s.clone(),
        _ => {
            let mut z = String::new();
            z.append("0");
            proof {
                assert(z@ =~= "0"@);
            }
            z
        },
    }
}

/// The default decimal text for a missing numeric field.
pub fn zero_string() -> (r: String)
    ensures
        r@ == "0"@,
{
    let mut z = String::new();
    z.append("0");
    proof {
        assert(z@ =~= "0"@);
    }
    z
}

/// The default side for a frame that does not carry one.
pub fn unknown_string() -> (r: String)
    ensures
        r@ == "unknown"@,
{
    let mut z = String::new();
    z.append("unknown");
    proof {
        assert(z@ =~= "unknown"@);
    }
    z
}

/// The symbol list in a venue's own notation.
pub open spec fn spec_map_to_exchange(ex: Seq<char>, ss: Seq<Seq<char>>) -> Seq<Seq<char>> {
    ss.map_values(|s: Seq<char>| crate::util::spec_symbol_to_exchange(ex, s))
}

/// Converts each internal symbol into the venue's notation.
pub fn map_symbols(exchange: &str, pairs: &Vec<String>) -> (r: Vec<String>)
    ensures
        r@.map_values(|s: String| s@) == spec_map_to_exchange(
            exchange@,
            pairs@.map_values(|s: String| s@),
        ),
{
    let n = pairs.len();
    let mut r: Vec<String> = Vec::new();
    let mut i: usize = 0;
    while i < n
        invariant
            n == pairs@.len(),
            i <= n,
            r@.map_values(|s: String| s@) == spec_map_to_exchange(
                exchange@,
                pairs@.map_values(|s: String| s@).subrange(0, i as int),
            ),
        decreases n - i,
    {
        let ghost pre = r@.map_values(|s: String| s@);
        let conv = crate::util::symbol_to_exchange(exchange, pairs[i].as_str());
        r.push(conv);
        proof {
            let full = pairs@.map_values(|s: String| s@);
            assert(r@.map_values(|s: String| s@) =~= pre.push(r@.last()@));
            assert(spec_map_to_exchange(exchange@, full.subrange(0, i + 1)) =~= spec_map_to_exchange(
                exchange@,
                full.subrange(0, i as int),
            ).push(crate::util::spec_symbol_to_exchange(exchange@, full[i as int])));
            assert(r@.map_values(|s: String| s@) =~= spec_map_to_exchange(
                exchange@,
                full.subrange(0, i + 1),
            ));
        }
        i += 1;
    }
    proof {
        let full = pairs@.map_values(|s: String| s@);
        assert(full.subrange(0, n as int) =~= full);
    }
    r
}

} // verus!
