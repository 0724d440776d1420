//! The canonical message schema shared by every venue.
//!
//! Every adapter collapses its venue's wire format into these types; the
//! relay path forwards them unchanged. Numeric fields are decimal strings,
//! never floats, and symbols are in normalized `BASE/QUOTE` form.

use vstd::prelude::*;
use crate::strings::{spec_all_digits, spec_is_digit};

verus! {

/// One executed trade, normalized.
pub struct TradeData {
    /// Venue identifier, e.g. `gateio`.
    pub exchange: String,
    /// Trading pair in normalized `BASE/QUOTE` form.
    pub symbol: String,
    /// Milliseconds since the Unix epoch.
    pub timestamp: i64,
    /// Price as a decimal string.
    pub price: String,
    /// Amount as a decimal string.
    pub amount: String,
    /// `buy` or `sell`.
    pub side: String,
}

/// One order-book price level.
pub struct BookLevel {
    /// Price as a decimal string.
    pub price: String,
    /// Amount as a decimal string.
    pub amount: String,
}

/// One order-book update: the current view after the update, not a diff.
pub struct BookData {
    /// Venue identifier.
    pub exchange: String,
    /// Trading pair in normalized `BASE/QUOTE` form.
    pub symbol: String,
    /// Milliseconds since the Unix epoch.
    pub timestamp: i64,
    /// Ask levels, best ask first.
    pub asks: Vec<BookLevel>,
    /// Bid levels, best bid first.
    pub bids: Vec<BookLevel>,
}

/// A ticker snapshot; kept in the schema for downstream compatibility.
pub struct TickerData {
    /// Venue identifier.
    pub exchange: String,
    /// Trading pair in normalized `BASE/QUOTE` form.
    pub symbol: String,
    /// Milliseconds since the Unix epoch.
    pub timestamp: i64,
    /// Best bid price.
    pub bid: Option<String>,
    /// Best ask price.
    pub ask: Option<String>,
    /// Last traded price.
    pub last: Option<String>,
    /// Volume over the last day.
    pub vol_24h: Option<String>,
}

/// The canonical message relayed downstream.
pub enum MarketMessage {
    /// A trade execution.
    Trade(TradeData),
    /// An order-book update.
    Book(BookData),
    /// A ticker snapshot.
    Ticker(TickerData),
}

/// Tri-state result of interpreting one raw frame.
pub enum ParseOutcome {
    /// Exactly one canonical message.
    Market(MarketMessage),
    /// Heartbeat, acknowledgement, or otherwise harmless frame.
    Control,
    /// Malformed or unexpected frame; never a panic.
    Error,
}

/// Mathematical view of a trade.
pub struct TradeModel {
    pub exchange: Seq<char>,
    pub symbol: Seq<char>,
    pub timestamp: int,
    pub price: Seq<char>,
    pub amount: Seq<char>,
    pub side: Seq<char>,
}

/// Mathematical view of one book level.
pub struct LevelModel {
    pub price: Seq<char>,
    pub amount: Seq<char>,
}

/// Mathematical view of a book update.
pub struct BookModel {
    pub exchange: Seq<char>,
    pub symbol: Seq<char>,
    pub timestamp: int,
    pub asks: Seq<LevelModel>,
    pub bids: Seq<LevelModel>,
}

/// Mathematical view of a ticker.
pub struct TickerModel {
    pub exchange: Seq<char>,
    pub symbol: Seq<char>,
    pub timestamp: int,
    pub bid: Option<Seq<char>>,
    pub ask: Option<Seq<char>>,
    pub last: Option<Seq<char>>,
    pub vol_24h: Option<Seq<char>>,
}

/// Mathematical view of a canonical message.
pub enum MsgModel {
    Trade(TradeModel),
    Book(BookModel),
    Ticker(TickerModel),
}

/// Mathematical view of a parse outcome.
pub enum OutcomeModel {
    Market(MsgModel),
    Control,
    Error,
}

impl View for TradeData {
    type V = TradeModel;

    open spec fn view(&self) -> TradeModel {
        TradeModel {
            exchange: self.exchange@,
            symbol: self.symbol@,
            timestamp: self.timestamp as int,
            price: self.price@,
            amount: self.amount@,
            side: self.side@,
        }
    }
}

impl View for BookLevel {
    type V = LevelModel;

    open spec fn view(&self) -> LevelModel {
        LevelModel { price: self.price@, amount: self.amount@ }
    }
}

impl View for BookData {
    type V = BookModel;

    open spec fn view(&self) -> BookModel {
        BookModel {
            exchange: self.exchange@,
            symbol: self.symbol@,
            timestamp: self.timestamp as int,
            asks: self.asks@.map_values(|l: BookLevel| l@),
            bids: self.bids@.map_values(|l: BookLevel| l@),
        }
    }
}

impl View for TickerData {
    type V = TickerModel;

    open spec fn view(&self) -> TickerModel {
        TickerModel {
            exchange: self.exchange@,
            symbol: self.symbol@,
            timestamp: self.timestamp as int,
            bid: match self.bid {
                Some(s) => Some(s@),
                None => None,
            },
            ask: match self.ask {
                Some(s) => Some(s@),
                None => None,
            },
            last: match self.last {
                Some(s) => Some(s@),
                None => None,
            },
            vol_24h: match self.vol_24h {
                Some(s) => Some(s@),
                None => None,
            },
        }
    }
}

impl View for MarketMessage {
    type V = MsgModel;

    open spec fn view(&self) -> MsgModel {
        match self {
            MarketMessage::Trade(t) => MsgModel::Trade(t@),
            MarketMessage::Book(b) => MsgModel::Book(b@),
            MarketMessage::Ticker(t) => MsgModel::Ticker(t@),
        }
    }
}

impl View for ParseOutcome {
    type V = OutcomeModel;

    open spec fn view(&self) -> OutcomeModel {
        match self {
            ParseOutcome::Market(m) => OutcomeModel::Market(m@),
            ParseOutcome::Control => OutcomeModel::Control,
            ParseOutcome::Error => OutcomeModel::Error,
        }
    }
}

/// An unsigned decimal string: digits with at most one interior point.
pub open spec fn is_decimal_text(s: Seq<char>) -> bool {
    (s.len() > 0 && spec_all_digits(s)) || (exists|k: int|
        1 <= k && k + 1 < s.len() && s[k] == '.' && spec_all_digits(s.subrange(0, k))
            && spec_all_digits(s.subrange(k + 1, s.len() as int)))
}

/// A symbol in normalized `BASE/QUOTE` form: exactly one separator, with a
/// nonempty base and quote around it.
pub open spec fn is_normalized_symbol(s: Seq<char>) -> bool {
    exists|k: int|
        0 < k < s.len() - 1 && s[k] == '/' && (forall|i: int|
            0 <= i < s.len() && i != k ==> s[i] != '/')
}

/// A venue symbol written with a single interior separator character and
/// no stray separator or slash: the shape that normalizes cleanly.
pub open spec fn single_separator_symbol(cp: Seq<char>, sep: char) -> bool {
    exists|k: int|
        0 < k < cp.len() - 1 && cp[k] == sep && (forall|i: int|
            0 <= i < cp.len() && i != k ==> cp[i] != sep && cp[i] != '/')
}

/// Replacing the one separator of such a symbol by the internal slash
/// yields a normalized `BASE/QUOTE` symbol.
pub proof fn lemma_separated_symbol_normalized(cp: Seq<char>, sep: char)
    requires
        sep != '/',
        single_separator_symbol(cp, sep),
    ensures
        is_normalized_symbol(crate::strings::spec_replace(cp, sep, '/')),
{
    let k = choose|k: int|
        0 < k < cp.len() - 1 && cp[k] == sep && (forall|i: int|
            0 <= i < cp.len() && i != k ==> cp[i] != sep && cp[i] != '/');
    let rs = crate::strings::spec_replace(cp, sep, '/');
    assert(rs.len() == cp.len());
    assert(rs[k] == '/');
    assert forall|i: int| 0 <= i < rs.len() && i != k implies rs[i] != '/' by {
        assert(cp[i] != sep && cp[i] != '/');
    }
}

/// What every relayed trade satisfies.
pub open spec fn wellformed_trade(t: TradeModel) -> bool {
    &&& is_normalized_symbol(t.symbol)
    &&& is_decimal_text(t.price)
    &&& is_decimal_text(t.amount)
    &&& (t.side == "buy"@ || t.side == "sell"@)
    &&& t.timestamp >= 0
}

/// What every relayed book update satisfies.
pub open spec fn wellformed_book(b: BookModel) -> bool {
    &&& is_normalized_symbol(b.symbol)
    &&& b.timestamp >= 0
    &&& (forall|i: int|
        0 <= i < b.asks.len() ==> is_decimal_text(#[trigger] b.asks[i].price) && is_decimal_text(
            b.asks[i].amount,
        ))
    &&& (forall|i: int|
        0 <= i < b.bids.len() ==> is_decimal_text(#[trigger] b.bids[i].price) && is_decimal_text(
            b.bids[i].amount,
        ))
}

/// What every relayed message satisfies.
pub open spec fn wellformed_message(m: MsgModel) -> bool {
    match m {
        MsgModel::Trade(t) => wellformed_trade(t),
        MsgModel::Book(b) => wellformed_book(b),
        MsgModel::Ticker(t) => is_normalized_symbol(t.symbol) && t.timestamp >= 0,
    }
}

} // verus!
