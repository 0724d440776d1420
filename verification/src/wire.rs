//! The outbound wire encoding of canonical messages.
//!
//! One JSON object per message, with a `type` discriminator of `trade`,
//! `book` or `ticker`, exactly as the downstream aggregator expects it.
//! The encoding is defined here as a specification over character
//! sequences and implemented as verified string building.

use vstd::prelude::*;
use vstd::string::*;
use crate::schema::{BookModel, LevelModel, MarketMessage, MsgModel, TickerModel, TradeModel};
use crate::strings::{i64_to_string, push_char, spec_dec_i64};

verus! {

/// The character for one hexadecimal digit value.
pub open spec fn spec_hex_char(d: int) -> char {
    if d == 0 {
        '0'
    } else if d == 1 {
        '1'
    } else if d == 2 {
        '2'
    } else if d == 3 {
        '3'
    } else if d == 4 {
        '4'
    } else if d == 5 {
        '5'
    } else if d == 6 {
        '6'
    } else if d == 7 {
        '7'
    } else if d == 8 {
        '8'
    } else if d == 9 {
        '9'
    } else if d == 10 {
        'a'
    } else if d == 11 {
        'b'
    } else if d == 12 {
        'c'
    } else if d == 13 {
        'd'
    } else if d == 14 {
        'e'
    } else {
        'f'
    }
}

fn hex_char(d: u32) -> (r: char)
    requires
        d < 16,
    ensures
        r == spec_hex_char(d as int),
{
    if d == 0 {
        '0'
    } else if d == 1 {
        '1'
    } else if d == 2 {
        '2'
    } else if d == 3 {
        '3'
    } else if d == 4 {
        '4'
    } else if d == 5 {
        '5'
    } else if d == 6 {
        '6'
    } else if d == 7 {
        '7'
    } else if d == 8 {
        '8'
    } else if d == 9 {
        '9'
    } else if d == 10 {
        'a'
    } else if d == 11 {
        'b'
    } else if d == 12 {
        'c'
    } else if d == 13 {
        'd'
    } else if d == 14 {
        'e'
    } else {
        'f'
    }
}

/// How one character appears inside a JSON string literal.
pub open spec fn spec_escape_char(c: char) -> Seq<char> {
    if c == '"' {
        seq!['\\', '"']
    } else if c == '\\' {
        seq!['\\', '\\']
    } else if (c as int) < 32 {
        seq!['\\', 'u', '0', '0', spec_hex_char(c as int / 16), spec_hex_char(c as int % 16)]
    } else {
        seq![c]
    }
}

/// A whole string as it appears inside a JSON string literal.
pub open spec fn spec_escape(s: Seq<char>) -> Seq<char>
    decreases s.len(),
{
    if s.len() == 0 {
        Seq::empty()
    } else {
        spec_escape(s.drop_last()) + spec_escape_char(s.last())
    }
}

/// Appends the escaped form of `s` to `out`.
fn append_escaped(out: &mut String, s: &str)
    ensures
        final(out)@ == old(out)@ + spec_escape(s@),
{
    let ghost base = old(out)@;
    let n = s.unicode_len();
    let mut i: usize = 0;
    while i < n
        invariant
            n == s@.len(),
            i <= n,
            out@ == base + spec_escape(s@.subrange(0, i as int)),
        decreases n - i,
    {
        let c = s.get_char(i);
        if c == '"' {
            push_char(out, '\\');
            push_char(out, '"');
        } else if c == '\\' {
            push_char(out, '\\');
            push_char(out, '\\');
        } else if (c as u32) < 32 {
            let v = c as u32;
            push_char(out, '\\');
            push_char(out, 'u');
            push_char(out, '0');
            push_char(out, '0');
            push_char(out, hex_char(v / 16));
            push_char(out, hex_char(v % 16));
        } else {
            push_char(out, c);
        }
        proof {
            assert(s@.subrange(0, i + 1).drop_last() =~= s@.subrange(0, i as int));
            assert(out@ =~= base + (spec_escape(s@.subrange(0, i as int)) + spec_escape_char(
                s@[i as int],
            )));
        }
        i += 1;
    }
    proof {
        assert(s@.subrange(0, n as int) =~= s@);
    }
}

/// Appends a quoted, escaped JSON string literal.
pub fn append_quoted(out: &mut String, s: &str)
    ensures
        final(out)@ == old(out)@ + seq!['"'] + spec_escape(s@) + seq!['"'],
{
    push_char(out, '"');
    append_escaped(out, s);
    push_char(out, '"');
    proof {
        assert(out@ =~= old(out)@ + seq!['"'] + spec_escape(s@) + seq!['"']);
    }
}

/// A string as a JSON string literal.
pub open spec fn spec_quoted(s: Seq<char>) -> Seq<char> {
    seq!['"'] + spec_escape(s) + seq!['"']
}

/// A comma-separated run of JSON string literals.
pub open spec fn spec_quoted_items(ss: Seq<Seq<char>>) -> Seq<char>
    decreases ss.len(),
{
    if ss.len() == 0 {
        Seq::empty()
    } else if ss.len() == 1 {
        spec_quoted(ss[0])
    } else {
        spec_quoted_items(ss.drop_last()) + seq![','] + spec_quoted(ss.last())
    }
}

/// A comma-separated run of already-encoded fragments.
pub open spec fn spec_join_comma(ss: Seq<Seq<char>>) -> Seq<char>
    decreases ss.len(),
{
    if ss.len() == 0 {
        Seq::empty()
    } else if ss.len() == 1 {
        ss[0]
    } else {
        spec_join_comma(ss.drop_last()) + seq![','] + ss.last()
    }
}

/// Appends already-encoded fragments separated by commas.
pub fn append_joined(out: &mut String, items: &Vec<String>)
    ensures
        final(out)@ == old(out)@ + spec_join_comma(items@.map_values(|s: String| s@)),
{
    let ghost base = old(out)@;
    let ghost model = items@.map_values(|s: String| s@);
    let n = items.len();
    let mut i: usize = 0;
    while i < n
        invariant
            n == items@.len(),
            i <= n,
            model == items@.map_values(|s: String| s@),
            out@ == base + spec_join_comma(model.subrange(0, i as int)),
        decreases n - i,
    {
        if i > 0 {
            push_char(out, ',');
        }
        out.append(items[i].as_str());
        proof {
            let pre = model.subrange(0, i as int);
            let cur = model.subrange(0, i + 1);
            assert(cur.drop_last() =~= pre);
            assert(cur.last() == model[i as int]);
            assert(model[i as int] == items@[i as int]@);
            if i == 0 {
                assert(spec_join_comma(cur) == cur[0]);
                assert(out@ =~= base + spec_join_comma(cur));
            } else {
                assert(spec_join_comma(cur) == spec_join_comma(pre) + seq![','] + model[i as int]);
                assert(out@ =~= base + spec_join_comma(cur));
            }
        }
        i += 1;
    }
    proof {
        assert(model.subrange(0, n as int) =~= model);
    }
}

/// A list of strings as a JSON array of string literals.
pub open spec fn spec_str_array(ss: Seq<Seq<char>>) -> Seq<char> {
    seq!['['] + spec_quoted_items(ss) + seq![']']
}

/// Appends a JSON array of string literals.
pub fn append_str_array(out: &mut String, items: &Vec<String>)
    ensures
        final(out)@ == old(out)@ + spec_str_array(items@.map_values(|s: String| s@)),
{
    let ghost base = old(out)@;
    let ghost model = items@.map_values(|s: String| s@);
    push_char(out, '[');
    let n = items.len();
    let mut i: usize = 0;
    while i < n
        invariant
            n == items@.len(),
            i <= n,
            model == items@.map_values(|s: String| s@),
            out@ == base + seq!['['] + spec_quoted_items(model.subrange(0, i as int)),
        decreases n - i,
    {
        if i > 0 {
            push_char(out, ',');
        }
        append_quoted(out, items[i].as_str());
        proof {
            let pre = model.subrange(0, i as int);
            let cur = model.subrange(0, i + 1);
            assert(cur.drop_last() =~= pre);
            assert(cur.last() == model[i as int]);
            assert(model[i as int] == items@[i as int]@);
            if i == 0 {
                assert(spec_quoted_items(cur) == spec_quoted(cur[0]));
                assert(out@ =~= base + seq!['['] + spec_quoted_items(cur));
            } else {
                assert(spec_quoted_items(cur) == spec_quoted_items(pre) + seq![','] + spec_quoted(
                    model[i as int],
                ));
                assert(out@ =~= base + seq!['['] + spec_quoted_items(cur));
            }
        }
        i += 1;
    }
    push_char(out, ']');
    proof {
        assert(model.subrange(0, n as int) =~= model);
        assert(out@ =~= base + spec_str_array(model));
    }
}

/// An optional string field: a JSON string literal or `null`.
pub open spec fn spec_opt_field(o: Option<Seq<char>>) -> Seq<char> {
    match o {
        Some(s) => seq!['"'] + spec_escape(s) + seq!['"'],
        None => "null"@,
    }
}

/// One book level encoded as `["price","amount"]`.
pub open spec fn spec_level_wire(l: LevelModel) -> Seq<char> {
    seq!['[', '"'] + spec_escape(l.price) + seq!['"', ',', '"'] + spec_escape(l.amount) + seq![
        '"',
        ']',
    ]
}

/// A comma-separated run of encoded levels.
pub open spec fn spec_levels_items(ls: Seq<LevelModel>) -> Seq<char>
    decreases ls.len(),
{
    if ls.len() == 0 {
        Seq::empty()
    } else if ls.len() == 1 {
        spec_level_wire(ls[0])
    } else {
        spec_levels_items(ls.drop_last()) + seq![','] + spec_level_wire(ls.last())
    }
}

/// A level list encoded as a JSON array.
pub open spec fn spec_levels_wire(ls: Seq<LevelModel>) -> Seq<char> {
    seq!['['] + spec_levels_items(ls) + seq![']']
}

use crate::schema::BookLevel;

/// Appends the JSON array of levels.
fn append_levels(out: &mut String, ls: &Vec<BookLevel>)
    ensures
        final(out)@ == old(out)@ + spec_levels_wire(ls@.map_values(|l: BookLevel| l@)),
{
    let ghost base = old(out)@;
    let ghost model = ls@.map_values(|l: BookLevel| l@);
    push_char(out, '[');
    let n = ls.len();
    let mut i: usize = 0;
    while i < n
        invariant
            n == ls@.len(),
            i <= n,
            model == ls@.map_values(|l: BookLevel| l@),
            out@ == base + seq!['['] + spec_levels_items(model.subrange(0, i as int)),
        decreases n - i,
    {
        if i > 0 {
            push_char(out, ',');
        }
        push_char(out, '[');
        append_quoted(out, ls[i].price.as_str());
        push_char(out, ',');
        append_quoted(out, ls[i].amount.as_str());
        push_char(out, ']');
        proof {
            let pre = model.subrange(0, i as int);
            let cur = model.subrange(0, i + 1);
            assert(cur.drop_last() =~= pre);
            assert(cur.last() == model[i as int]);
            assert(model[i as int] == ls@[i as int]@);
            if i == 0 {
                assert(cur.len() == 1);
                assert(out@ =~= base + seq!['['] + spec_level_wire(model[0]));
                assert(spec_levels_items(cur) == spec_level_wire(cur[0]));
                assert(out@ =~= base + seq!['['] + spec_levels_items(cur));
            } else {
                assert(spec_levels_items(cur) == spec_levels_items(pre) + seq![',']
                    + spec_level_wire(model[i as int]));
                assert(out@ =~= base + seq!['['] + spec_levels_items(cur));
            }
        }
        i += 1;
    }
    push_char(out, ']');
    proof {
        assert(model.subrange(0, n as int) =~= model);
        assert(out@ =~= base + spec_levels_wire(model));
    }
}

/// Appends an optional string field.
fn append_opt(out: &mut String, o: &Option<String>)
    ensures
        final(out)@ == old(out)@ + spec_opt_field(
            match o {
                Some(s) => Some(s@),
                None => None,
            },
        ),
{
    match o {
        Some(s) => {
            append_quoted(out, s.as_str());
        },
        None => {
            out.append("null");
        },
    }
}

/// The wire form of a trade message.
pub open spec fn spec_trade_wire(t: TradeModel) -> Seq<char> {
    "{\"type\":\"trade\",\"exchange\":"@ + spec_opt_field(Some(t.exchange)) + ",\"symbol\":"@
        + spec_opt_field(Some(t.symbol)) + ",\"timestamp\":"@ + spec_dec_i64(t.timestamp)
        + ",\"price\":"@ + spec_opt_field(Some(t.price)) + ",\"amount\":"@ + spec_opt_field(
        Some(t.amount),
    ) + ",\"side\":"@ + spec_opt_field(Some(t.side)) + "}"@
}

/// The wire form of a book message.
pub open spec fn spec_book_wire(b: BookModel) -> Seq<char> {
    "{\"type\":\"book\",\"exchange\":"@ + spec_opt_field(Some(b.exchange)) + ",\"symbol\":"@
        + spec_opt_field(Some(b.symbol)) + ",\"timestamp\":"@ + spec_dec_i64(b.timestamp)
        + ",\"asks\":"@ + spec_levels_wire(b.asks) + ",\"bids\":"@ + spec_levels_wire(b.bids)
        + "}"@
}

/// The wire form of a ticker message.
pub open spec fn spec_ticker_wire(t: TickerModel) -> Seq<char> {
    "{\"type\":\"ticker\",\"exchange\":"@ + spec_opt_field(Some(t.exchange)) + ",\"symbol\":"@
        + spec_opt_field(Some(t.symbol)) + ",\"timestamp\":"@ + spec_dec_i64(t.timestamp)
        + ",\"bid\":"@ + spec_opt_field(t.bid) + ",\"ask\":"@ + spec_opt_field(t.ask)
        + ",\"last\":"@ + spec_opt_field(t.last) + ",\"vol_24h\":"@ + spec_opt_field(t.vol_24h)
        + "}"@
}

/// The wire form of any canonical message.
pub open spec fn spec_wire(m: MsgModel) -> Seq<char> {
    match m {
        MsgModel::Trade(t) => spec_trade_wire(t),
        MsgModel::Book(b) => spec_book_wire(b),
        MsgModel::Ticker(t) => spec_ticker_wire(t),
    }
}

/// Encodes one canonical message for the wire.
#[verifier::rlimit(100)]
pub fn to_wire_text(m: &MarketMessage) -> (r: String)
    ensures
        r@ == spec_wire(m@),
{
    let mut out = String::new();
    match m {
        MarketMessage::Trade(t) => {
            out.append("{\"type\":\"trade\",\"exchange\":");
            append_quoted(&mut out, t.exchange.as_str());
            out.append(",\"symbol\":");
            append_quoted(&mut out, t.symbol.as_str());
            out.append(",\"timestamp\":");
            let ts = i64_to_string(t.timestamp);
            out.append(ts.as_str());
            out.append(",\"price\":");
            append_quoted(&mut out, t.price.as_str());
            out.append(",\"amount\":");
            append_quoted(&mut out, t.amount.as_str());
            out.append(",\"side\":");
            append_quoted(&mut out, t.side.as_str());
            out.append("}");
            proof {
                assert(out@ =~= spec_trade_wire(t@));
            }
        },
        MarketMessage::Book(b) => {
            out.append("{\"type\":\"book\",\"exchange\":");
            append_quoted(&mut out, b.exchange.as_str());
            out.append(",\"symbol\":");
            append_quoted(&mut out, b.symbol.as_str());
            out.append(",\"timestamp\":");
            let ts = i64_to_string(b.timestamp);
            out.append(ts.as_str());
            out.append(",\"asks\":");
            append_levels(&mut out, &b.asks);
            out.append(",\"bids\":");
            append_levels(&mut out, &b.bids);
            out.append("}");
            proof {
                assert(out@ =~= spec_book_wire(b@));
            }
        },
        MarketMessage::Ticker(t) => {
            out.append("{\"type\":\"ticker\",\"exchange\":");
            append_quoted(&mut out, t.exchange.as_str());
            out.append(",\"symbol\":");
            append_quoted(&mut out, t.symbol.as_str());
            out.append(",\"timestamp\":");
            let ts = i64_to_string(t.timestamp);
            out.append(ts.as_str());
            out.append(",\"bid\":");
            append_opt(&mut out, &t.bid);
            out.append(",\"ask\":");
            append_opt(&mut out, &t.ask);
            out.append(",\"last\":");
            append_opt(&mut out, &t.last);
            out.append(",\"vol_24h\":");
            append_opt(&mut out, &t.vol_24h);
            out.append("}");
            proof {
                assert(out@ =~= spec_ticker_wire(t@));
            }
        },
    }
    out
}

} // verus!
