//! Symbol normalization and time helpers shared by every adapter.
//!
//! The internal symbol format is `BASE/QUOTE`; each venue has its own
//! notation, and the two conversion functions here are the single place
//! where that mapping lives.

use vstd::prelude::*;
use vstd::string::*;
use crate::strings::{
    ends_with_str, replace_char, remove_char, spec_ends_with, spec_remove, spec_replace,
    spec_to_lower, spec_to_upper, str_eq, to_ascii_lower, to_ascii_upper,
};

verus! {

/// Normalization applied to raw configuration symbols: underscore and dash
/// separators become the internal slash.
pub open spec fn spec_normalize_symbol(s: Seq<char>) -> Seq<char> {
    spec_replace(spec_replace(s, '_', '/'), '-', '/')
}

/// Normalizes a raw symbol into the internal `BASE/QUOTE` format.
pub fn normalize_symbol(raw: &str) -> (r: String)
    ensures
        r@ == spec_normalize_symbol(raw@),
{
    let first = replace_char(raw, '_', '/');
    replace_char(first.as_str(), '-', '/')
}

/// Relies on `std::time::SystemTime::now`: the wall clock read as
/// nonnegative milliseconds since the Unix epoch.
#[verifier::external_body]
pub fn now_ms() -> (r: i64)
    ensures
        r >= 0,
{
    let d = std::time::SystemTime::now()
        .duration_since(std::time::UNIX_EPOCH)
        .unwrap_or_default();
    match i64::try_from(d.as_millis()) {
        Ok(v) => v,
        Err(_) => i64::MAX,
    }
}

/// The venue-specific notation of an internal `BASE/QUOTE` symbol.
pub open spec fn spec_symbol_to_exchange(ex: Seq<char>, sym: Seq<char>) -> Seq<char> {
    if ex == "gateio"@ || ex == "mexc"@ {
        spec_replace(sym, '/', '_')
    } else if ex == "bitrue"@ {
        spec_to_lower(spec_remove(sym, '/'))
    } else if ex == "binance"@ || ex == "binanceus"@ || ex == "bybit"@ {
        spec_remove(sym, '/')
    } else if ex == "okx"@ || ex == "kucoin"@ || ex == "coinbase"@ {
        spec_replace(sym, '/', '-')
    } else {
        sym
    }
}

/// Converts an internal symbol into the venue's own notation.
pub fn symbol_to_exchange(exchange: &str, symbol: &str) -> (r: String)
    ensures
        r@ == spec_symbol_to_exchange(exchange@, symbol@),
{
    if str_eq(exchange, "gateio") || str_eq(exchange, "mexc") {
        replace_char(symbol, '/', '_')
    } else if str_eq(exchange, "bitrue") {
        let joined = remove_char(symbol, '/');
        to_ascii_lower(joined.as_str())
    } else if str_eq(exchange, "binance") || str_eq(exchange, "binanceus") || str_eq(
        exchange,
        "bybit",
    ) {
        remove_char(symbol, '/')
    } else if str_eq(exchange, "okx") || str_eq(exchange, "kucoin") || str_eq(
        exchange,
        "coinbase",
    ) {
        replace_char(symbol, '/', '-')
    } else {
        symbol.to_owned()
    }
}

/// Splits a concatenated symbol before a known quote suffix.
pub open spec fn spec_quote_join(sym: Seq<char>, quote: Seq<char>) -> Seq<char> {
    sym.subrange(0, sym.len() - quote.len()) + seq!['/'] + quote
}

/// The internal form of a venue symbol without separators, as the venues
/// that concatenate base and quote are read back: the longest known quote
/// suffix is split off; a symbol equal to the quote alone is unchanged.
pub open spec fn spec_concat_from(sym: Seq<char>) -> Seq<char> {
    if spec_ends_with(sym, "USDT"@) && sym.len() > 4 {
        spec_quote_join(sym, "USDT"@)
    } else if spec_ends_with(sym, "USD"@) && sym.len() > 3 {
        spec_quote_join(sym, "USD"@)
    } else {
        sym
    }
}

/// As [`spec_concat_from`], but lower-case on the wire and upper-cased on
/// the way in.
pub open spec fn spec_lower_concat_from(sym: Seq<char>) -> Seq<char> {
    if spec_ends_with(sym, "usdt"@) {
        spec_to_upper(sym.subrange(0, sym.len() - 4)) + seq!['/'] + "USDT"@
    } else if spec_ends_with(sym, "usd"@) {
        spec_to_upper(sym.subrange(0, sym.len() - 3)) + seq!['/'] + "USD"@
    } else {
        spec_to_upper(sym)
    }
}

/// The internal `BASE/QUOTE` form of a venue's own symbol notation: every
/// symbol is normalized before it leaves an adapter.
pub open spec fn spec_symbol_from_exchange(ex: Seq<char>, sym: Seq<char>) -> Seq<char> {
    if ex == "gateio"@ || ex == "mexc"@ {
        spec_replace(sym, '_', '/')
    } else if ex == "binance"@ || ex == "binanceus"@ {
        spec_concat_from(sym)
    } else if ex == "okx"@ || ex == "kucoin"@ || ex == "coinbase"@ {
        spec_replace(sym, '-', '/')
    } else if ex == "bybit"@ {
        if spec_ends_with(sym, "USDT"@) {
            spec_quote_join(sym, "USDT"@)
        } else if spec_ends_with(sym, "USD"@) {
            spec_quote_join(sym, "USD"@)
        } else {
            sym
        }
    } else if ex == "bitrue"@ || ex == "bitstamp"@ {
        spec_lower_concat_from(sym)
    } else if ex == "bitfinex"@ {
        spec_concat_from(sym)
    } else {
        sym
    }
}

fn quote_join(symbol: &str, strip: usize, quote: &str) -> (r: String)
    requires
        strip <= symbol@.len(),
    ensures
        r@ == symbol@.subrange(0, strip as int) + seq!['/'] + quote@,
{
    let mut r = symbol.substring_char(0, strip).to_owned();
    crate::strings::push_char(&mut r, '/');
    r.append(quote);
    proof {
        assert(r@ =~= symbol@.subrange(0, strip as int) + seq!['/'] + quote@);
    }
    r
}

/// Converts a venue's own symbol notation back into the internal format.
pub fn symbol_from_exchange(exchange: &str, symbol: &str) -> (r: String)
    ensures
        r@ == spec_symbol_from_exchange(exchange@, symbol@),
{
    let n = symbol.unicode_len();
    proof {
        reveal_strlit("USDT");
        reveal_strlit("USD");
        reveal_strlit("usdt");
        reveal_strlit("usd");
    }
    if str_eq(exchange, "gateio") || str_eq(exchange, "mexc") {
        replace_char(symbol, '_', '/')
    } else if str_eq(exchange, "binance") || str_eq(exchange, "binanceus") {
        if ends_with_str(symbol, "USDT") && n > 4 {
            quote_join(symbol, n - 4, "USDT")
        } else if ends_with_str(symbol, "USD") && n > 3 {
            quote_join(symbol, n - 3, "USD")
        } else {
            symbol.to_owned()
        }
    } else if str_eq(exchange, "okx") || str_eq(exchange, "kucoin") || str_eq(
        exchange,
        "coinbase",
    ) {
        replace_char(symbol, '-', '/')
    } else if str_eq(exchange, "bybit") {
        if ends_with_str(symbol, "USDT") {
            quote_join(symbol, n - 4, "USDT")
        } else if ends_with_str(symbol, "USD") {
            quote_join(symbol, n - 3, "USD")
        } else {
            symbol.to_owned()
        }
    } else if str_eq(exchange, "bitrue") || str_eq(exchange, "bitstamp") {
        lower_concat(symbol)
    } else if str_eq(exchange, "bitfinex") {
        if ends_with_str(symbol, "USDT") && n > 4 {
            quote_join(symbol, n - 4, "USDT")
        } else if ends_with_str(symbol, "USD") && n > 3 {
            quote_join(symbol, n - 3, "USD")
        } else {
            symbol.to_owned()
        }
    } else {
        symbol.to_owned()
    }
}

/// Splits a lower-case concatenated symbol before its quote suffix and
/// upper-cases the parts.
fn lower_concat(symbol: &str) -> (r: String)
    ensures
        r@ == spec_lower_concat_from(symbol@),
{
    let n = symbol.unicode_len();
    proof {
        reveal_strlit("usdt");
        reveal_strlit("usd");
    }
    if ends_with_str(symbol, "usdt") {
        let base = to_ascii_upper(symbol.substring_char(0, n - 4));
        let mut r = base;
        crate::strings::push_char(&mut r, '/');
        r.append("USDT");
        proof {
            assert(r@ =~= spec_to_upper(symbol@.subrange(0, symbol@.len() - 4)) + seq!['/']
                + "USDT"@);
        }
        r
    } else if ends_with_str(symbol, "usd") {
        let base = to_ascii_upper(symbol.substring_char(0, n - 3));
        let mut r = base;
        crate::strings::push_char(&mut r, '/');
        r.append("USD");
        proof {
            assert(r@ =~= spec_to_upper(symbol@.subrange(0, symbol@.len() - 3)) + seq!['/']
                + "USD"@);
        }
        r
    } else {
        to_ascii_upper(symbol)
    }
}

/// A lower-case concatenated symbol that normalizes cleanly: a nonempty
/// base before a known quote suffix, with no slash anywhere.
pub open spec fn lower_concat_symbol_ok(sym: Seq<char>) -> bool {
    &&& (forall|i: int| 0 <= i < sym.len() ==> sym[i] != '/')
    &&& ((spec_ends_with(sym, "usdt"@) && sym.len() > 4) || (!spec_ends_with(sym, "usdt"@)
        && spec_ends_with(sym, "usd"@) && sym.len() > 3))
}

/// Splitting such a symbol at its quote suffix yields a normalized
/// `BASE/QUOTE` symbol.
pub proof fn lemma_lower_concat_normalized(sym: Seq<char>)
    requires
        lower_concat_symbol_ok(sym),
    ensures
        crate::schema::is_normalized_symbol(spec_lower_concat_from(sym)),
{
    broadcast use vstd::string::group_string_axioms;

    reveal_strlit("usdt");
    reveal_strlit("usd");
    reveal_strlit("USDT");
    reveal_strlit("USD");
    if spec_ends_with(sym, "usdt"@) {
        let k = sym.len() - 4;
        let rs = spec_to_upper(sym.subrange(0, k as int)) + seq!['/'] + "USDT"@;
        assert(spec_lower_concat_from(sym) == rs);
        assert(rs[k as int] == '/');
        assert forall|i: int| 0 <= i < rs.len() && i != k implies rs[i] != '/' by {
            if i < k {
                assert(rs[i] == crate::strings::spec_upper_char(sym.subrange(0, k as int)[i]));
                assert(sym[i] != '/');
            } else {
                assert(rs[i] == "USDT"@[i - k - 1]);
            }
        }
    } else {
        let k = sym.len() - 3;
        let rs = spec_to_upper(sym.subrange(0, k as int)) + seq!['/'] + "USD"@;
        assert(spec_lower_concat_from(sym) == rs);
        assert(rs[k as int] == '/');
        assert forall|i: int| 0 <= i < rs.len() && i != k implies rs[i] != '/' by {
            if i < k {
                assert(rs[i] == crate::strings::spec_upper_char(sym.subrange(0, k as int)[i]));
                assert(sym[i] != '/');
            } else {
                assert(rs[i] == "USD"@[i - k - 1]);
            }
        }
    }
}

} // verus!
