//! The fan-out planner.
//!
//! Decides how a venue's configured symbols are grouped into persistent
//! streams: trade symbols are partitioned into fixed-size contiguous
//! chunks (the last chunk may be smaller), while every order-book symbol
//! gets a stream of its own, never grouped.

use vstd::prelude::*;
use vstd::string::*;
use crate::ChannelType;
use crate::config::ExchangeConfig;
use crate::{chunk_count, spec_chunk_count};

verus! {

/// What one stream is bound to, immutable for the stream's whole life:
/// the venue, the channel type, and the ordered symbol subset. A failed
/// connection reconnects under the same identity.
pub struct ConnectionIdentity {
    /// Venue identifier.
    pub venue: String,
    /// Channel type carried by the stream.
    pub channel: ChannelType,
    /// Ordered symbols carried by the stream.
    pub symbols: Vec<String>,
}

/// The symbol subset of the `c`-th trade chunk.
pub open spec fn spec_chunk(symbols: Seq<String>, k: nat, c: int) -> Seq<String> {
    if (c + 1) * k <= symbols.len() {
        symbols.subrange(c * k, (c + 1) * k)
    } else {
        symbols.subrange(c * k, symbols.len() as int)
    }
}

proof fn lemma_chunk_start_in_range(n: nat, k: nat, c: int)
    requires
        k > 0,
        0 <= c < spec_chunk_count(n, k),
    ensures
        c * k < n,
    decreases n,
{
    assert(c * k < n) by (nonlinear_arith)
        requires
            k > 0,
            n >= 0,
            0 <= c,
            c < ((n + k - 1) / k as int),
    ;
}

/// Plans the streams for one venue and channel.
///
/// Trades: the configured list is cut into contiguous chunks of
/// `trades_per_connection` symbols, one stream per chunk, the last chunk
/// possibly smaller. Order books: exactly one stream per symbol.
pub fn plan_streams(channel: ChannelType, cfg: &ExchangeConfig) -> (r: Vec<ConnectionIdentity>)
    requires
        channel == ChannelType::Trades ==> cfg.chunking.trades_per_connection > 0,
    ensures
        forall|i: int|
            0 <= i < r@.len() ==> (#[trigger] r@[i]).venue@ == cfg.name@ && r@[i].channel
                == channel,
        channel == ChannelType::Trades ==> {
            let k = cfg.chunking.trades_per_connection as nat;
            &&& r@.len() == spec_chunk_count(cfg.pairs.trades@.len(), k)
            &&& forall|i: int|
                0 <= i < r@.len() ==> (#[trigger] r@[i]).symbols@ == spec_chunk(
                    cfg.pairs.trades@,
                    k,
                    i,
                )
        },
        channel == ChannelType::OrderBooks ==> {
            &&& r@.len() == cfg.pairs.orderbooks@.len()
            &&& forall|i: int|
                0 <= i < r@.len() ==> (#[trigger] r@[i]).symbols@ == seq![
                    cfg.pairs.orderbooks@[i],
                ]
        },
{
    let mut r: Vec<ConnectionIdentity> = Vec::new();
    match channel {
        ChannelType::Trades => {
            let k = cfg.chunking.trades_per_connection;
            let n = cfg.pairs.trades.len();
            let m = chunk_count(n, k);
            let mut c: usize = 0;
            while c < m
                invariant
                    k > 0,
                    n == cfg.pairs.trades@.len(),
                    m == spec_chunk_count(n as nat, k as nat),
                    c <= m,
                    r@.len() == c,
                    forall|i: int|
                        0 <= i < c ==> (#[trigger] r@[i]).venue@ == cfg.name@ && r@[i].channel
                            == ChannelType::Trades && r@[i].symbols@ == spec_chunk(
                            cfg.pairs.trades@,
                            k as nat,
                            i,
                        ),
                decreases m - c,
            {
                proof {
                    lemma_chunk_start_in_range(n as nat, k as nat, c as int);
                }
                let start = c * k;
                let end = if n - start > k {
                    start + k
                } else {
                    n
                };
                let mut chunk: Vec<String> = Vec::new();
                let mut j = start;
                while j < end
                    invariant
                        start <= j <= end <= n,
                        n == cfg.pairs.trades@.len(),
                        chunk@ == cfg.pairs.trades@.subrange(start as int, j as int),
                    decreases end - j,
                {
                    chunk.push(cfg.pairs.trades[j].clone());
                    proof {
                        assert(chunk@ =~= cfg.pairs.trades@.subrange(start as int, j + 1));
                    }
                    j += 1;
                }
                proof {
                    assert((c as int + 1) * (k as int) == c as int * (k as int) + k as int)
                        by (nonlinear_arith);
                    assert(chunk@ == spec_chunk(cfg.pairs.trades@, k as nat, c as int));
                }
                r.push(
                    ConnectionIdentity {
                        venue: cfg.name.clone(),
                        channel: ChannelType::Trades,
                        symbols: chunk,
                    },
                );
                c += 1;
            }
        },
        ChannelType::OrderBooks => {
            let n = cfg.pairs.orderbooks.len();
            let mut i: usize = 0;
            while i < n
                invariant
                    n == cfg.pairs.orderbooks@.len(),
                    i <= n,
                    r@.len() == i,
                    forall|j: int|
                        0 <= j < i ==> (#[trigger] r@[j]).venue@ == cfg.name@ && r@[j].channel
                            == ChannelType::OrderBooks && r@[j].symbols@ == seq![
                            cfg.pairs.orderbooks@[j],
                        ],
                decreases n - i,
            {
                let mut one: Vec<String> = Vec::new();
                one.push(cfg.pairs.orderbooks[i].clone());
                proof {
                    assert(one@ =~= seq![cfg.pairs.orderbooks@[i as int]]);
                }
                r.push(
                    ConnectionIdentity {
                        venue: cfg.name.clone(),
                        channel: ChannelType::OrderBooks,
                        symbols: one,
                    },
                );
                i += 1;
            }
        },
    }
    r
}

} // verus!
