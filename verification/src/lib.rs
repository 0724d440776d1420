//! A verified collection-and-relay engine for real-time market data.
//!
//! The library normalizes heterogeneous venue wire formats into one
//! canonical message schema, plans how symbols are fanned out across
//! persistent streams, models the connection lifecycle of each stream,
//! and relays normalized events to a downstream aggregator through a
//! pool of senders with bounded queues, retries and backpressure.

pub mod config;
pub mod errors;
pub mod exchanges;
pub mod json;
pub mod metrics;
pub mod planner;
pub mod pool;
pub mod runner;
pub mod sender;
pub mod schema;
pub mod strings;
pub mod util;
pub mod wire;

use vstd::prelude::*;

verus! {

/// Logical stream category carried by one connection.
#[derive(Clone, Copy, Debug, PartialEq, Eq, Structural)]
pub enum ChannelType {
    /// Individual trade executions.
    Trades,
    /// Incremental order-book (level 2) updates.
    OrderBooks,
}

/// Number of fixed-size chunks a list of `n` symbols is split into,
/// with chunk size `k`: the last chunk may be smaller.
pub open spec fn spec_chunk_count(n: nat, k: nat) -> nat
    recommends
        k > 0,
{
    ((n + k - 1) / k as int) as nat
}

/// How many streams the planner opens for `n` trade symbols with
/// `k` symbols per connection.
pub fn chunk_count(n: usize, k: usize) -> (r: usize)
    requires
        k > 0,
    ensures
        r == spec_chunk_count(n as nat, k as nat),
{
    if n == 0 {
        proof {
            assert((k - 1) / k as int == 0) by (nonlinear_arith)
                requires
                    k > 0,
            ;
        }
        0
    } else {
        proof {
            assert((n - 1) / k as int + 1 == (n + k - 1) / k as int) by (nonlinear_arith)
                requires
                    k > 0,
                    n >= 1,
            ;
        }
        (n - 1) / k + 1
    }
}

} // verus!
