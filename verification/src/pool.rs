//! The Outbound Pool: a fixed set of Outbound Senders with random load
//! distribution, a small retry budget, and a network-free echo mode.

use vstd::prelude::*;
use vstd::string::*;
use crate::errors::EngineError;
use crate::metrics::{metrics_eq_except_dropped, spec_bump, RuntimeMetrics};
use crate::schema::MarketMessage;
use crate::sender::{queue_model, queue_wf, spec_enqueue, MasterSender};
use crate::wire::{spec_wire, to_wire_text};

verus! {

/// Relies on `rand::random_range`: a uniformly chosen index below `n`.
#[verifier::external_body]
fn pick_index(n: usize) -> (r: usize)
    requires
        n > 0,
    ensures
        r < n,
{
    rand::random_range(0..n)
}

/// A fixed set of independent senders, or none at all in echo mode.
pub struct MasterPool {
    /// The senders, created once at startup.
    pub senders: Vec<MasterSender>,
    /// Echo mode: nothing ever touches a network, messages land in the
    /// local sink instead.
    pub demo: bool,
    /// The local sink of echo mode.
    pub echo: Vec<String>,
}

/// Every queue in the pool respects its bound.
pub open spec fn pool_wf(p: MasterPool) -> bool {
    forall|i: int| 0 <= i < p.senders@.len() ==> queue_wf((#[trigger] p.senders@[i]).queue)
}

/// Whether two pools have senders with identical generations, bounds and
/// link states.
pub open spec fn senders_frame(a: MasterPool, b: MasterPool) -> bool {
    &&& a.senders@.len() == b.senders@.len()
    &&& forall|i: int|
        0 <= i < a.senders@.len() ==> {
            &&& (#[trigger] a.senders@[i]).queue.generation == b.senders@[i].queue.generation
            &&& a.senders@[i].queue.bound == b.senders@[i].queue.bound
            &&& a.senders@[i].link_up == b.senders@[i].link_up
        }
}

impl MasterPool {
    /// A pool of `count` fresh senders, or no senders at all in echo
    /// mode.
    pub fn new(count: usize, bound: usize, demo: bool) -> (r: MasterPool)
        ensures
            r.demo == demo,
            r.echo@.len() == 0,
            demo ==> r.senders@.len() == 0,
            !demo ==> r.senders@.len() == count,
            forall|i: int|
                0 <= i < r.senders@.len() ==> {
                    &&& (#[trigger] r.senders@[i]).queue.generation == 0
                    &&& r.senders@[i].queue.items@.len() == 0
                    &&& r.senders@[i].queue.bound == bound
                    &&& !r.senders@[i].link_up
                },
            pool_wf(r),
    {
        let mut senders: Vec<MasterSender> = Vec::new();
        if !demo {
            let mut i: usize = 0;
            while i < count
                invariant
                    i <= count,
                    senders@.len() == i,
                    forall|j: int|
                        0 <= j < i ==> {
                            &&& (#[trigger] senders@[j]).queue.generation == 0
                            &&& senders@[j].queue.items@.len() == 0
                            &&& senders@[j].queue.bound == bound
                            &&& !senders@[j].link_up
                        },
                decreases count - i,
            {
                senders.push(MasterSender::new(bound));
                i += 1;
            }
        }
        MasterPool { senders, demo, echo: Vec::new() }
    }

    /// Relays one canonical message: selects a sender at random and tries
    /// to hand the encoded message over, retrying against another random
    /// sender up to a budget of three attempts in all. Exhausting the
    /// budget is a reported, non-fatal failure and the message is
    /// dropped. In echo mode every message is accepted unconditionally
    /// and lands only in the local sink.
    ///
    /// The attempts here are immediate: a brief pause between retries is
    /// deployment pacing that changes no outcome, so it is left to the
    /// caller's scheduling rather than modeled in the engine.
    pub fn send(&mut self, msg: &MarketMessage, metrics: &mut RuntimeMetrics) -> (r: Result<
        (),
        EngineError,
    >)
        requires
            old(self).demo || old(self).senders@.len() > 0,
            pool_wf(*old(self)),
        ensures
            pool_wf(*final(self)),
            final(self).demo == old(self).demo,
            senders_frame(*final(self), *old(self)),
            metrics_eq_except_dropped(*final(metrics), *old(metrics)),
            old(metrics).dropped_messages <= final(metrics).dropped_messages <= spec_bump(
                old(metrics).dropped_messages,
            ),
            old(self).demo ==> {
                &&& r is Ok
                &&& final(self).echo@.map_values(|s: String| s@) == old(self).echo@.map_values(
                    |s: String| s@,
                ).push(spec_wire(msg@))
                &&& final(self).senders@ == old(self).senders@
                &&& *final(metrics) == *old(metrics)
            },
            !old(self).demo ==> final(self).echo@ == old(self).echo@,
            !old(self).demo && (forall|i: int|
                0 <= i < old(self).senders@.len() ==> !(#[trigger] old(
                    self,
                ).senders@[i]).link_up) ==> r == Result::<(), EngineError>::Err(
                EngineError::AllSendersBusy,
            ),
            !old(self).demo && (forall|i: int|
                0 <= i < old(self).senders@.len() ==> (#[trigger] old(
                    self,
                ).senders@[i]).link_up) ==> r is Ok,
            r is Err ==> r == Result::<(), EngineError>::Err(EngineError::AllSendersBusy),
            r is Err ==> final(metrics).dropped_messages == old(metrics).dropped_messages,
            !old(self).demo && r is Err ==> forall|i: int|
                0 <= i < old(self).senders@.len() ==> queue_model(
                    (#[trigger] final(self).senders@[i]).queue,
                ) == queue_model(old(self).senders@[i].queue),
            !old(self).demo && r is Ok ==> exists|i: int|
                0 <= i < old(self).senders@.len() && (#[trigger] old(self).senders@[i]).link_up
                    && queue_model(final(self).senders@[i].queue) == spec_enqueue(
                    queue_model(old(self).senders@[i].queue),
                    old(self).senders@[i].queue.bound as nat,
                    spec_wire(msg@),
                ) && (forall|j: int|
                    0 <= j < old(self).senders@.len() && j != i ==> queue_model(
                        (#[trigger] final(self).senders@[j]).queue,
                    ) == queue_model(old(self).senders@[j].queue)),
    {
        let wire = to_wire_text(msg);
        if self.demo {
            let ghost pre = self.echo@.map_values(|s: String| s@);
            self.echo.push(wire);
            proof {
                assert(self.echo@.map_values(|s: String| s@) =~= pre.push(self.echo@.last()@));
            }
            return Ok(());
        }
        let n = self.senders.len();
        let mut attempt: usize = 0;
        while attempt < 3
            invariant
                attempt <= 3,
                n == self.senders@.len(),
                n == old(self).senders@.len(),
                n > 0,
                !self.demo,
                self.demo == old(self).demo,
                self.echo@ == old(self).echo@,
                wire@ == spec_wire(msg@),
                pool_wf(*self),
                senders_frame(*self, *old(self)),
                metrics_eq_except_dropped(*metrics, *old(metrics)),
                metrics.dropped_messages == old(metrics).dropped_messages,
                forall|i: int|
                    0 <= i < n ==> queue_model((#[trigger] self.senders@[i]).queue) == queue_model(
                        old(self).senders@[i].queue,
                    ),
                attempt > 0 ==> exists|i: int|
                    0 <= i < n && !(#[trigger] old(self).senders@[i]).link_up,
            decreases 3 - attempt,
        {
            let idx = pick_index(n);
            let ghost pre_senders = self.senders@;
            let mut s = self.senders.remove(idx);
            let res = s.send(wire.clone(), metrics);
            self.senders.insert(idx, s);
            proof {
                assert(self.senders@ =~= pre_senders.update(idx as int, self.senders@[idx as int]));
            }
            match res {
                Ok(()) => {
                    return Ok(());
                },
                Err(_) => {
                    proof {
                        assert(!s.link_up);
                        assert(!old(self).senders@[idx as int].link_up);
                    }
                },
            }
            attempt += 1;
        }
        Err(EngineError::AllSendersBusy)
    }
}

} // verus!
