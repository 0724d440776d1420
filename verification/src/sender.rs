//! The Outbound Sender: one persistent link to the downstream aggregator.
//!
//! A sender owns a replaceable bounded send queue. Enqueueing never
//! blocks the caller: a full queue silently drops the message and counts
//! the drop. On every reconnect a brand-new queue generation replaces the
//! old one, and whatever was still pending in the superseded generation
//! is discarded — never delivered.

use vstd::prelude::*;
use vstd::string::*;
use crate::errors::EngineError;
use crate::metrics::{bump, metrics_eq_except_dropped, spec_bump, RuntimeMetrics};

verus! {

/// One incarnation of a sender's send queue.
pub struct SendQueue {
    /// Which incarnation this is; bumped on every reconnect.
    pub generation: u64,
    /// Pending wire texts, oldest first.
    pub items: Vec<String>,
    /// How many texts may be pending at once.
    pub bound: usize,
}

/// The pending texts of a queue.
pub open spec fn queue_model(q: SendQueue) -> Seq<Seq<char>> {
    q.items@.map_values(|s: String| s@)
}

/// A queue never holds more than its bound.
pub open spec fn queue_wf(q: SendQueue) -> bool {
    q.items@.len() <= q.bound
}

/// What a non-blocking enqueue leaves pending: the text is appended when
/// there is room and silently dropped when the queue is saturated.
pub open spec fn spec_enqueue(items: Seq<Seq<char>>, bound: nat, t: Seq<char>) -> Seq<Seq<char>> {
    if items.len() < bound {
        items.push(t)
    } else {
        items
    }
}

/// What a run of enqueues leaves pending.
pub open spec fn spec_enqueue_all(
    items: Seq<Seq<char>>,
    bound: nat,
    ts: Seq<Seq<char>>,
) -> Seq<Seq<char>>
    decreases ts.len(),
{
    if ts.len() == 0 {
        items
    } else {
        spec_enqueue_all(spec_enqueue(items, bound, ts[0]), bound, ts.drop_first())
    }
}

/// One persistent link to the aggregator with its current queue
/// generation.
pub struct MasterSender {
    /// The current queue incarnation.
    pub queue: SendQueue,
    /// Whether the link is currently established and writable.
    pub link_up: bool,
}

impl MasterSender {
    /// A fresh sender: generation zero, empty queue, link not yet up.
    pub fn new(bound: usize) -> (r: MasterSender)
        ensures
            r.queue.generation == 0,
            r.queue.items@.len() == 0,
            r.queue.bound == bound,
            !r.link_up,
            queue_wf(r.queue),
    {
        MasterSender { queue: SendQueue { generation: 0, items: Vec::new(), bound }, link_up: false }
    }

    /// Non-blocking enqueue of one wire text toward the aggregator.
    ///
    /// With the link up the call always succeeds from the caller's view:
    /// the text is queued when there is room, and silently dropped — with
    /// the drop counted — when the queue is saturated. With the link down
    /// the failure is reported and nothing changes.
    pub fn send(&mut self, text: String, metrics: &mut RuntimeMetrics) -> (r: Result<
        (),
        EngineError,
    >)
        requires
            queue_wf(old(self).queue),
        ensures
            queue_wf(final(self).queue),
            final(self).queue.generation == old(self).queue.generation,
            final(self).queue.bound == old(self).queue.bound,
            final(self).link_up == old(self).link_up,
            metrics_eq_except_dropped(*final(metrics), *old(metrics)),
            r is Ok <==> old(self).link_up,
            r is Err ==> r == Result::<(), EngineError>::Err(EngineError::Send),
            old(self).link_up ==> queue_model(final(self).queue) == spec_enqueue(
                queue_model(old(self).queue),
                old(self).queue.bound as nat,
                text@,
            ),
            !old(self).link_up ==> queue_model(final(self).queue) == queue_model(old(self).queue),
            final(metrics).dropped_messages == (
            if old(self).link_up && old(self).queue.items@.len() >= old(self).queue.bound {
                spec_bump(old(metrics).dropped_messages)
            } else {
                old(metrics).dropped_messages
            }),
    {
        if !self.link_up {
            return Err(EngineError::Send);
        }
        if self.queue.items.len() < self.queue.bound {
            let ghost pre = queue_model(self.queue);
            self.queue.items.push(text);
            proof {
                assert(queue_model(self.queue) =~= pre.push(self.queue.items@.last()@));
            }
        } else {
            bump(&mut metrics.dropped_messages);
        }
        Ok(())
    }

    /// The writer side takes the oldest pending text for transmission.
    pub fn dequeue(&mut self) -> (r: Option<String>)
        ensures
            final(self).queue.generation == old(self).queue.generation,
            final(self).queue.bound == old(self).queue.bound,
            final(self).link_up == old(self).link_up,
            match r {
                Some(t) => queue_model(old(self).queue).len() > 0 && t@ == queue_model(
                    old(self).queue,
                )[0] && queue_model(final(self).queue) == queue_model(
                    old(self).queue,
                ).drop_first(),
                None => queue_model(old(self).queue).len() == 0 && queue_model(final(self).queue)
                    == queue_model(old(self).queue),
            },
    {
        if self.queue.items.len() == 0 {
            return None;
        }
        let t = self.queue.items.remove(0);
        proof {
            assert(queue_model(self.queue) =~= queue_model(old(self).queue).drop_first());
        }
        Some(t)
    }

    /// The link was lost: nothing is writable until the next reconnect.
    pub fn link_down(&mut self)
        ensures
            !final(self).link_up,
            final(self).queue.generation == old(self).queue.generation,
            final(self).queue.bound == old(self).queue.bound,
            queue_model(final(self).queue) == queue_model(old(self).queue),
    {
        self.link_up = false;
    }

    /// A reconnect after the backoff: the old queue generation is
    /// superseded by a brand-new, empty one. Anything still pending in
    /// the old generation is discarded.
    pub fn reconnect(&mut self)
        requires
            old(self).queue.generation < u64::MAX,
        ensures
            final(self).link_up,
            final(self).queue.generation == old(self).queue.generation + 1,
            final(self).queue.items@.len() == 0,
            final(self).queue.bound == old(self).queue.bound,
            queue_wf(final(self).queue),
    {
        self.queue.generation = self.queue.generation + 1;
        self.queue.items = Vec::new();
        self.link_up = true;
    }
}

/// The login handshake line sent first on every new link.
pub fn login_message(key: &str) -> (r: String)
    ensures
        r@ == "key="@ + key@ + "&role=collector"@,
{
    let mut out = String::new();
    out.append("key=");
    out.append(key);
    out.append("&role=collector");
    proof {
        assert(out@ =~= "key="@ + key@ + "&role=collector"@);
    }
    out
}

/// The periodic heartbeat line.
pub fn ping_text() -> (r: String)
    ensures
        r@ == "{\"op\":\"ping\"}"@,
{
    let mut out = String::new();
    out.append("{\"op\":\"ping\"}");
    proof {
        assert(out@ =~= "{\"op\":\"ping\"}"@);
    }
    out
}

/// What wakes the writer of one link.
pub enum WriterEvent {
    /// A queued application message became available.
    QueueMessage(String),
    /// The heartbeat interval elapsed.
    HeartbeatDue,
    /// The reader saw the link close.
    LivenessLost,
}

/// What the writer does next.
pub enum WriterAction {
    /// Transmit this text on the link.
    Transmit(String),
    /// Terminate the link; the sender restarts from connecting.
    Stop,
}

/// The writer's decision for one wakeup: queued data and heartbeats are
/// transmitted, liveness loss terminates the link.
pub fn writer_step(e: WriterEvent) -> (a: WriterAction)
    ensures
        match e {
            WriterEvent::QueueMessage(t) => a matches WriterAction::Transmit(x) && x@ == t@,
            WriterEvent::HeartbeatDue => a matches WriterAction::Transmit(x) && x@
                == "{\"op\":\"ping\"}"@,
            WriterEvent::LivenessLost => a is Stop,
        },
{
    match e {
        WriterEvent::QueueMessage(t) => WriterAction::Transmit(t),
        WriterEvent::HeartbeatDue => WriterAction::Transmit(ping_text()),
        WriterEvent::LivenessLost => WriterAction::Stop,
    }
}

proof fn lemma_enqueue_all_no_stale(
    items: Seq<Seq<char>>,
    bound: nat,
    ts: Seq<Seq<char>>,
    stale: Seq<char>,
)
    requires
        !items.contains(stale),
        !ts.contains(stale),
    ensures
        !spec_enqueue_all(items, bound, ts).contains(stale),
    decreases ts.len(),
{
    if ts.len() > 0 {
        let next = spec_enqueue(items, bound, ts[0]);
        assert(ts.contains(ts[0]));
        if items.len() < bound {
            assert forall|i: int| 0 <= i < next.len() implies next[i] != stale by {
                if i < items.len() {
                    assert(items.contains(items[i])) by {
                        assert(items[i] == items[i]);
                    }
                }
            }
            assert(!next.contains(stale));
        }
        assert forall|i: int| 0 <= i < ts.drop_first().len() implies ts.drop_first()[i] != stale by {
            assert(ts.drop_first()[i] == ts[i + 1]);
            assert(ts.contains(ts[i + 1]));
        }
        lemma_enqueue_all_no_stale(next, bound, ts.drop_first(), stale);
    }
}

/// A sender's queue generation is replaced by a brand-new one on
/// reconnect, and the new generation starts empty. Whatever run of
/// enqueues follows the replacement, the queue can only ever hold texts
/// of that run: a message that was pending against the superseded
/// generation, and is not enqueued again, is never delivered.
pub proof fn lemma_superseded_message_never_delivered(
    stale: Seq<char>,
    bound: nat,
    sent_after: Seq<Seq<char>>,
)
    requires
        !sent_after.contains(stale),
    ensures
        !spec_enqueue_all(Seq::empty(), bound, sent_after).contains(stale),
{
    lemma_enqueue_all_no_stale(Seq::empty(), bound, sent_after, stale);
}

} // verus!
