//! Gathering a burst of "Open With" hand-offs into one batch.
//!
//! Some file managers launch a fresh process per selected file, so a
//! multi-file "Open With" arrives as several hand-offs within milliseconds of
//! each other. The batcher holds what has arrived until a quiet period passes
//! with nothing new, and then hands the whole batch on at once. The waiting
//! and the channel stay with the caller: it reports what happened, and the
//! batcher says what to do next.

use vstd::prelude::*;

verus! {

/// What the caller should do after a quiet-period check.
pub enum BatchStep {
    /// Wait for another quiet period, then drain the channel and check again.
    Settle,
    /// The burst is over: act on this batch, then wait for the next hand-off.
    Deliver(Vec<String>),
}

/// The batcher's state: the items held back so far, and whether anything
/// arrived since the quiet period began.
pub struct BatchState {
    pub pending: Seq<String>,
    pub more: bool,
}

/// One thing that happens to the batcher.
pub enum BatchEvent {
    /// A hand-off arrived while the app was waiting for one.
    Received(Seq<String>),
    /// A hand-off was found in the channel after a quiet period.
    Drained(Seq<String>),
    /// The channel was drained after a quiet period.
    Settled,
}

/// The state after `event`.
pub open spec fn next_state(s: BatchState, event: BatchEvent) -> BatchState {
    match event {
        BatchEvent::Received(items) => BatchState { pending: s.pending + items, more: false },
        BatchEvent::Drained(items) => BatchState { pending: s.pending + items, more: true },
        BatchEvent::Settled => if s.more {
            BatchState { pending: s.pending, more: false }
        } else {
            BatchState { pending: Seq::empty(), more: false }
        },
    }
}

/// The items that `event` hands on as a batch (none, unless it ends a burst).
pub open spec fn delivered_by(s: BatchState, event: BatchEvent) -> Seq<String> {
    match event {
        BatchEvent::Settled => if s.more {
            Seq::empty()
        } else {
            s.pending
        },
        _ => Seq::empty(),
    }
}

/// The state after `events` from `s`, and all the items handed on meanwhile,
/// batch after batch.
pub open spec fn run(s: BatchState, events: Seq<BatchEvent>) -> (BatchState, Seq<String>)
    decreases events.len(),
{
    if events.len() == 0 {
        (s, Seq::empty())
    } else {
        let (before, delivered) = run(s, events.drop_last());
        (
            next_state(before, events.last()),
            delivered + delivered_by(before, events.last()),
        )
    }
}

/// Every item that arrives in `events`, in order.
pub open spec fn arrived(events: Seq<BatchEvent>) -> Seq<String>
    decreases events.len(),
{
    if events.len() == 0 {
        Seq::empty()
    } else {
        arrived(events.drop_last()) + match events.last() {
            BatchEvent::Received(items) => items,
            BatchEvent::Drained(items) => items,
            BatchEvent::Settled => Seq::empty(),
        }
    }
}

/// No item is lost, repeated or reordered: what has been handed on, followed
/// by what is still held, is what was held at the start followed by every
/// item that arrived, in order.
pub proof fn lemma_batcher_keeps_every_item(s: BatchState, events: Seq<BatchEvent>)
    ensures
        run(s, events).1 + run(s, events).0.pending == s.pending + arrived(events),
    decreases events.len(),
{
    if events.len() > 0 {
        lemma_batcher_keeps_every_item(s, events.drop_last());
        let (before, delivered) = run(s, events.drop_last());
        match events.last() {
            BatchEvent::Received(items) => {
                assert(delivered + (before.pending + items) =~= (delivered + before.pending) + items);
            },
            BatchEvent::Drained(items) => {
                assert(delivered + (before.pending + items) =~= (delivered + before.pending) + items);
            },
            BatchEvent::Settled => {
                assert(arrived(events) =~= arrived(events.drop_last()));
                if before.more {
                    assert(delivered + Seq::<String>::empty() =~= delivered);
                } else {
                    assert(delivered + before.pending + Seq::<String>::empty() =~= delivered
                        + before.pending);
                }
            },
        }
    }
}

/// A lone hand-off is handed on, together with whatever was still held,
/// after the first quiet period in which nothing else arrives; a hand-off
/// found after a quiet period delays the batch by another one, and nothing
/// is handed on meanwhile.
pub proof fn lemma_quiet_period_ends_the_burst(s: BatchState, items: Seq<String>)
    ensures
        ({
            let after = next_state(s, BatchEvent::Received(items));
            &&& delivered_by(after, BatchEvent::Settled) == s.pending + items
            &&& next_state(after, BatchEvent::Settled).pending.len() == 0
        }),
        ({
            let after = next_state(s, BatchEvent::Drained(items));
            &&& delivered_by(after, BatchEvent::Settled).len() == 0
            &&& next_state(after, BatchEvent::Settled).pending == s.pending + items
            &&& delivered_by(next_state(after, BatchEvent::Settled), BatchEvent::Settled)
                == s.pending + items
        }),
        delivered_by(s, BatchEvent::Received(items)).len() == 0,
        delivered_by(s, BatchEvent::Drained(items)).len() == 0,
{
}

/// Holds the hand-offs of a burst until it is over.
pub struct OpenBatcher {
    pending: Vec<String>,
    more: bool,
}

impl View for OpenBatcher {
    type V = BatchState;

    closed spec fn view(&self) -> BatchState {
        BatchState { pending: self.pending@, more: self.more }
    }
}

impl OpenBatcher {
    /// A batcher that holds nothing.
    pub fn new() -> (b: OpenBatcher)
        ensures
            b@.pending == Seq::<String>::empty(),
            !b@.more,
    {
        OpenBatcher { pending: Vec::new(), more: false }
    }

    /// A hand-off arrived while the app waited for one: its items are held,
    /// and a quiet period begins.
    pub fn received(&mut self, items: Vec<String>)
        ensures
            final(self)@ == next_state(old(self)@, BatchEvent::Received(items@)),
    {
        let mut items = items;
        self.pending.append(&mut items);
        self.more = false;
    }

    /// A hand-off was found in the channel after a quiet period: its items
    /// are held, and the burst is not over yet.
    pub fn drained(&mut self, items: Vec<String>)
        ensures
            final(self)@ == next_state(old(self)@, BatchEvent::Drained(items@)),
    {
        let mut items = items;
        self.pending.append(&mut items);
        self.more = true;
    }

    /// The channel has been drained after a quiet period. If something
    /// arrived during it, another quiet period follows; otherwise the burst
    /// is over and everything held goes out as one batch.
    pub fn settle(&mut self) -> (step: BatchStep)
        ensures
            final(self)@ == next_state(old(self)@, BatchEvent::Settled),
            old(self)@.more <==> step is Settle,
            step matches BatchStep::Deliver(batch) ==> batch@ == delivered_by(
                old(self)@,
                BatchEvent::Settled,
            ),
    {
        if self.more {
            self.more = false;
            BatchStep::Settle
        } else {
            let mut batch: Vec<String> = Vec::new();
            std::mem::swap(&mut batch, &mut self.pending);
            BatchStep::Deliver(batch)
        }
    }
}

} // verus!
