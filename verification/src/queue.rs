//! The hand-off queue between the callback side and the consumer side.
//!
//! This is the bridge's sole shared point: the callback bridge enqueues
//! converted events at the back, the async adapter dequeues at the front,
//! and the order of arrival is never changed.  Two delivery strategies
//! exist, chosen at construction and never mixed:
//!
//! - **unbounded, non-blocking** (the executable bridge's default, matching
//!   an unbounded channel): a delivery to an open queue always succeeds, and
//!   memory grows with the backlog if the consumer never drains;
//! - **bounded, backpressured**: a delivery to a full queue is refused with
//!   [`PushOutcome::WouldBlock`], losing nothing — the callback side blocks
//!   (or retries) until the consumer drains or the queue is disposed.
//!
//! Once the queue is closed, deliveries are dropped silently
//! ([`PushOutcome::Disconnected`]); events already pending stay readable, so
//! the consumer drains the queue and then sees the end of the sequence.

use vstd::prelude::*;

use crate::event::Event;

verus! {

/// What became of one delivery attempt.
#[derive(Clone, Copy, Debug, PartialEq, Eq, Structural)]
pub enum PushOutcome {
    /// The event was appended to the pending events.
    Delivered,
    /// The queue is bounded and full; nothing was lost, and the delivery
    /// must wait until the consumer drains or the queue is disposed.
    WouldBlock,
    /// The queue was already closed; the event was dropped silently, as a
    /// late callback near teardown must be.
    Disconnected,
}

/// Whether a queue with pending events `p`, capacity `cap` (`None` for
/// unbounded) and closed flag `closed` accepts one more delivery.
pub open spec fn spec_accepts(p: Seq<Event>, cap: Option<usize>, closed: bool) -> bool {
    &&& !closed
    &&& (cap matches Some(c) ==> p.len() < c)
}

/// The pending events after one delivery of `e`: appended when accepted,
/// unchanged otherwise.
pub open spec fn spec_push(p: Seq<Event>, cap: Option<usize>, closed: bool, e: Event) -> Seq<
    Event,
> {
    if spec_accepts(p, cap, closed) {
        p.push(e)
    } else {
        p
    }
}

/// The pending events after the deliveries `s`, made in order.
pub open spec fn spec_push_all(p: Seq<Event>, cap: Option<usize>, closed: bool, s: Seq<Event>) -> Seq<
    Event,
>
    decreases s.len(),
{
    if s.len() == 0 {
        p
    } else {
        spec_push_all(spec_push(p, cap, closed, s[0]), cap, closed, s.skip(1))
    }
}

/// The events that `n` consecutive polls yield from pending events `p`, in
/// the order they are yielded.
pub open spec fn spec_polled(p: Seq<Event>, n: nat) -> Seq<Event>
    decreases n,
{
    if n == 0 || p.len() == 0 {
        Seq::empty()
    } else {
        seq![p[0]] + spec_polled(p.skip(1), (n - 1) as nat)
    }
}

/// The concurrency-safe hand-off point, modelled as its observable state:
/// the pending events in arrival order, the capacity strategy, and whether
/// the sending endpoint has been disposed.
pub struct EventQueue {
    items: Vec<Event>,
    capacity: Option<usize>,
    closed: bool,
}

impl EventQueue {
    /// The events delivered and not yet consumed, in arrival order.
    pub closed spec fn pending(&self) -> Seq<Event> {
        self.items@
    }

    /// The capacity strategy: `None` for unbounded, `Some(c)` for bounded.
    pub closed spec fn capacity(&self) -> Option<usize> {
        self.capacity
    }

    /// Whether the sending endpoint has been disposed.
    pub closed spec fn is_closed(&self) -> bool {
        self.closed
    }

    /// Whether one more delivery would be accepted.
    pub open spec fn can_accept(&self) -> bool {
        spec_accepts(self.pending(), self.capacity(), self.is_closed())
    }

    /// An open queue of the unbounded, non-blocking strategy.
    pub fn new_unbounded() -> (q: EventQueue)
        ensures
            q.pending() == Seq::<Event>::empty(),
            q.capacity() is None,
            !q.is_closed(),
    {
        EventQueue { items: Vec::new(), capacity: None, closed: false }
    }

    /// An open queue of the bounded, backpressured strategy: at most
    /// `capacity` events are ever pending.
    pub fn new_bounded(capacity: usize) -> (q: EventQueue)
        ensures
            q.pending() == Seq::<Event>::empty(),
            q.capacity() == Some(capacity),
            !q.is_closed(),
    {
        EventQueue { items: Vec::new(), capacity: Some(capacity), closed: false }
    }

    /// Callback-side delivery of one event.
    ///
    /// Exactly one of three things happens: the event is appended at the
    /// back (`Delivered`), a full bounded queue refuses it without losing
    /// anything (`WouldBlock`), or a closed queue drops it silently
    /// (`Disconnected`).  The capacity strategy and the closed flag never
    /// change here.
    pub fn push(&mut self, e: Event) -> (r: PushOutcome)
        ensures
            final(self).pending() == spec_push(
                old(self).pending(),
                old(self).capacity(),
                old(self).is_closed(),
                e,
            ),
            old(self).is_closed() ==> r == PushOutcome::Disconnected,
            !old(self).is_closed() && !old(self).can_accept() ==> r == PushOutcome::WouldBlock,
            old(self).can_accept() ==> r == PushOutcome::Delivered,
            final(self).capacity() == old(self).capacity(),
            final(self).is_closed() == old(self).is_closed(),
    {
        if self.closed {
            PushOutcome::Disconnected
        } else {
            let full = match self.capacity {
                Some(c) => self.items.len() >= c,
                None => false,
            };
            if full {
                PushOutcome::WouldBlock
            } else {
                self.items.push(e);
                PushOutcome::Delivered
            }
        }
    }

    /// Consumer-side poll for the next event.
    ///
    /// Yields the front pending event when one is there (FIFO: the queue
    /// never reorders).  With nothing pending, an open queue answers `None`
    /// meaning "nothing yet" — the adapter suspends on it — while a closed
    /// queue also answers `None`, and [`EventQueue::is_drained`] then tells
    /// the adapter the sequence has ended.
    pub fn pop(&mut self) -> (r: Option<Event>)
        ensures
            old(self).pending().len() > 0 ==> {
                &&& r == Some(old(self).pending()[0])
                &&& final(self).pending() == old(self).pending().skip(1)
            },
            old(self).pending().len() == 0 ==> {
                &&& r is None
                &&& final(self).pending() == old(self).pending()
            },
            final(self).capacity() == old(self).capacity(),
            final(self).is_closed() == old(self).is_closed(),
    {
        if self.items.len() > 0 {
            let e = self.items.remove(0);
            proof {
                assert(old(self).pending().remove(0) =~= old(self).pending().skip(1));
            }
            Some(e)
        } else {
            None
        }
    }

    /// Whether the sequence has ended: the sending endpoint is disposed and
    /// every pending event has been consumed.
    pub fn is_drained(&self) -> (r: bool)
        ensures
            r == (self.is_closed() && self.pending().len() == 0),
    {
        self.closed && self.items.len() == 0
    }

    /// Disposes the sending endpoint.  Later deliveries are refused with
    /// `Disconnected`; events already pending stay readable in order.
    pub fn close(&mut self)
        ensures
            final(self).is_closed(),
            final(self).pending() == old(self).pending(),
            final(self).capacity() == old(self).capacity(),
    {
        self.closed = true;
    }
}

/// FIFO ordering, delivery side: deliveries made in order onto an open
/// unbounded queue all land, behind what was already pending and in the
/// order they were made.
pub proof fn lemma_fifo_order(p: Seq<Event>, s: Seq<Event>)
    ensures
        spec_push_all(p, None, false, s) == p + s,
    decreases s.len(),
{
    if s.len() == 0 {
        assert(p + s =~= p);
    } else {
        lemma_fifo_order(p.push(s[0]), s.skip(1));
        assert(p.push(s[0]) + s.skip(1) =~= p + s);
    }
}

/// FIFO ordering, consumer side: polling as many times as there are pending
/// events yields exactly those events, in their arrival order.
pub proof fn lemma_polls_in_order(p: Seq<Event>)
    ensures
        spec_polled(p, p.len()) == p,
    decreases p.len(),
{
    if p.len() == 0 {
        assert(spec_polled(p, 0) =~= p);
    } else {
        lemma_polls_in_order(p.skip(1));
        assert(seq![p[0]] + p.skip(1) =~= p);
    }
}

/// No delivery after close: once the sending endpoint is disposed, any
/// sequence of delivery attempts, of any capacity strategy, leaves the
/// pending events exactly as they were — no late callback reaches the
/// consumer.
pub proof fn lemma_no_delivery_after_close(p: Seq<Event>, cap: Option<usize>, s: Seq<Event>)
    ensures
        spec_push_all(p, cap, true, s) == p,
    decreases s.len(),
{
    if s.len() > 0 {
        lemma_no_delivery_after_close(p, cap, s.skip(1));
    }
}

/// Backpressure bound: with capacity 1 and a consumer that never polls, the
/// first delivery is accepted and a second is refused — while the refusal
/// loses nothing, the first event stays pending.
pub proof fn lemma_backpressure_bound(e1: Event, e2: Event)
    ensures
        spec_accepts(Seq::<Event>::empty(), Some(1usize), false),
        spec_push(Seq::<Event>::empty(), Some(1usize), false, e1) == seq![e1],
        !spec_accepts(seq![e1], Some(1usize), false),
        spec_push(seq![e1], Some(1usize), false, e2) == seq![e1],
{
    assert(Seq::<Event>::empty().push(e1) =~= seq![e1]);
}

} // verus!
