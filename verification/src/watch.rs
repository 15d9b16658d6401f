//! The watch handle: the resource owner for one watch session, and the
//! decisions of its lifecycle.
//!
//! A handle moves through the states `Open -> Closed` and owns three things
//! at once: the native watch resource, the sending endpoint the callback
//! bridge delivers through, and the receiving endpoint the consumer polls.
//! The executable front end performs the native calls; this model takes the
//! native layer's answers as plain values and makes every decision:
//!
//! - opening: [`Watch::try_new`] turns the native layer's success flag into
//!   a fresh open handle or a typed [`WatchError::OpenFailed`];
//! - delivery: [`Watch::deliver`] is the callback bridge — it converts the
//!   raw descriptor and enqueues the event, and after teardown it drops the
//!   event silently instead of failing;
//! - closing: [`Watch::request_close`] decides whether the native close must
//!   be invoked (exactly once per handle); [`Watch::confirm_close`] takes
//!   the native answer, disposes the sending endpoint — the native layer
//!   guarantees no callback fires after a confirmed close — and surfaces a
//!   failure as [`WatchError::CloseFailed`];
//! - disposal: [`Watch::dispose`] is the implicit close when the handle goes
//!   out of use; it makes the same at-most-once decision and ignores the
//!   native answer, and disposing the handle is the cancellation mechanism;
//! - consuming: [`Watch::poll_next`] is one step of the pull-based sequence:
//!   the next event in arrival order, or "suspend", or "ended".
//!
//! The handle uses the unbounded, non-blocking delivery strategy, matching
//! an unbounded channel in the executable bridge: a delivery to an open
//! handle always succeeds and never blocks the native thread, at the cost
//! of unbounded backlog under a stalled consumer.

use vstd::prelude::*;

use crate::convert::ev_from_c;
use crate::convert::event_matches_desc;
use crate::convert::EventDesc;
use crate::event::Event;
use crate::queue::spec_push;
use crate::queue::EventQueue;
use crate::queue::PushOutcome;

verus! {

/// A failure of the native layer, surfaced as a typed error.
#[derive(Clone, Copy, Debug, PartialEq, Eq, Structural)]
pub enum WatchError {
    /// The native layer could not start watching the path.
    OpenFailed,
    /// The native layer reported failure while stopping the watch.
    CloseFailed,
}

/// One step of the pull-based event sequence.
#[derive(Clone, Debug, PartialEq)]
pub enum PollOutcome {
    /// The next event, in arrival order.
    Ready(Event),
    /// Nothing is pending yet; the consumer suspends until a delivery or
    /// the close of the handle resumes it.
    Pending,
    /// The handle was closed and every pending event has been consumed:
    /// the sequence has ended, which is never an error by itself.
    Done,
}

/// Whether a close request must invoke the native close, given whether the
/// handle is still open.
pub open spec fn spec_close_invokes(open: bool) -> bool {
    open
}

/// Whether the handle is open after a close request: never, whatever state
/// it was in.
pub open spec fn spec_open_after_close(open: bool) -> bool {
    false
}

/// The owner of one watch session: the lifecycle state and the hand-off
/// queue that stands for the channel between the callback bridge and the
/// consumer.
pub struct Watch {
    queue: EventQueue,
    open: bool,
}

impl Watch {
    /// Whether the handle is open: created, and no close requested yet.
    pub closed spec fn is_open(&self) -> bool {
        self.open
    }

    /// Whether the sending endpoint has been disposed.  It outlives every
    /// possible callback invocation: it is disposed only once the native
    /// layer has confirmed that no further callback will fire.
    pub closed spec fn endpoint_disposed(&self) -> bool {
        self.queue.is_closed()
    }

    /// The events delivered and not yet consumed, in arrival order.
    pub closed spec fn pending(&self) -> Seq<Event> {
        self.queue.pending()
    }

    /// The delivery strategy of this handle: always the unbounded,
    /// non-blocking one.
    pub closed spec fn unbounded(&self) -> bool {
        self.queue.capacity() is None
    }

    /// Opens a watch session.  `opened` is the native layer's answer to the
    /// open call: a non-null handle.  On success the handle is open with an
    /// empty, live queue; a native failure surfaces as `OpenFailed`, never
    /// as a crash, and nothing is retried.
    pub fn try_new(opened: bool) -> (r: Result<Watch, WatchError>)
        ensures
            opened ==> (r matches Ok(w) && w.is_open() && !w.endpoint_disposed()
                && w.unbounded() && w.pending() == Seq::<Event>::empty()),
            !opened ==> (r matches Err(e) && e == WatchError::OpenFailed),
    {
        if opened {
            Ok(Watch { queue: EventQueue::new_unbounded(), open: true })
        } else {
            Err(WatchError::OpenFailed)
        }
    }

    /// The callback bridge: converts a raw descriptor and enqueues the
    /// owned event.
    ///
    /// Total and silent about failure, as a callee of foreign code must be:
    /// before the endpoint is disposed the event lands at the back of the
    /// pending events; afterwards — a late callback racing with teardown —
    /// it is dropped (`Disconnected`), never an error and never undefined
    /// behaviour.
    pub fn deliver(&mut self, desc: EventDesc) -> (r: PushOutcome)
        ensures
            final(self).is_open() == old(self).is_open(),
            final(self).endpoint_disposed() == old(self).endpoint_disposed(),
            final(self).unbounded() == old(self).unbounded(),
            old(self).endpoint_disposed() ==> {
                &&& r == PushOutcome::Disconnected
                &&& final(self).pending() == old(self).pending()
            },
            !old(self).endpoint_disposed() && old(self).unbounded() ==> {
                &&& r == PushOutcome::Delivered
                &&& final(self).pending().len() == old(self).pending().len() + 1
                &&& final(self).pending().take(old(self).pending().len() as int)
                    == old(self).pending()
                &&& event_matches_desc(final(self).pending().last(), desc)
            },
    {
        let e = ev_from_c(desc);
        let r = self.queue.push(e);
        proof {
            if !old(self).endpoint_disposed() && old(self).unbounded() {
                assert(old(self).pending().push(e).take(old(self).pending().len() as int)
                    =~= old(self).pending());
            }
        }
        r
    }

    /// First half of a close, explicit or implicit: decides whether the
    /// native close must be invoked now, and leaves the open state.
    ///
    /// True exactly when the handle was still open, so of any two requests
    /// only the first can reach the native layer: a second explicit close,
    /// or the disposal after one, observably no-ops instead of closing the
    /// native resource twice.  The sending endpoint stays live until the
    /// native layer confirms.
    pub fn request_close(&mut self) -> (r: bool)
        ensures
            r == spec_close_invokes(old(self).is_open()),
            final(self).is_open() == spec_open_after_close(old(self).is_open()),
            final(self).endpoint_disposed() == old(self).endpoint_disposed(),
            final(self).pending() == old(self).pending(),
            final(self).unbounded() == old(self).unbounded(),
    {
        let was_open = self.open;
        self.open = false;
        was_open
    }

    /// Second half of an explicit close: takes the native layer's answer.
    ///
    /// The native close blocks until no in-flight callback can fire any
    /// more, so only now is the sending endpoint disposed; the pending
    /// events stay readable for the consumer to drain.  A native failure
    /// surfaces as `CloseFailed` to the explicit caller.
    pub fn confirm_close(&mut self, native_ok: bool) -> (r: Result<(), WatchError>)
        ensures
            !final(self).is_open(),
            final(self).endpoint_disposed(),
            final(self).pending() == old(self).pending(),
            final(self).unbounded() == old(self).unbounded(),
            native_ok <==> r is Ok,
            !native_ok ==> (r matches Err(e) && e == WatchError::CloseFailed),
    {
        self.open = false;
        self.queue.close();
        if native_ok {
            Ok(())
        } else {
            Err(WatchError::CloseFailed)
        }
    }

    /// The disposal path: the implicit close when the handle goes out of
    /// use, and the consumer's cancellation mechanism.
    ///
    /// Returns whether the native close must still be invoked — false when
    /// an explicit close already requested it, so disposal never doubles
    /// the native close.  The native answer is ignored here: disposal must
    /// not raise further errors.  The endpoint is disposed either way, so a
    /// blocked or late delivery is refused rather than kept waiting.
    pub fn dispose(&mut self) -> (r: bool)
        ensures
            r == spec_close_invokes(old(self).is_open()),
            final(self).is_open() == spec_open_after_close(old(self).is_open()),
            final(self).endpoint_disposed(),
            final(self).pending() == old(self).pending(),
            final(self).unbounded() == old(self).unbounded(),
    {
        let was_open = self.open;
        self.open = false;
        self.queue.close();
        was_open
    }

    /// One step of the async sequence of events, in the consumer's hands.
    ///
    /// Yields the front pending event (FIFO, end to end: the queue never
    /// reorders); with nothing pending it either suspends the consumer
    /// (`Pending`, handle still live) or ends the sequence (`Done`, handle
    /// closed and drained).  The sequence is not restartable: watching
    /// again takes a new handle.
    pub fn poll_next(&mut self) -> (r: PollOutcome)
        ensures
            old(self).pending().len() > 0 ==> {
                &&& r matches PollOutcome::Ready(e) && e == old(self).pending()[0]
                &&& final(self).pending() == old(self).pending().skip(1)
            },
            old(self).pending().len() == 0 && old(self).endpoint_disposed() ==> r
                == PollOutcome::Done && final(self).pending() == old(self).pending(),
            old(self).pending().len() == 0 && !old(self).endpoint_disposed() ==> r
                == PollOutcome::Pending && final(self).pending() == old(self).pending(),
            final(self).is_open() == old(self).is_open(),
            final(self).endpoint_disposed() == old(self).endpoint_disposed(),
            final(self).unbounded() == old(self).unbounded(),
    {
        match self.queue.pop() {
            Some(e) => PollOutcome::Ready(e),
            None => {
                if self.queue.is_drained() {
                    PollOutcome::Done
                } else {
                    PollOutcome::Pending
                }
            },
        }
    }
}

/// At-most-one close effect: whatever state a handle is in, after one close
/// request — explicit close or disposal, in either order — a second request
/// never invokes the native close, so the native resource cannot be freed
/// twice.
pub proof fn lemma_close_at_most_once(open: bool)
    ensures
        !spec_close_invokes(spec_open_after_close(open)),
{
}

} // verus!
