//! The dispatch bridge: deliveries headed for the consumer's execution
//! context are queued here in submission order and drained one at a time
//! from that context.  A delivery carries either events or an error, never
//! both.

use vstd::prelude::*;

verus! {

use crate::events::WatchEvent;

/// One delivery to the consumer callback: a non-empty batch of events, or
/// an error message with no events.
#[derive(Clone, Debug)]
pub struct WatchCallbackResult {
    pub error: Option<String>,
    pub events: Vec<WatchEvent>,
}

/// A delivery is well-formed when it carries exactly one of the two
/// payloads: events without an error, or an error without events.
pub open spec fn valid_delivery(d: WatchCallbackResult) -> bool {
    match d.error {
        Some(_) => d.events@.len() == 0,
        None => d.events@.len() > 0,
    }
}

/// The queue between the engine's processing context and the consumer's.
/// Submissions keep their order; the consumer drains from the front.
pub struct DispatchBridge {
    queue: Vec<WatchCallbackResult>,
}

impl DispatchBridge {
    /// The deliveries submitted but not yet drained, oldest first.
    pub closed spec fn queued(&self) -> Seq<WatchCallbackResult> {
        self.queue@
    }

    /// A fresh bridge with nothing queued.
    pub fn new() -> (r: DispatchBridge)
        ensures
            r.queued() == Seq::<WatchCallbackResult>::empty(),
    {
        DispatchBridge { queue: Vec::new() }
    }

    /// Hands one delivery to the bridge.  It is appended behind every
    /// delivery submitted earlier and will reach the consumer exactly
    /// once, in that order.  Non-blocking: nothing here waits on the
    /// consumer.
    pub fn submit(&mut self, delivery: WatchCallbackResult)
        requires
            valid_delivery(delivery),
        ensures
            final(self).queued() == old(self).queued().push(delivery),
    {
        self.queue.push(delivery);
    }

    /// Takes the oldest queued delivery, if any; the consumer's context
    /// calls this to run its callback.
    pub fn next_delivery(&mut self) -> (r: Option<WatchCallbackResult>)
        ensures
            old(self).queued().len() == 0 ==> r is None && final(self).queued() == old(self).queued(),
            old(self).queued().len() > 0 ==> r == Some(old(self).queued()[0])
                && final(self).queued() == old(self).queued().subrange(
                1,
                old(self).queued().len() as int,
            ),
    {
        if self.queue.len() == 0 {
            None
        } else {
            Some(self.queue.remove(0))
        }
    }
}

} // verus!
