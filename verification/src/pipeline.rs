//! The delivery end of the pipeline: a due flush is filtered into a batch
//! and submitted to the bridge, and a platform stream failure becomes an
//! error delivery — both only while the subscription is still running.
//! The running flag is checked here, before anything is handed to the
//! bridge, so a flush finishing after `unsubscribe` delivers nothing.

use vstd::prelude::*;

verus! {

use crate::bridge::{DispatchBridge, WatchCallbackResult, valid_delivery};
use crate::engine::{Engine, batch_of};
use crate::events::EventType;
use crate::filter::{IgnoreFilter, spec_ignored};
use crate::subscription::{Subscription, spec_unsubscribe};

/// Whether some pending path would survive the ignore filter.
pub open spec fn has_survivor(
    m: Map<Seq<char>, EventType>,
    patterns: Seq<Seq<char>>,
    root: Seq<char>,
) -> bool {
    exists|p: Seq<char>| m.contains_key(p) && !spec_ignored(patterns, root, p)
}

/// How the queue reacts to one submission attempt: it grows only while
/// submission is allowed.
pub open spec fn spec_gate(
    submit: bool,
    q: Seq<WatchCallbackResult>,
    d: WatchCallbackResult,
) -> Seq<WatchCallbackResult> {
    if submit {
        q.push(d)
    } else {
        q
    }
}

/// Completes one debounce window.  While the subscription runs, the
/// pending set is flushed through the filter and a surviving batch is
/// submitted as one delivery; an all-filtered or empty flush submits
/// nothing.  Once the subscription is stopped, neither the engine nor the
/// bridge is touched.
pub fn handle_flush(
    engine: &mut Engine,
    filter: &IgnoreFilter,
    root: &str,
    running: bool,
    bridge: &mut DispatchBridge,
) -> (submitted: bool)
    requires
        old(engine).wf(),
    ensures
        final(engine).wf(),
        final(bridge).queued() == spec_gate(
            running && has_survivor(old(engine).pending(), filter.patterns(), root@),
            old(bridge).queued(),
            final(bridge).queued().last(),
        ),
        !running ==> *final(engine) == *old(engine) && *final(bridge) == *old(bridge)
            && !submitted,
        running ==> final(engine).pending() == Map::<Seq<char>, EventType>::empty(),
        running && has_survivor(old(engine).pending(), filter.patterns(), root@) ==> {
            &&& submitted
            &&& final(bridge).queued().len() == old(bridge).queued().len() + 1
            &&& final(bridge).queued().last().error is None
            &&& batch_of(
                final(bridge).queued().last().events@,
                old(engine).pending(),
                filter.patterns(),
                root@,
            )
        },
        running && !has_survivor(old(engine).pending(), filter.patterns(), root@) ==> !submitted
            && final(bridge).queued() == old(bridge).queued(),
{
    if !running {
        return false;
    }
    let ghost m = engine.pending();
    let batch = engine.take_batch(filter, root);
    if batch.len() == 0 {
        proof {
            if has_survivor(m, filter.patterns(), root@) {
                let p = choose|p: Seq<char>|
                    m.contains_key(p) && !spec_ignored(filter.patterns(), root@, p);
                assert(exists|k: int| 0 <= k < batch@.len() && (#[trigger] batch@[k]).path@ == p);
            }
        }
        return false;
    }
    proof {
        assert(m.contains_key(batch@[0].path@) && !spec_ignored(
            filter.patterns(),
            root@,
            batch@[0].path@,
        ));
    }
    let delivery = WatchCallbackResult { error: None, events: batch };
    proof {
        assert(valid_delivery(delivery));
    }
    bridge.submit(delivery);
    true
}

/// Surfaces a platform stream failure to the consumer: while the
/// subscription runs, exactly one error delivery with no events is
/// submitted; once it is stopped, nothing is.
pub fn handle_stream_error(running: bool, message: String, bridge: &mut DispatchBridge) -> (submitted:
    bool)
    ensures
        final(bridge).queued() == spec_gate(
            running,
            old(bridge).queued(),
            final(bridge).queued().last(),
        ),
        !running ==> !submitted && *final(bridge) == *old(bridge),
        running ==> {
            &&& submitted
            &&& final(bridge).queued().len() == old(bridge).queued().len() + 1
            &&& final(bridge).queued().last().error == Some(message)
            &&& final(bridge).queued().last().events@.len() == 0
        },
{
    if !running {
        return false;
    }
    let delivery = WatchCallbackResult { error: Some(message), events: Vec::new() };
    bridge.submit(delivery);
    true
}

/// Once `unsubscribe` has returned, no delivery is submitted any more:
/// with the running flag cleared no flush may touch the queue, whatever
/// else holds of it, so the consumer's queue stays exactly as it was.
pub proof fn lemma_no_post_unsubscribe_delivery(
    s: Subscription,
    q: Seq<WatchCallbackResult>,
    d: WatchCallbackResult,
    flush_has_survivor: bool,
)
    ensures
        !spec_unsubscribe(s).0.is_running(),
        spec_gate(spec_unsubscribe(s).0.is_running() && flush_has_survivor, q, d) == q,
{
    crate::subscription::lemma_unsubscribe_stops(s);
}

} // verus!
