//! The subscription lifecycle: one active watch, created by `subscribe`
//! after every validation has passed, stopped exactly once by
//! `unsubscribe`.  Stopping is idempotent and releases the platform watch
//! resource at most once.

use vstd::prelude::*;

verus! {

use crate::bridge::DispatchBridge;
use crate::engine::Engine;
use crate::errors::WatchError;
use crate::filter::{
    IgnoreFilter,
    all_compile,
    build_glob_set,
    glob_compiles,
    set_builds,
    views_of,
};

/// Options recognized at subscribe time: the glob patterns to ignore.
/// Absent or empty means no filtering.
#[derive(Clone, Debug, Default)]
pub struct WatchOptions {
    pub ignore: Option<Vec<String>>,
}

/// The lifecycle state of one watch: a running flag, written once by
/// `unsubscribe` and read before every delivery, and ownership of the
/// platform watch resource.  There are two states, active and stopped, and
/// the only transition is active to stopped.
pub struct Subscription {
    running: bool,
    handle_held: bool,
}

/// What `unsubscribe` does to a subscription: the running flag goes false,
/// the resource is let go, and the answer says whether this call was the
/// one that held it.
pub closed spec fn spec_unsubscribe(s: Subscription) -> (Subscription, bool) {
    (Subscription { running: false, handle_held: false }, s.handle_held)
}

impl Subscription {
    /// Whether deliveries may still be submitted.
    pub closed spec fn is_running(&self) -> bool {
        self.running
    }

    /// Whether this subscription still owns the platform watch resource.
    pub closed spec fn holds_handle(&self) -> bool {
        self.handle_held
    }

    /// Reads the running flag; the engine asks this before every
    /// delivery.
    pub fn is_running_now(&self) -> (r: bool)
        ensures
            r == self.is_running(),
    {
        self.running
    }

    /// Stops the watch.  Safe to call any number of times: the first call
    /// asks the runtime to release the platform watch resource (the
    /// returned flag) and every later call changes nothing and releases
    /// nothing.  After it returns, no new delivery is submitted.
    pub fn unsubscribe(&mut self) -> (release: bool)
        ensures
            !final(self).is_running(),
            !final(self).holds_handle(),
            release == old(self).holds_handle(),
            (*final(self), release) == spec_unsubscribe(*old(self)),
    {
        self.running = false;
        let release = self.handle_held;
        self.handle_held = false;
        release
    }
}

/// Unsubscribing stops the watch: afterwards the subscription is no
/// longer running, no longer owns the resource, and the release action is
/// asked for exactly when the resource was still held.
pub proof fn lemma_unsubscribe_stops(s: Subscription)
    ensures
        !spec_unsubscribe(s).0.is_running(),
        !spec_unsubscribe(s).0.holds_handle(),
        spec_unsubscribe(s).1 == s.holds_handle(),
{
}

/// Unsubscribing is idempotent: a second `unsubscribe` leaves the stopped
/// state exactly as the first did, and never releases the resource a
/// second time.
pub proof fn lemma_unsubscribe_idempotent(s: Subscription)
    ensures
        spec_unsubscribe(spec_unsubscribe(s).0).0 == spec_unsubscribe(s).0,
        !spec_unsubscribe(spec_unsubscribe(s).0).1,
{
}

/// Everything one live watch needs: its lifecycle state, its engine, its
/// compiled ignore filter, its dispatch queue, and the canonical root all
/// paths are made relative to.
pub struct ActiveWatch {
    pub subscription: Subscription,
    pub engine: Engine,
    pub filter: IgnoreFilter,
    pub bridge: DispatchBridge,
    pub root: String,
}

/// The ignore patterns a subscribe call asks for: the given list, or none.
pub open spec fn spec_ignore_list(options: WatchOptions) -> Seq<String> {
    match options.ignore {
        Some(patterns) => patterns@,
        None => Seq::<String>::empty(),
    }
}

/// Validates the inputs of one watch and assembles its pipeline.  The
/// caller supplies what only the file system can answer: whether the
/// directory exists, whether it is a directory, and its canonical form.
/// Checks run in order — empty path, existence, directory-ness,
/// canonicalization, pattern compilation — and the first failure is
/// returned, with nothing created.  On success the watch starts active,
/// owning the platform resource slot, with an empty pending set and an
/// empty delivery queue.
pub fn subscribe(
    directory: &String,
    dir_exists: bool,
    dir_is_dir: bool,
    canonical_root: Option<String>,
    options: &WatchOptions,
) -> (r: Result<ActiveWatch, WatchError>)
    ensures
        directory@.len() == 0 ==> r matches Err(WatchError::EmptyPath),
        directory@.len() > 0 && !dir_exists ==> (r matches Err(WatchError::NotFound { path })
            && path@ == directory@),
        directory@.len() > 0 && dir_exists && !dir_is_dir ==> (r matches Err(
            WatchError::NotADirectory { path },
        ) && path@ == directory@),
        directory@.len() > 0 && dir_exists && dir_is_dir && canonical_root is None ==> (r matches Err(
            WatchError::CanonicalizeFailed { path },
        ) && path@ == directory@),
        directory@.len() > 0 && dir_exists && dir_is_dir && canonical_root is Some ==> {
            &&& !all_compile(views_of(spec_ignore_list(*options))) ==> r is Err
                && r->Err_0 is InvalidPattern
            &&& all_compile(views_of(spec_ignore_list(*options))) ==> (r is Ok <==> set_builds(
                views_of(spec_ignore_list(*options)),
            ))
            &&& all_compile(views_of(spec_ignore_list(*options))) ==> r is Ok || (r is Err
                && r->Err_0 is GlobBuildFailed)
            &&& r matches Err(e) ==> (e matches WatchError::InvalidPattern { pattern, detail }
                ==> {
                &&& !glob_compiles(pattern@)
                &&& exists|i: int|
                    0 <= i < spec_ignore_list(*options).len() && spec_ignore_list(*options)[i]@
                        == pattern@
            })
            &&& r matches Ok(w) ==> {
                &&& w.subscription.is_running()
                &&& w.subscription.holds_handle()
                &&& w.engine.wf()
                &&& w.engine.pending() == Map::<Seq<char>, crate::events::EventType>::empty()
                &&& w.engine.last_activity() == 0
                &&& w.filter.patterns() == views_of(spec_ignore_list(*options))
                &&& w.bridge.queued() == Seq::<crate::bridge::WatchCallbackResult>::empty()
                &&& w.root@ == canonical_root->Some_0@
            }
        },
{
    if directory.as_str().unicode_len() == 0 {
        return Err(WatchError::EmptyPath);
    }
    if !dir_exists {
        return Err(WatchError::NotFound { path: directory.clone() });
    }
    if !dir_is_dir {
        return Err(WatchError::NotADirectory { path: directory.clone() });
    }
    let root = match canonical_root {
        Some(root) => root,
        None => {
            return Err(WatchError::CanonicalizeFailed { path: directory.clone() });
        },
    };
    let empty_patterns: Vec<String> = Vec::new();
    let filter_result = match &options.ignore {
        Some(patterns) => build_glob_set(patterns),
        None => build_glob_set(&empty_patterns),
    };
    let filter = match filter_result {
        Ok(filter) => filter,
        Err(e) => {
            return Err(e);
        },
    };
    Ok(
        ActiveWatch {
            subscription: Subscription { running: true, handle_held: true },
            engine: Engine::new(),
            filter,
            bridge: DispatchBridge::new(),
            root,
        },
    )
}

} // verus!
