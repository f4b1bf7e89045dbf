//! The debounce-coalesce engine: buffers raw notifications over a debounce
//! window, keeping per path the single semantic kind that the merge rule
//! yields, and flushes a filtered batch once the window has been quiet long
//! enough or the oldest pending event has waited out the latency ceiling.

use vstd::prelude::*;

verus! {

use crate::events::{EventType, PlatformKind, WatchEvent, event_kind_to_type, spec_classify};
use crate::filter::{IgnoreFilter, should_ignore, spec_any_match, spec_ignored, spec_strip_root};

/// Debounce window: a flush becomes due once no new notification has
/// arrived for this many milliseconds.
pub const DEBOUNCE_WINDOW_MS: u64 = 100;

/// Maximum-latency ceiling: a pending path is flushed after at most this
/// many milliseconds, even under continuous activity.
pub const MAX_LATENCY_MS: u64 = 500;

/// One pending path and the single kind observed for it so far within the
/// open window.
#[derive(Clone, Debug)]
pub struct PendingEntry {
    pub path: String,
    pub kind: EventType,
}

/// The pending set a sequence of entries stands for: path to kind, at most
/// one binding per path.
pub open spec fn entry_seq_view(s: Seq<PendingEntry>) -> Map<Seq<char>, EventType>
    decreases s.len(),
{
    if s.len() == 0 {
        Map::empty()
    } else {
        entry_seq_view(s.drop_last()).insert(s.last().path@, s.last().kind)
    }
}

/// No two entries hold the same path.
pub open spec fn unique_paths(s: Seq<PendingEntry>) -> bool {
    forall|i: int, j: int| 0 <= i < j < s.len() ==> s[i].path@ != s[j].path@
}

/// The merge rule for two notifications of one path within one window:
/// create-then-update stays a create, create-then-delete cancels out
/// entirely, update-then-delete collapses to delete, delete-then-create
/// collapses to create, and a repeated kind is unchanged.  For the two
/// pairs outside that table (update-then-create, delete-then-update) the
/// later kind wins.
pub open spec fn spec_merge(prior: EventType, next: EventType) -> Option<EventType> {
    match next {
        EventType::Create => Some(EventType::Create),
        EventType::Update => if prior is Create {
            Some(EventType::Create)
        } else {
            Some(EventType::Update)
        },
        EventType::Delete => if prior is Create {
            None
        } else {
            Some(EventType::Delete)
        },
    }
}

/// Applies the merge rule; `None` means the path nets out to nothing and
/// leaves the pending set.
pub fn merge_kinds(prior: EventType, next: EventType) -> (r: Option<EventType>)
    ensures
        r == spec_merge(prior, next),
{
    match next {
        EventType::Create => Some(EventType::Create),
        EventType::Update => if prior == EventType::Create {
            Some(EventType::Create)
        } else {
            Some(EventType::Update)
        },
        EventType::Delete => if prior == EventType::Create {
            None
        } else {
            Some(EventType::Delete)
        },
    }
}

/// How one classified notification transforms the pending set: an
/// unclassified one leaves it untouched, a first notification for a path
/// enters as is, a later one merges with the stored kind, removing the
/// binding when the merge nets out to nothing.
pub open spec fn spec_record(
    m: Map<Seq<char>, EventType>,
    path: Seq<char>,
    kind: Option<EventType>,
) -> Map<Seq<char>, EventType> {
    match kind {
        None => m,
        Some(k) => if m.contains_key(path) {
            match spec_merge(m[path], k) {
                Some(k2) => m.insert(path, k2),
                None => m.remove(path),
            }
        } else {
            m.insert(path, k)
        },
    }
}

/// The merge rule maps every pair of kinds exactly as the design's table
/// says: create-then-update stays create; create-then-delete yields no
/// event at all; update-then-delete collapses to delete; delete-then-create
/// collapses to create; a kind followed by itself is unchanged.
pub proof fn lemma_merge_rules()
    ensures
        spec_merge(EventType::Create, EventType::Update) == Some(EventType::Create),
        spec_merge(EventType::Create, EventType::Delete) == None::<EventType>,
        spec_merge(EventType::Update, EventType::Delete) == Some(EventType::Delete),
        spec_merge(EventType::Delete, EventType::Create) == Some(EventType::Create),
        forall|k: EventType| spec_merge(k, k) == Some(k),
{
    assert forall|k: EventType| spec_merge(k, k) == Some(k) by {
        match k {
            EventType::Create => {},
            EventType::Update => {},
            EventType::Delete => {},
        }
    }
}

/// Create-then-delete within one window removes the path from the pending
/// set entirely: nothing is emitted for it at the next flush.
pub proof fn lemma_create_then_delete_cancels(m: Map<Seq<char>, EventType>, path: Seq<char>)
    requires
        m.contains_key(path),
        m[path] == EventType::Create,
    ensures
        !spec_record(m, path, Some(EventType::Delete)).contains_key(path),
{
}

/// Recording one notification twice is the same as recording it once,
/// except for a delete landing on a pending create, where the first
/// recording cancels the binding and a second delete would re-enter it.
pub proof fn lemma_record_idempotent(
    m: Map<Seq<char>, EventType>,
    path: Seq<char>,
    kind: Option<EventType>,
)
    requires
        !(m.contains_key(path) && m[path] == EventType::Create && kind == Some(EventType::Delete)),
    ensures
        spec_record(spec_record(m, path, kind), path, kind) == spec_record(m, path, kind),
{
    match kind {
        None => {},
        Some(k) => {
            let m1 = spec_record(m, path, kind);
            assert(m1.contains_key(path));
            let k1 = m1[path];
            assert(spec_merge(k1, k) == Some(k1)) by {
                match k {
                    EventType::Create => {},
                    EventType::Update => {},
                    EventType::Delete => {},
                }
            }
            assert(m1.insert(path, k1) =~= m1);
        },
    }
}

/// N identical notifications for a path with nothing pending produce the
/// same pending set as a single one.
pub open spec fn spec_record_n(
    m: Map<Seq<char>, EventType>,
    path: Seq<char>,
    kind: Option<EventType>,
    n: nat,
) -> Map<Seq<char>, EventType>
    decreases n,
{
    if n == 0 {
        m
    } else {
        spec_record(spec_record_n(m, path, kind, (n - 1) as nat), path, kind)
    }
}

/// Coalescing is idempotent: for a path with no pending entry, a run of N
/// identical notifications leaves the same pending set as one alone.
pub proof fn lemma_coalescing_idempotent(
    m: Map<Seq<char>, EventType>,
    path: Seq<char>,
    kind: Option<EventType>,
    n: nat,
)
    requires
        !m.contains_key(path),
        n >= 1,
    ensures
        spec_record_n(m, path, kind, n) == spec_record(m, path, kind),
    decreases n,
{
    assert(spec_record_n(m, path, kind, 0) == m);
    if n > 1 {
        lemma_coalescing_idempotent(m, path, kind, (n - 1) as nat);
        lemma_record_idempotent(m, path, kind);
    }
}

proof fn lemma_view_push(s: Seq<PendingEntry>, e: PendingEntry)
    ensures
        entry_seq_view(s.push(e)) == entry_seq_view(s).insert(e.path@, e.kind),
{
    assert(s.push(e).drop_last() =~= s);
    assert(s.push(e).last() == e);
}

proof fn lemma_view_absent(s: Seq<PendingEntry>, p: Seq<char>)
    requires
        forall|j: int| 0 <= j < s.len() ==> s[j].path@ != p,
    ensures
        !entry_seq_view(s).contains_key(p),
    decreases s.len(),
{
    if s.len() > 0 {
        lemma_view_absent(s.drop_last(), p);
    }
}

proof fn lemma_view_contains(s: Seq<PendingEntry>, i: int)
    requires
        0 <= i < s.len(),
        unique_paths(s),
    ensures
        entry_seq_view(s).contains_key(s[i].path@),
        entry_seq_view(s)[s[i].path@] == s[i].kind,
    decreases s.len(),
{
    if i < s.len() - 1 {
        assert(unique_paths(s.drop_last()));
        lemma_view_contains(s.drop_last(), i);
        assert(s.last().path@ != s[i].path@);
    }
}

proof fn lemma_view_index_of(s: Seq<PendingEntry>, p: Seq<char>)
    requires
        entry_seq_view(s).contains_key(p),
    ensures
        exists|j: int| 0 <= j < s.len() && s[j].path@ == p,
    decreases s.len(),
{
    if s.len() > 0 {
        if s.last().path@ == p {
            assert(s[s.len() - 1].path@ == p);
        } else {
            lemma_view_index_of(s.drop_last(), p);
        }
    }
}

proof fn lemma_view_remove(s: Seq<PendingEntry>, i: int)
    requires
        0 <= i < s.len(),
        unique_paths(s),
    ensures
        entry_seq_view(s.remove(i)) == entry_seq_view(s).remove(s[i].path@),
    decreases s.len(),
{
    let p = s[i].path@;
    if i == s.len() - 1 {
        assert(s.remove(i) =~= s.drop_last());
        assert(forall|j: int| 0 <= j < s.len() - 1 ==> s.drop_last()[j].path@ != p);
        lemma_view_absent(s.drop_last(), p);
        assert(entry_seq_view(s).remove(p) =~= entry_seq_view(s.drop_last()));
    } else {
        assert(s.remove(i).drop_last() =~= s.drop_last().remove(i));
        assert(s.remove(i).last() == s.last());
        assert(unique_paths(s.drop_last()));
        lemma_view_remove(s.drop_last(), i);
        assert(s.last().path@ != p);
        assert(entry_seq_view(s.drop_last()).remove(p).insert(s.last().path@, s.last().kind)
            =~= entry_seq_view(s.drop_last()).insert(s.last().path@, s.last().kind).remove(p));
    }
}

fn find_index(entries: &Vec<PendingEntry>, path: &String) -> (r: Option<usize>)
    ensures
        match r {
            Some(i) => i < entries@.len() && entries@[i as int].path@ == path@,
            None => forall|j: int| 0 <= j < entries@.len() ==> entries@[j].path@ != path@,
        },
{
    let mut i: usize = 0;
    while i < entries.len()
        invariant
            i <= entries@.len(),
            forall|j: int| 0 <= j < i ==> entries@[j].path@ != path@,
        decreases entries@.len() - i,
    {
        if entries[i].path == *path {
            return Some(i);
        }
        i += 1;
    }
    None
}

/// The per-subscription debounce-coalesce engine.  It exclusively owns the
/// pending set; callers feed it notifications stamped with a monotone
/// millisecond clock and poll it for due flushes.
pub struct Engine {
    entries: Vec<PendingEntry>,
    last_activity_ms: u64,
    earliest_pending_ms: u64,
}

impl Engine {
    /// The pending set: for each path with unflushed activity, the single
    /// kind the merge rule has produced so far.
    pub closed spec fn pending(&self) -> Map<Seq<char>, EventType> {
        entry_seq_view(self.entries@)
    }

    /// When the last notification arrived.
    pub closed spec fn last_activity(&self) -> u64 {
        self.last_activity_ms
    }

    /// When the oldest entry of the pending set arrived.
    pub closed spec fn earliest_pending(&self) -> u64 {
        self.earliest_pending_ms
    }

    /// Well-formedness: one entry per path, and the oldest pending entry
    /// is no younger than the last activity.
    pub closed spec fn wf(&self) -> bool {
        &&& unique_paths(self.entries@)
        &&& (self.entries@.len() > 0 ==> self.earliest_pending_ms <= self.last_activity_ms)
    }

    /// A fresh engine: nothing pending, no activity seen.
    pub fn new() -> (r: Engine)
        ensures
            r.wf(),
            r.pending() == Map::<Seq<char>, EventType>::empty(),
            r.last_activity() == 0,
    {
        Engine { entries: Vec::new(), last_activity_ms: 0, earliest_pending_ms: 0 }
    }

    /// Feeds one raw notification into the open window.  The notification
    /// is classified and the pending set transformed by the merge rule;
    /// the window timer resets to `now_ms` either way.  The clock must not
    /// run backwards.
    pub fn note(&mut self, path: &String, kind: PlatformKind, now_ms: u64)
        requires
            old(self).wf(),
            now_ms >= old(self).last_activity(),
        ensures
            final(self).wf(),
            final(self).pending() == spec_record(
                old(self).pending(),
                path@,
                spec_classify(kind),
            ),
            final(self).last_activity() == now_ms,
            final(self).earliest_pending() == if old(self).pending() == Map::<
                Seq<char>,
                EventType,
            >::empty() && spec_classify(kind) is Some {
                now_ms
            } else {
                old(self).earliest_pending()
            },
    {
        proof {
            if self.entries@.len() > 0 {
                assert(self.pending().contains_key(self.entries@.last().path@));
            }
        }
        self.last_activity_ms = now_ms;
        match event_kind_to_type(kind) {
            None => {},
            Some(k) => {
                if self.entries.len() == 0 {
                    self.earliest_pending_ms = now_ms;
                }
                match find_index(&self.entries, path) {
                    None => {
                        proof {
                            lemma_view_absent(self.entries@, path@);
                        }
                        let entry = PendingEntry { path: path.clone(), kind: k };
                        proof {
                            lemma_view_push(self.entries@, entry);
                        }
                        self.entries.push(entry);
                    },
                    Some(i) => {
                        let prior = self.entries[i].kind;
                        proof {
                            lemma_view_contains(self.entries@, i as int);
                            lemma_view_remove(self.entries@, i as int);
                        }
                        let ghost before = self.entries@;
                        self.entries.remove(i);
                        proof {
                            assert(forall|j: int|
                                0 <= j < self.entries@.len() ==> self.entries@[j].path@ != path@);
                        }
                        match merge_kinds(prior, k) {
                            Some(k2) => {
                                let entry = PendingEntry { path: path.clone(), kind: k2 };
                                proof {
                                    lemma_view_push(self.entries@, entry);
                                    assert(entry_seq_view(before).remove(path@).insert(path@, k2)
                                        =~= entry_seq_view(before).insert(path@, k2));
                                }
                                self.entries.push(entry);
                            },
                            None => {},
                        }
                    },
                }
            },
        }
    }

    /// Whether a flush is due: something is pending, and either the window
    /// has been quiet for the debounce duration or the oldest pending
    /// entry has waited out the latency ceiling.
    pub fn due(&self, now_ms: u64) -> (r: bool)
        requires
            self.wf(),
            now_ms >= self.last_activity(),
        ensures
            r == (self.pending() != Map::<Seq<char>, EventType>::empty() && (now_ms
                - self.last_activity() >= DEBOUNCE_WINDOW_MS || now_ms - self.earliest_pending()
                >= MAX_LATENCY_MS)),
    {
        if self.entries.len() == 0 {
            return false;
        }
        proof {
            assert(self.pending().contains_key(self.entries@.last().path@));
        }
        now_ms - self.last_activity_ms >= DEBOUNCE_WINDOW_MS || now_ms - self.earliest_pending_ms
            >= MAX_LATENCY_MS
    }

    /// Closes the window: every pending path that the ignore filter lets
    /// through becomes one event of the batch, and the pending set is
    /// cleared.  The batch holds exactly the surviving paths, each once,
    /// with its coalesced kind; its internal order carries no meaning.
    #[verifier::rlimit(100)]
    pub fn take_batch(&mut self, filter: &IgnoreFilter, root: &str) -> (batch: Vec<WatchEvent>)
        requires
            old(self).wf(),
        ensures
            final(self).wf(),
            final(self).pending() == Map::<Seq<char>, EventType>::empty(),
            final(self).last_activity() == old(self).last_activity(),
            batch_of(batch@, old(self).pending(), filter.patterns(), root@),
    {
        let ghost m = self.pending();
        let ghost pats = filter.patterns();
        let mut batch: Vec<WatchEvent> = Vec::new();
        let n = self.entries.len();
        let mut i: usize = 0;
        while i < n
            invariant
                self.wf(),
                n == self.entries@.len(),
                i <= n,
                m == entry_seq_view(self.entries@),
                pats == filter.patterns(),
                forall|k: int|
                    0 <= k < batch@.len() ==> m.contains_key((#[trigger] batch@[k]).path@)
                        && m[batch@[k].path@] == batch@[k].event_type && !spec_ignored(
                        pats,
                        root@,
                        batch@[k].path@,
                    ),
                forall|k: int|
                    0 <= k < batch@.len() ==> exists|j: int|
                        0 <= j < i && (#[trigger] batch@[k]).path@ == self.entries@[j].path@,
                forall|j: int|
                    0 <= j < i && !spec_ignored(
                        pats,
                        root@,
                        (#[trigger] self.entries@[j]).path@,
                    ) ==> exists|k: int|
                        0 <= k < batch@.len() && (#[trigger] batch@[k]).path@
                            == self.entries@[j].path@,
                forall|k1: int, k2: int|
                    0 <= k1 < k2 < batch@.len() ==> batch@[k1].path@ != batch@[k2].path@,
            decreases n - i,
        {
            let entry_path = self.entries[i].path.clone();
            let entry_kind = self.entries[i].kind;
            proof {
                lemma_view_contains(self.entries@, i as int);
            }
            if !should_ignore(entry_path.as_str(), filter, root) {
                let ghost batch_before = batch@;
                batch.push(WatchEvent { path: entry_path, event_type: entry_kind });
                proof {
                    assert(forall|k: int|
                        0 <= k < batch_before.len() ==> batch@[k] == batch_before[k]);
                    assert(batch@.last().path@ == self.entries@[i as int].path@);
                    assert(batch@.last().event_type == self.entries@[i as int].kind);
                    assert forall|k1: int, k2: int|
                        0 <= k1 < k2 < batch@.len() implies batch@[k1].path@
                        != batch@[k2].path@ by {
                        if k2 == batch@.len() - 1 {
                            let j1 = choose|j: int|
                                0 <= j < i && batch_before[k1].path@ == self.entries@[j].path@;
                            assert(self.entries@[j1].path@ != self.entries@[i as int].path@);
                        }
                    }
                }
            }
            i += 1;
        }
        proof {
            assert forall|p: Seq<char>|
                m.contains_key(p) && !spec_ignored(pats, root@, p) implies exists|k: int|
                0 <= k < batch@.len() && (#[trigger] batch@[k]).path@ == p by {
                lemma_view_index_of(self.entries@, p);
                let j = choose|j: int| 0 <= j < self.entries@.len() && self.entries@[j].path@ == p;
                lemma_view_contains(self.entries@, j);
                assert(!spec_ignored(pats, root@, self.entries@[j].path@));
            }
        }
        self.entries = Vec::new();
        batch
    }
}

/// What a flushed batch holds, relative to the pending set it came from:
/// every batch event is a surviving pending path with its coalesced kind,
/// every surviving pending path appears, and no path appears twice.  The
/// order of events within the batch is left open.
pub open spec fn batch_of(
    batch: Seq<WatchEvent>,
    m: Map<Seq<char>, EventType>,
    patterns: Seq<Seq<char>>,
    root: Seq<char>,
) -> bool {
    &&& forall|k: int|
        0 <= k < batch.len() ==> m.contains_key((#[trigger] batch[k]).path@) && m[batch[k].path@]
            == batch[k].event_type && !spec_ignored(patterns, root, batch[k].path@)
    &&& forall|p: Seq<char>|
        m.contains_key(p) && !spec_ignored(patterns, root, p) ==> exists|k: int|
            0 <= k < batch.len() && (#[trigger] batch[k]).path@ == p
    &&& forall|k1: int, k2: int| 0 <= k1 < k2 < batch.len() ==> batch[k1].path@ != batch[k2].path@
}

/// A path matching an ignore pattern, in its root-relative or its absolute
/// form, is excluded from every batch, whatever kind it coalesced to.
pub proof fn lemma_no_ignored_path_in_batch(
    batch: Seq<WatchEvent>,
    m: Map<Seq<char>, EventType>,
    patterns: Seq<Seq<char>>,
    root: Seq<char>,
    path: Seq<char>,
)
    requires
        batch_of(batch, m, patterns, root),
        (spec_strip_root(root, path) matches Some(rel) && spec_any_match(patterns, rel))
            || spec_any_match(patterns, path),
    ensures
        forall|k: int| 0 <= k < batch.len() ==> (#[trigger] batch[k]).path@ != path,
{
    crate::filter::lemma_filter_symmetry(patterns, root, path);
}

} // verus!
