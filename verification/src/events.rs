//! Platform notification kinds, semantic event kinds, and the classifier
//! that maps the former to the latter.

use vstd::prelude::*;

verus! {

/// The tag of a raw platform change notification, as the platform watch
/// primitive reports it: a coarse kind (create / modify / remove / access)
/// refined by a platform-specific sub-kind.  The set is closed: these are
/// all the tags the pipeline distinguishes.
#[derive(Clone, Copy, Debug, PartialEq, Eq, Structural)]
pub enum PlatformKind {
    CreateFile,
    CreateFolder,
    CreateAny,
    CreateOther,
    ModifyData,
    ModifyName,
    ModifyMetadata,
    ModifyAny,
    ModifyOther,
    RemoveFile,
    RemoveFolder,
    RemoveAny,
    RemoveOther,
    Access,
    AnyEvent,
    OtherEvent,
}

/// The semantic kind of a change, as delivered to the consumer.
#[derive(Clone, Copy, Debug, PartialEq, Eq, Structural)]
pub enum EventType {
    Create,
    Update,
    Delete,
}

/// The label a semantic kind carries in a delivery payload.
pub open spec fn spec_type_label(t: EventType) -> Seq<char> {
    match t {
        EventType::Create => "create"@,
        EventType::Update => "update"@,
        EventType::Delete => "delete"@,
    }
}

impl EventType {
    /// The payload spelling of this kind: `create`, `update` or `delete`.
    pub fn type_label(&self) -> (r: String)
        ensures
            r@ == spec_type_label(*self),
    {
        match self {
            EventType::Create => "create".to_owned(),
            EventType::Update => "update".to_owned(),
            EventType::Delete => "delete".to_owned(),
        }
    }
}

/// A classified, filtered change event: an absolute path and what happened
/// to it.  Immutable once constructed; no identity beyond its fields.
#[derive(Clone, Debug)]
pub struct WatchEvent {
    pub path: String,
    pub event_type: EventType,
}

/// The classification policy: which semantic kind, if any, a platform tag
/// maps to.  `None` means the notification carries no semantic meaning for
/// the consumer (access-time churn, rescan markers) and is dropped.
pub open spec fn spec_classify(kind: PlatformKind) -> Option<EventType> {
    match kind {
        PlatformKind::CreateFile => Some(EventType::Create),
        PlatformKind::CreateFolder => Some(EventType::Create),
        PlatformKind::CreateAny => Some(EventType::Create),
        PlatformKind::ModifyData => Some(EventType::Update),
        PlatformKind::ModifyName => Some(EventType::Update),
        PlatformKind::ModifyMetadata => Some(EventType::Update),
        PlatformKind::ModifyAny => Some(EventType::Update),
        PlatformKind::RemoveFile => Some(EventType::Delete),
        PlatformKind::RemoveFolder => Some(EventType::Delete),
        PlatformKind::RemoveAny => Some(EventType::Delete),
        _ => None,
    }
}

/// Maps a platform notification tag to its semantic kind: any create tag
/// but `CreateOther` becomes `Create`, any data/name/metadata/generic
/// modify becomes `Update`, any remove tag but `RemoveOther` becomes
/// `Delete`, and everything else is dropped.  A name-modify is reported as
/// `Update`; rename pairs are not correlated into a move event.
pub fn event_kind_to_type(kind: PlatformKind) -> (r: Option<EventType>)
    ensures
        r == spec_classify(kind),
{
    match kind {
        PlatformKind::CreateFile => Some(EventType::Create),
        PlatformKind::CreateFolder => Some(EventType::Create),
        PlatformKind::CreateAny => Some(EventType::Create),
        PlatformKind::ModifyData => Some(EventType::Update),
        PlatformKind::ModifyName => Some(EventType::Update),
        PlatformKind::ModifyMetadata => Some(EventType::Update),
        PlatformKind::ModifyAny => Some(EventType::Update),
        PlatformKind::RemoveFile => Some(EventType::Delete),
        PlatformKind::RemoveFolder => Some(EventType::Delete),
        PlatformKind::RemoveAny => Some(EventType::Delete),
        _ => None,
    }
}

/// Classification is total and single-valued: every platform tag maps to
/// exactly one of `Create`, `Update`, `Delete` or is dropped, and the three
/// semantic outcomes are mutually exclusive.
pub proof fn lemma_classify_total(kind: PlatformKind)
    ensures
        spec_classify(kind) == Some(EventType::Create) || spec_classify(kind) == Some(
            EventType::Update,
        ) || spec_classify(kind) == Some(EventType::Delete) || spec_classify(kind) is None,
{
}

} // verus!
