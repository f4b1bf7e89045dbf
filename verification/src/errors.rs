//! Errors surfaced by the watching pipeline.  Validation and resource
//! errors are returned synchronously at subscribe time; stream errors reach
//! the consumer through an error delivery.

use vstd::prelude::*;

verus! {

/// Why a subscription could not be created, or why the watch failed.
/// Each variant carries the offending value where there is one.
#[derive(Clone, Debug)]
pub enum WatchError {
    /// The directory argument was the empty string.
    EmptyPath,
    /// The directory does not exist.
    NotFound { path: String },
    /// The path exists but is not a directory.
    NotADirectory { path: String },
    /// The root could not be canonicalized.
    CanonicalizeFailed { path: String },
    /// An ignore pattern is not valid glob syntax.
    InvalidPattern { pattern: String, detail: String },
    /// The pattern set could not be assembled into one matcher.
    GlobBuildFailed { detail: String },
    /// The platform watch primitive could not be started.
    WatchStartFailed { detail: String },
}

/// The descriptive text for each error, identifying the offending value.
pub open spec fn spec_message(e: WatchError) -> Seq<char> {
    match e {
        WatchError::EmptyPath => "Directory path cannot be empty"@,
        WatchError::NotFound { path } => "Directory does not exist: "@ + path@,
        WatchError::NotADirectory { path } => "Path is not a directory: "@ + path@,
        WatchError::CanonicalizeFailed { path } => "Failed to canonicalize path: "@ + path@,
        WatchError::InvalidPattern { pattern, detail } => "Invalid glob pattern '"@ + pattern@
            + "': "@ + detail@,
        WatchError::GlobBuildFailed { detail } => "Failed to build glob set: "@ + detail@,
        WatchError::WatchStartFailed { detail } => "Failed to watch directory: "@ + detail@,
    }
}

impl WatchError {
    /// A single clear line naming the failed precondition and, where one
    /// applies, the offending value.
    pub fn message(&self) -> (r: String)
        ensures
            r@ == spec_message(*self),
    {
        match self {
            WatchError::EmptyPath => "Directory path cannot be empty".to_owned(),
            WatchError::NotFound { path } => "Directory does not exist: ".to_owned().concat(
                path.as_str(),
            ),
            WatchError::NotADirectory { path } => "Path is not a directory: ".to_owned().concat(
                path.as_str(),
            ),
            WatchError::CanonicalizeFailed { path } => {
                "Failed to canonicalize path: ".to_owned().concat(path.as_str())
            },
            WatchError::InvalidPattern { pattern, detail } => {
                "Invalid glob pattern '".to_owned().concat(pattern.as_str()).concat(
                    "': ",
                ).concat(detail.as_str())
            },
            WatchError::GlobBuildFailed { detail } => {
                "Failed to build glob set: ".to_owned().concat(detail.as_str())
            },
            WatchError::WatchStartFailed { detail } => {
                "Failed to watch directory: ".to_owned().concat(detail.as_str())
            },
        }
    }
}

} // verus!
