//! Core of a file-system watching pipeline: raw platform change
//! notifications are classified into semantic kinds, coalesced per path over
//! a debounce window, filtered against user-supplied ignore patterns, and
//! handed to a single consumer through a FIFO dispatch bridge whose activity
//! is gated by a subscription's running flag.

pub mod bridge;
pub mod engine;
pub mod errors;
pub mod events;
pub mod filter;
pub mod pipeline;
pub mod subscription;

pub use bridge::DispatchBridge;
pub use bridge::WatchCallbackResult;
pub use engine::Engine;
pub use errors::WatchError;
pub use events::EventType;
pub use events::PlatformKind;
pub use events::WatchEvent;
pub use events::event_kind_to_type;
pub use filter::IgnoreFilter;
pub use filter::build_glob_set;
pub use filter::should_ignore;
pub use subscription::ActiveWatch;
pub use subscription::Subscription;
pub use subscription::WatchOptions;
pub use subscription::subscribe;
