//! A verified model of a native-callback-to-async-stream bridge for
//! filesystem change notifications.
//!
//! A platform-native watcher reports create/modify/rename/destroy/ownership
//! events through a C-style callback running on a foreign thread.  This
//! crate holds the verified core of the bridge that turns those pushed raw
//! events into a pull-based, cancellable sequence for a single consumer:
//!
//! - [`event`]: the owned event record and its two closed classifications,
//!   with the verified mapping from native integer codes;
//! - [`convert`]: the raw-to-owned converter, total over every descriptor
//!   the native side can hand over (null text, invalid encodings, unknown
//!   codes);
//! - [`queue`]: the hand-off queue between the callback side and the
//!   consumer side, with the ordering, teardown and backpressure laws;
//! - [`watch`]: the watch-handle state machine that owns the native
//!   resource, guaranteeing at most one native close and no delivery after
//!   disposal.
//!
//! The executable front end — the foreign declarations, the channel that
//! carries events across threads, the async runtime — cannot be verified
//! and lives outside this library; it hands the native layer's raw values
//! to these functions and performs the actions they decide.

pub mod convert;
pub mod event;
pub mod queue;
pub mod watch;

pub use convert::ev_from_c;
pub use convert::EventDesc;
pub use event::effect_type_from_c;
pub use event::path_type_from_c;
pub use event::EffectType;
pub use event::Event;
pub use event::PathType;
pub use queue::EventQueue;
pub use queue::PushOutcome;
pub use watch::PollOutcome;
pub use watch::Watch;
pub use watch::WatchError;
