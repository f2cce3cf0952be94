//! Decision core of a live filesystem-change synchronizer.
//!
//! The crate keeps a searchable index of files and directories consistent
//! with the filesystem. It performs no I/O itself: the surrounding program
//! registers the watch, reads metadata and lists directories, and hands the
//! answers to the functions here, which decide what the index must be told.

pub mod commit;
pub mod event;
pub mod index;
pub mod memory_index;
pub mod paths;
pub mod processor;
pub mod snapshot;
pub mod subtree;
pub mod watcher;

pub use commit::{CommitScheduler, CommitStep};
pub use event::{ChangeEvent, OperationKind};
pub use index::{IndexEntry, IndexOp};
pub use memory_index::MemoryIndex;
pub use processor::{Observation, Resolved};
pub use subtree::{Listed, SubtreeWalk};
pub use snapshot::{AttributeSnapshot, EpochOffset, MetadataResolutionError, RawAttributes};
pub use watcher::{
    Directive, FollowUp, FsWatcher, Notification, ObservationError, Phase, SetupCause,
    WatchSetupError,
};
