//! Attribute snapshots: what a metadata read yields for one path.

use vstd::prelude::*;
use crate::paths::display_name;

verus! {

/// Why no snapshot could be made of a path.
#[derive(Clone, Copy, PartialEq, Eq, Debug, Structural)]
pub enum MetadataResolutionError {
    /// The path could not be read: it vanished, or access was denied.
    Inaccessible,
    /// The filesystem keeps no such time for the path.
    TimestampUnavailable,
    /// The time lies before the epoch.
    TimestampBeforeEpoch,
    /// The time in milliseconds does not fit in 64 bits.
    TimestampOutOfRange,
}

/// A point in time by its distance from the Unix epoch.
#[derive(Clone, Copy, PartialEq, Eq, Debug, Structural)]
pub struct EpochOffset {
    /// Whether the point lies before the epoch.
    pub before_epoch: bool,
    /// Whole seconds of the distance.
    pub secs: u64,
    /// Nanoseconds beyond the whole seconds.
    pub nanos: u32,
}

/// What a metadata read reports of a path, before any of it is checked.
#[derive(Clone, Copy, PartialEq, Eq, Debug, Structural)]
pub struct RawAttributes {
    pub created: Option<EpochOffset>,
    pub modified: Option<EpochOffset>,
    pub size_bytes: u64,
    pub is_directory: bool,
}

/// The attributes of a path at the moment it was read.
#[derive(Clone, PartialEq, Eq, Debug)]
pub struct AttributeSnapshot {
    pub name: String,
    /// Milliseconds since the epoch.
    pub created_at: u64,
    /// Milliseconds since the epoch.
    pub modified_at: u64,
    pub size_bytes: u64,
    pub is_directory: bool,
}

/// A snapshot as plain values.
pub struct SnapshotView {
    pub name: Seq<char>,
    pub created_at: u64,
    pub modified_at: u64,
    pub size_bytes: u64,
    pub is_directory: bool,
}

impl View for AttributeSnapshot {
    type V = SnapshotView;

    open spec fn view(&self) -> SnapshotView {
        SnapshotView {
            name: self.name@,
            created_at: self.created_at,
            modified_at: self.modified_at,
            size_bytes: self.size_bytes,
            is_directory: self.is_directory,
        }
    }
}

/// The views of an optional snapshot.
pub open spec fn snapshot_view(snapshot: Option<AttributeSnapshot>) -> Option<SnapshotView> {
    match snapshot {
        Some(s) => Some(s@),
        None => None,
    }
}

/// Whole milliseconds in the distance of `offset` from the epoch.
pub open spec fn millis_of(offset: EpochOffset) -> int {
    offset.secs * 1000 + offset.nanos / 1_000_000
}

/// The timestamp of a point in time: its whole milliseconds since the
/// epoch, where it lies at or after the epoch and they fit in 64 bits.
pub open spec fn timestamp_of(offset: EpochOffset) -> Result<u64, MetadataResolutionError> {
    if offset.before_epoch {
        Err(MetadataResolutionError::TimestampBeforeEpoch)
    } else if millis_of(offset) > u64::MAX {
        Err(MetadataResolutionError::TimestampOutOfRange)
    } else {
        Ok(millis_of(offset) as u64)
    }
}

/// The timestamp of a time that the filesystem may not have kept.
pub open spec fn stamp_of(time: Option<EpochOffset>) -> Result<u64, MetadataResolutionError> {
    match time {
        None => Err(MetadataResolutionError::TimestampUnavailable),
        Some(offset) => timestamp_of(offset),
    }
}

/// The snapshot of `path` that a metadata read with outcome `stat` yields.
///
/// The read itself may have failed; after that the creation time is
/// checked, and the modification time last.
pub open spec fn resolution(path: Seq<char>, stat: Option<RawAttributes>) -> Result<
    SnapshotView,
    MetadataResolutionError,
> {
    match stat {
        None => Err(MetadataResolutionError::Inaccessible),
        Some(raw) => match stamp_of(raw.created) {
            Err(e) => Err(e),
            Ok(created_at) => match stamp_of(raw.modified) {
                Err(e) => Err(e),
                Ok(modified_at) => Ok(
                    SnapshotView {
                        name: display_name(path),
                        created_at,
                        modified_at,
                        size_bytes: raw.size_bytes,
                        is_directory: raw.is_directory,
                    },
                ),
            },
        },
    }
}

/// The views of a resolution outcome.
pub open spec fn resolution_view(outcome: Result<AttributeSnapshot, MetadataResolutionError>)
    -> Result<SnapshotView, MetadataResolutionError> {
    match outcome {
        Ok(s) => Ok(s@),
        Err(e) => Err(e),
    }
}

} // verus!
