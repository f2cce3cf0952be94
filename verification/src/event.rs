//! Change notifications: the operation flags that the notification backend
//! reports, and the events that the watcher makes of them.

use vstd::prelude::*;

verus! {

/// Attributes of the entry changed.
pub const FLAG_CHMOD: u32 = 0x01;

/// The entry was created.
pub const FLAG_CREATE: u32 = 0x02;

/// The entry was removed.
pub const FLAG_REMOVE: u32 = 0x04;

/// The entry was renamed, away from this path or to it.
pub const FLAG_RENAME: u32 = 0x08;

/// The entry was written to.
pub const FLAG_WRITE: u32 = 0x10;

/// The entry was closed after writing.
pub const FLAG_CLOSE_WRITE: u32 = 0x20;

/// Notifications were lost and the watched tree should be read again.
pub const FLAG_RESCAN: u32 = 0x40;

/// Every flag that the backend defines.
pub const KNOWN_FLAGS: u32 = 0x7f;

/// Whether every defined flag of `wanted` is set in `flags`.
pub open spec fn flags_contain(flags: u32, wanted: u32) -> bool {
    ((flags & KNOWN_FLAGS) & (wanted & KNOWN_FLAGS)) == (wanted & KNOWN_FLAGS)
}

/// Calls `notify::Op::contains` on the flag sets that
/// `notify::Op::from_bits_truncate` makes of `flags` and `wanted`.
///
/// Trusted: `from_bits_truncate` keeps the bits of the seven flags that
/// `notify::Op` defines and drops the rest, and `contains` says whether every
/// bit of its argument is set in the receiver.
#[verifier::external_body]
fn op_contains(flags: u32, wanted: u32) -> (held: bool)
    ensures
        held == flags_contain(flags, wanted),
{
    notify::Op::from_bits_truncate(flags).contains(notify::Op::from_bits_truncate(wanted))
}

/// What a notification says happened at its path.
#[derive(Clone, Copy, PartialEq, Eq, Debug, Structural)]
pub enum OperationKind {
    Create,
    Modify,
    Remove,
    RenameFrom,
    RenameTo,
    Other,
}

/// The kind of a notification with the given flags.
///
/// A removal outranks everything else, so that a notification in which the
/// backend has merged several operations still clears the path from the
/// index. A rename is the arrival half of a pair when its correlator is the
/// one that the departure half left pending, and the departure half
/// otherwise.
pub open spec fn classify(flags: u32, cookie: Option<u32>, pending: Option<u32>) -> OperationKind {
    if flags_contain(flags, FLAG_REMOVE) {
        OperationKind::Remove
    } else if flags_contain(flags, FLAG_CREATE) {
        OperationKind::Create
    } else if flags_contain(flags, FLAG_RENAME) {
        if cookie.is_some() && cookie == pending {
            OperationKind::RenameTo
        } else {
            OperationKind::RenameFrom
        }
    } else if flags_contain(flags, FLAG_WRITE) || flags_contain(flags, FLAG_CLOSE_WRITE)
        || flags_contain(flags, FLAG_CHMOD) {
        OperationKind::Modify
    } else {
        OperationKind::Other
    }
}

/// The rename correlator that is pending after a notification of kind
/// `kind`: a departure leaves its correlator, an arrival clears it, anything
/// else leaves it as it was.
pub open spec fn pending_after(kind: OperationKind, cookie: Option<u32>, pending: Option<u32>)
    -> Option<u32> {
    match kind {
        OperationKind::RenameFrom => cookie,
        OperationKind::RenameTo => None,
        _ => pending,
    }
}

impl OperationKind {
    /// Classifies a notification by its flags and rename correlator.
    pub fn of_flags(flags: u32, cookie: Option<u32>, pending: Option<u32>) -> (kind: OperationKind)
        ensures
            kind == classify(flags, cookie, pending),
    {
        if op_contains(flags, FLAG_REMOVE) {
            OperationKind::Remove
        } else if op_contains(flags, FLAG_CREATE) {
            OperationKind::Create
        } else if op_contains(flags, FLAG_RENAME) {
            let paired: bool = match (cookie, pending) {
                (Some(c), Some(p)) => c == p,
                _ => false,
            };
            if paired {
                OperationKind::RenameTo
            } else {
                OperationKind::RenameFrom
            }
        } else if op_contains(flags, FLAG_WRITE) || op_contains(flags, FLAG_CLOSE_WRITE)
            || op_contains(flags, FLAG_CHMOD) {
            OperationKind::Modify
        } else {
            OperationKind::Other
        }
    }

    /// Whether the index must drop the path before anything is read.
    pub fn includes_remove(self) -> (remove: bool)
        ensures
            remove == (self == OperationKind::Remove),
    {
        match self {
            OperationKind::Remove => true,
            _ => false,
        }
    }
}

/// A single notification of a change at a path.
#[derive(Clone, PartialEq, Eq, Debug)]
pub struct ChangeEvent {
    pub path: String,
    pub operation: OperationKind,
    pub rename_cookie: Option<u32>,
}

/// A change event as plain values.
pub struct ChangeEventView {
    pub path: Seq<char>,
    pub operation: OperationKind,
    pub rename_cookie: Option<u32>,
}

impl View for ChangeEvent {
    type V = ChangeEventView;

    open spec fn view(&self) -> ChangeEventView {
        ChangeEventView {
            path: self.path@,
            operation: self.operation,
            rename_cookie: self.rename_cookie,
        }
    }
}

} // verus!
