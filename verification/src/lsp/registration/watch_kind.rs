//! Bit flags for [`FileSystemWatcher::kind`](super::FileSystemWatcher):
//! which file events the server wants reported. Combine with `|`; the spec
//! default (all three) applies when the field is omitted.

use vstd::prelude::*;

verus! {

/// Report file creations.
pub const CREATE: u32 = 1;

/// Report file content changes.
pub const CHANGE: u32 = 2;

/// Report file deletions.
pub const DELETE: u32 = 4;

/// All of create, change, and delete (the spec default).
pub const ALL: u32 = 7;

} // verus!
