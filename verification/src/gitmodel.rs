//! Classification of raw repository status bits.
//!
//! The status helper walks a repository and receives, for each path, a word of
//! status bits.  Which kind of change is reported for the path is a pure
//! decision on those bits; it is made here, verified, and the unverified shell
//! only forwards the raw word.  The bit values are the ones the underlying
//! version-control library defines.

use vstd::prelude::*;

verus! {

use crate::types::GitStatusType;

/// The path is newly added to the index.
pub const STATUS_INDEX_NEW: u32 = 1;
/// The path is modified in the index.
pub const STATUS_INDEX_MODIFIED: u32 = 2;
/// The path is deleted in the index.
pub const STATUS_INDEX_DELETED: u32 = 4;
/// The path is new in the working tree.
pub const STATUS_WT_NEW: u32 = 128;
/// The path is modified in the working tree.
pub const STATUS_WT_MODIFIED: u32 = 256;
/// The path is deleted from the working tree.
pub const STATUS_WT_DELETED: u32 = 512;

/// The kind of change reported for a word of status bits: index states take
/// precedence over working-tree states, and a path with none of the six
/// recognized bits is skipped as clean.
pub open spec fn spec_classify_status(bits: u32) -> Option<GitStatusType> {
    if bits & STATUS_INDEX_NEW != 0 {
        Some(GitStatusType::Added)
    } else if bits & STATUS_INDEX_MODIFIED != 0 {
        Some(GitStatusType::Modified)
    } else if bits & STATUS_INDEX_DELETED != 0 {
        Some(GitStatusType::Deleted)
    } else if bits & STATUS_WT_MODIFIED != 0 {
        Some(GitStatusType::Modified)
    } else if bits & STATUS_WT_DELETED != 0 {
        Some(GitStatusType::Deleted)
    } else if bits & STATUS_WT_NEW != 0 {
        Some(GitStatusType::Untracked)
    } else {
        None
    }
}

/// Classifies one word of repository status bits; `None` means the path is
/// clean and no entry is reported for it.
pub fn classify_status(bits: u32) -> (r: Option<GitStatusType>)
    ensures
        r == spec_classify_status(bits),
{
    if bits & STATUS_INDEX_NEW != 0 {
        Some(GitStatusType::Added)
    } else if bits & STATUS_INDEX_MODIFIED != 0 {
        Some(GitStatusType::Modified)
    } else if bits & STATUS_INDEX_DELETED != 0 {
        Some(GitStatusType::Deleted)
    } else if bits & STATUS_WT_MODIFIED != 0 {
        Some(GitStatusType::Modified)
    } else if bits & STATUS_WT_DELETED != 0 {
        Some(GitStatusType::Deleted)
    } else if bits & STATUS_WT_NEW != 0 {
        Some(GitStatusType::Untracked)
    } else {
        None
    }
}

} // verus!
