//! Status metadata of a remote file-system entry.
//!
//! Every field is optional: the remote end reports only what it
//! knows, and a partial status handed to a set-status operation asks
//! the remote end to change only the fields that are set.

use vstd::prelude::*;

verus! {

/// Status metadata of a remote entry, as plain optional values.
#[derive(Clone, Copy, Debug, PartialEq, Eq)]
pub struct FileStat {
    /// Size in bytes.
    pub size: Option<u64>,
    /// Owning user id.
    pub uid: Option<u32>,
    /// Owning group id.
    pub gid: Option<u32>,
    /// Permission bits.
    pub perm: Option<u32>,
    /// Last access time, in seconds.
    pub atime: Option<u64>,
    /// Last modification time, in seconds.
    pub mtime: Option<u64>,
}

impl FileStat {
    /// A status with no field set: a set-status request built from it
    /// asks for no change.
    pub fn empty() -> (s: FileStat)
        ensures
            s == (FileStat {
                size: None,
                uid: None,
                gid: None,
                perm: None,
                atime: None,
                mtime: None,
            }),
    {
        FileStat { size: None, uid: None, gid: None, perm: None, atime: None, mtime: None }
    }
}

} // verus!
