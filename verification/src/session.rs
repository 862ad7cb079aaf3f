//! The session and file-handle layer: which protocol call each public
//! operation makes, and how its outcome becomes the caller's result.
//!
//! Every operation is one application of the retry bridge to one
//! protocol call.  The asynchronous shell owns the protocol session
//! and the notifier; it asks this layer which request to issue, feeds
//! back each raw outcome one scheduling turn at a time, and performs
//! the suspensions the bridge decides.  Paths are byte strings.

use vstd::prelude::*;

use crate::bridge::{classify_stream_spec, step_spec, Step};
use crate::errors::{SftpError, StreamError};
use crate::listing::{collect_entries, listing_spec, listing_view, DirEvent, Listing};
use crate::stat::FileStat;

verus! {

/// The open flags of an open-or-create request.  Truncation asks for
/// creation as well, mirroring the protocol layer's flag encoding.
#[derive(Clone, Copy, Debug, PartialEq, Eq)]
pub struct OpenFlags {
    /// Open for reading.
    pub read: bool,
    /// Open for writing.
    pub write: bool,
    /// Writes go to the end of the file.
    pub append: bool,
    /// Create the file if it does not exist.
    pub create: bool,
    /// Truncate the file to zero length.
    pub truncate: bool,
    /// Fail if the file already exists.
    pub exclusive: bool,
}

impl OpenFlags {
    /// The flags of the read-only convenience form: read access and
    /// nothing else.
    pub fn read_only() -> (f: OpenFlags)
        ensures
            f == (OpenFlags {
                read: true,
                write: false,
                append: false,
                create: false,
                truncate: false,
                exclusive: false,
            }),
    {
        OpenFlags {
            read: true,
            write: false,
            append: false,
            create: false,
            truncate: false,
            exclusive: false,
        }
    }

    /// The flags of the create convenience form: write, create and
    /// truncate — and deliberately no read access, which the
    /// combination must not require.
    pub fn create_truncate() -> (f: OpenFlags)
        ensures
            f == (OpenFlags {
                read: false,
                write: true,
                append: false,
                create: true,
                truncate: true,
                exclusive: false,
            }),
            !f.read,
    {
        OpenFlags {
            read: false,
            write: true,
            append: false,
            create: true,
            truncate: true,
            exclusive: false,
        }
    }

    /// The flag word the protocol layer encodes these flags as: each
    /// flag has its own bit.
    pub fn bits(&self) -> (r: u32)
        ensures
            r == (if self.read {
                1int
            } else {
                0int
            }) + (if self.write {
                2int
            } else {
                0int
            }) + (if self.append {
                4int
            } else {
                0int
            }) + (if self.create {
                8int
            } else {
                0int
            }) + (if self.truncate {
                16int
            } else {
                0int
            }) + (if self.exclusive {
                32int
            } else {
                0int
            }),
    {
        let mut r: u32 = 0;
        if self.read {
            r = r + 1;
        }
        if self.write {
            r = r + 2;
        }
        if self.append {
            r = r + 4;
        }
        if self.create {
            r = r + 8;
        }
        if self.truncate {
            r = r + 16;
        }
        if self.exclusive {
            r = r + 32;
        }
        r
    }
}

/// Whether an open request is for a regular file or for directory
/// iteration.
#[derive(Clone, Copy, Debug, PartialEq, Eq)]
pub enum OpenType {
    /// A regular-file handle.
    File,
    /// A directory-listing handle.
    Dir,
}

/// The flags of a rename request.
#[derive(Clone, Copy, Debug, PartialEq, Eq)]
pub struct RenameFlags {
    /// Overwrite an existing destination.
    pub overwrite: bool,
    /// Ask for an atomic rename.
    pub atomic: bool,
    /// Ask for the remote end's native rename semantics.
    pub native: bool,
}

impl RenameFlags {
    /// The flag word the protocol layer encodes these flags as.
    pub fn bits(&self) -> (r: u32)
        ensures
            r == (if self.overwrite {
                1int
            } else {
                0int
            }) + (if self.atomic {
                2int
            } else {
                0int
            }) + (if self.native {
                4int
            } else {
                0int
            }),
    {
        let mut r: u32 = 0;
        if self.overwrite {
            r = r + 1;
        }
        if self.atomic {
            r = r + 2;
        }
        if self.native {
            r = r + 4;
        }
        r
    }
}

/// The protocol call a session operation asks the shell to issue.
#[derive(Clone, Debug, PartialEq, Eq)]
pub enum Request {
    /// Open or create an entry.
    Open { path: Vec<u8>, flags: OpenFlags, mode: i32, open_type: OpenType },
    /// Create a directory with the given permission bits.
    Mkdir { path: Vec<u8>, mode: i32 },
    /// Remove an empty directory.
    Rmdir { path: Vec<u8> },
    /// Read status metadata, following a terminal symlink.
    Stat { path: Vec<u8> },
    /// Read status metadata of the link itself.
    Lstat { path: Vec<u8> },
    /// Apply a partial status update.
    Setstat { path: Vec<u8>, stat: FileStat },
    /// Create a symlink at the path, pointing at the target.
    Symlink { path: Vec<u8>, target: Vec<u8> },
    /// Read where a symlink points.
    Readlink { path: Vec<u8> },
    /// Canonicalize a path remotely.
    Realpath { path: Vec<u8> },
    /// Rename an entry, optionally with special semantics.
    Rename { src: Vec<u8>, dst: Vec<u8>, flags: Option<RenameFlags> },
    /// Remove a file.
    Unlink { path: Vec<u8> },
    /// Shut the session down; no operation is valid afterwards.
    Shutdown,
}

/// The protocol call a file-handle operation asks the shell to issue.
#[derive(Clone, Debug, PartialEq, Eq)]
pub enum FileRequest {
    /// Apply a partial status update to the open entry.
    Setstat { stat: FileStat },
    /// Read the open entry's status metadata.
    Stat,
    /// Read one directory entry from a handle opened for iteration.
    Readdir,
    /// Flush the open entry to stable storage.
    Fsync,
    /// Close the handle; further use is invalid.
    Close,
}

/// A session on the remote file system, as the decision layer sees
/// it: whether a readiness notifier is attached is the one fact its
/// decisions read.  The shell owns the protocol session itself.
pub struct Sftp {
    /// Whether a readiness notifier is attached.  Without one, any
    /// would-block outcome is escalated instead of suspending.
    pub notifier_present: bool,
}

/// An open remote file or directory, as the decision layer sees it.
pub struct File {
    /// Whether a readiness notifier is attached — always the same one
    /// as the session's, shared by every handle it opens.
    pub notifier_present: bool,
    /// Whether the handle was opened for directory iteration.
    pub dir: bool,
}

impl Sftp {
    /// A session in the given notifier mode.
    pub fn new(notifier_present: bool) -> (s: Sftp)
        ensures
            s.notifier_present == notifier_present,
    {
        Sftp { notifier_present }
    }

    /// The request that opens or creates an entry with explicit
    /// flags, permission bits and kind.
    pub fn open_mode(&self, path: Vec<u8>, flags: OpenFlags, mode: i32, open_type: OpenType) -> (r:
        Request)
        ensures
            r == (Request::Open { path, flags, mode, open_type }),
    {
        Request::Open { path, flags, mode, open_type }
    }

    /// The read-only convenience form of `open_mode`.
    pub fn open(&self, path: Vec<u8>) -> (r: Request)
        ensures
            r == (Request::Open {
                path,
                flags: OpenFlags {
                    read: true,
                    write: false,
                    append: false,
                    create: false,
                    truncate: false,
                    exclusive: false,
                },
                mode: 0o644,
                open_type: OpenType::File,
            }),
    {
        self.open_mode(path, OpenFlags::read_only(), 0o644, OpenType::File)
    }

    /// The create convenience form of `open_mode`: write, create and
    /// truncate, without read access.
    pub fn create(&self, path: Vec<u8>) -> (r: Request)
        ensures
            r == (Request::Open {
                path,
                flags: OpenFlags {
                    read: false,
                    write: true,
                    append: false,
                    create: true,
                    truncate: true,
                    exclusive: false,
                },
                mode: 0o644,
                open_type: OpenType::File,
            }),
            r matches Request::Open { flags, .. } && !flags.read,
    {
        self.open_mode(path, OpenFlags::create_truncate(), 0o644, OpenType::File)
    }

    /// The request that opens a handle for directory iteration.
    pub fn opendir(&self, path: Vec<u8>) -> (r: Request)
        ensures
            r == (Request::Open {
                path,
                flags: OpenFlags {
                    read: true,
                    write: false,
                    append: false,
                    create: false,
                    truncate: false,
                    exclusive: false,
                },
                mode: 0,
                open_type: OpenType::Dir,
            }),
    {
        self.open_mode(path, OpenFlags::read_only(), 0, OpenType::Dir)
    }

    /// The handle a completed open request yields.  Every handle
    /// shares the session's notifier: all suspension points on one
    /// transport register with the same readiness source.
    pub fn new_handle(&self, open_type: &OpenType) -> (f: File)
        ensures
            f.notifier_present == self.notifier_present,
            f.dir == (open_type is Dir),
    {
        File::new(self.notifier_present, matches!(open_type, OpenType::Dir))
    }

    /// The whole directory-listing loop over the terminal outcomes of
    /// the single-entry reads on the opened directory handle: joined
    /// paths of the real entries, the pseudo-entries skipped, stopped
    /// successfully at the reserved end-of-entries code, aborted on
    /// any other error with the accumulation discarded.
    pub fn readdir(&self, dirname: &Vec<u8>, events: Vec<DirEvent>) -> (r: Listing)
        ensures
            listing_view(r) == listing_spec(dirname@, events@),
    {
        collect_entries(dirname, events)
    }

    /// The request that creates a directory.
    pub fn mkdir(&self, path: Vec<u8>, mode: i32) -> (r: Request)
        ensures
            r == (Request::Mkdir { path, mode }),
    {
        Request::Mkdir { path, mode }
    }

    /// The request that removes an empty directory.
    pub fn rmdir(&self, path: Vec<u8>) -> (r: Request)
        ensures
            r == (Request::Rmdir { path }),
    {
        Request::Rmdir { path }
    }

    /// The request that reads status metadata, following a terminal
    /// symlink.
    pub fn stat(&self, path: Vec<u8>) -> (r: Request)
        ensures
            r == (Request::Stat { path }),
    {
        Request::Stat { path }
    }

    /// The request that reads status metadata of the link itself.
    pub fn lstat(&self, path: Vec<u8>) -> (r: Request)
        ensures
            r == (Request::Lstat { path }),
    {
        Request::Lstat { path }
    }

    /// The request that applies a partial status update.
    pub fn setstat(&self, path: Vec<u8>, stat: FileStat) -> (r: Request)
        ensures
            r == (Request::Setstat { path, stat }),
    {
        Request::Setstat { path, stat }
    }

    /// The request that creates a symlink.
    pub fn symlink(&self, path: Vec<u8>, target: Vec<u8>) -> (r: Request)
        ensures
            r == (Request::Symlink { path, target }),
    {
        Request::Symlink { path, target }
    }

    /// The request that reads where a symlink points.
    pub fn readlink(&self, path: Vec<u8>) -> (r: Request)
        ensures
            r == (Request::Readlink { path }),
    {
        Request::Readlink { path }
    }

    /// The request that canonicalizes a path remotely.
    pub fn realpath(&self, path: Vec<u8>) -> (r: Request)
        ensures
            r == (Request::Realpath { path }),
    {
        Request::Realpath { path }
    }

    /// The request that renames an entry.
    pub fn rename(&self, src: Vec<u8>, dst: Vec<u8>, flags: Option<RenameFlags>) -> (r: Request)
        ensures
            r == (Request::Rename { src, dst, flags }),
    {
        Request::Rename { src, dst, flags }
    }

    /// The request that removes a file.
    pub fn unlink(&self, path: Vec<u8>) -> (r: Request)
        ensures
            r == (Request::Unlink { path }),
    {
        Request::Unlink { path }
    }

    /// The final request of the session's life.  Consumes the
    /// session: no further operation can be issued through it.
    pub fn shutdown(self) -> (r: Request)
        ensures
            r == Request::Shutdown,
    {
        Request::Shutdown
    }
}

impl File {
    /// A handle in the given notifier and directory mode.
    pub fn new(notifier_present: bool, dir: bool) -> (f: File)
        ensures
            f.notifier_present == notifier_present,
            f.dir == dir,
    {
        File { notifier_present, dir }
    }

    /// The request that applies a partial status update to the open
    /// entry.
    pub fn setstat(&self, stat: FileStat) -> (r: FileRequest)
        ensures
            r == (FileRequest::Setstat { stat }),
    {
        FileRequest::Setstat { stat }
    }

    /// The request that reads the open entry's status metadata.
    pub fn stat(&self) -> (r: FileRequest)
        ensures
            r == FileRequest::Stat,
    {
        FileRequest::Stat
    }

    /// The request that reads one directory entry.  Its outcome
    /// surfaces the reserved end-of-entries code as an error value;
    /// only the session's listing loop reinterprets that code as a
    /// successful end of sequence.
    pub fn readdir(&self) -> (r: FileRequest)
        ensures
            r == FileRequest::Readdir,
    {
        FileRequest::Readdir
    }

    /// The request that flushes the open entry to stable storage.
    pub fn fsync(&self) -> (r: FileRequest)
        ensures
            r == FileRequest::Fsync,
    {
        FileRequest::Fsync
    }

    /// The final request of the handle's life.  Consumes the handle:
    /// no further operation can be issued through it.
    pub fn close(self) -> (r: FileRequest)
        ensures
            r == FileRequest::Close,
    {
        FileRequest::Close
    }

    /// One scheduling turn of a streaming read: a completed read —
    /// zero bytes meaning end of stream, without error — is returned
    /// as is; would-block suspends while a notifier is attached, and
    /// never turns into a zero-byte result or an error; any other
    /// transport error fails the read.
    pub fn poll_read(&self, attempt: Result<usize, StreamError>) -> (s: Step<usize, StreamError>)
        ensures
            s == step_spec(classify_stream_spec(attempt), self.notifier_present),
            attempt matches Ok(n) ==> s == Step::<usize, StreamError>::Done(Ok(n)),
            (attempt matches Err(e) && e.kind is WouldBlock && self.notifier_present) ==> s
                is Suspend,
    {
        crate::bridge::step(crate::bridge::classify_stream(attempt), self.notifier_present)
    }

    /// One scheduling turn of a streaming write: a completed write
    /// returns the number of bytes accepted; would-block suspends
    /// while a notifier is attached; any other transport error fails
    /// the write.
    pub fn poll_write(&self, attempt: Result<usize, StreamError>) -> (s: Step<usize, StreamError>)
        ensures
            s == step_spec(classify_stream_spec(attempt), self.notifier_present),
            attempt matches Ok(n) ==> s == Step::<usize, StreamError>::Done(Ok(n)),
            (attempt matches Err(e) && e.kind is WouldBlock && self.notifier_present) ==> s
                is Suspend,
    {
        crate::bridge::step(crate::bridge::classify_stream(attempt), self.notifier_present)
    }

    /// One scheduling turn of a flush: the same suspend-or-complete
    /// decision applied to the flush call.
    pub fn poll_flush(&self, attempt: Result<(), StreamError>) -> (s: Step<(), StreamError>)
        ensures
            s == step_spec(classify_stream_spec(attempt), self.notifier_present),
            attempt matches Ok(n) ==> s == Step::<(), StreamError>::Done(Ok(n)),
            (attempt matches Err(e) && e.kind is WouldBlock && self.notifier_present) ==> s
                is Suspend,
    {
        crate::bridge::step(crate::bridge::classify_stream(attempt), self.notifier_present)
    }

    /// One scheduling turn of a stream shutdown: it always completes
    /// at once — the protocol has no half-close distinct from close.
    pub fn poll_shutdown(&self) -> (s: Step<(), StreamError>)
        ensures
            s == Step::<(), StreamError>::Done(Ok(())),
    {
        Step::Done(Ok(()))
    }
}

/// A notifier or transport failure while registering for a wakeup,
/// surfaced as the unified error.
pub fn notifier_error(msg: String) -> (r: SftpError)
    ensures
        r == SftpError::Notifier(msg),
{
    SftpError::Notifier(msg)
}

} // verus!
