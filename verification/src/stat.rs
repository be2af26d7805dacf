//! The plain facts the operating system reports about one path, and the
//! tri-state outcome of the richer permission check.

use vstd::prelude::*;

verus! {

/// What kind of entry the metadata shows.  Metadata resolution follows
/// symbolic links, so a link never appears here itself: a query through a
/// link reports its target, and a broken link reports no metadata at all.
#[derive(Clone, Copy, Debug, PartialEq, Eq, Structural)]
pub enum FileKind {
    /// A regular file.
    Regular,
    /// A directory.
    Directory,
    /// Anything else the system can report: a device, a socket, a fifo.
    Other,
}

/// One successful metadata read: the facts at query time, re-queried on
/// every call and never cached.
#[derive(Clone, Copy, Debug, PartialEq, Eq, Structural)]
pub struct FileStat {
    /// The kind of entry, links already followed.
    pub kind: FileKind,
    /// The POSIX mode bits; `0o100`, `0o010` and `0o001` are the owner,
    /// group and other execute bits.
    pub mode: u32,
    /// The id of the owning user.
    pub uid: u32,
    /// The id of the owning group.
    pub gid: u32,
}

/// The tri-state answer of the richer permission check.
#[derive(Clone, Copy, Debug, PartialEq, Eq, Structural)]
pub enum Permission {
    /// The metadata query failed, or the entry is not a regular file.
    NotFound,
    /// A regular file is present, but the process holds no execute right
    /// on it through its user, its groups, or the other-execute bit.
    Denied,
    /// A regular file is present and the process may execute it.
    Permitted,
}

/// At least one of the three execute bits is set.  No distinction between
/// owner, group and other is surfaced by the boolean oracle.
pub open spec fn any_execute_bit(mode: u32) -> bool {
    mode & 0o111 != 0
}

} // verus!
