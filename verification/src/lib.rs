//! Does the file at a given path exist, and can it be executed?
//!
//! The oracle in this crate is a pure predicate over the facts the host
//! operating system reports about one path.  Each platform variant of the
//! check is a value holding those facts as plain data — a [`PosixQuery`]
//! for permission bits, a [`WindowsQuery`] for the extension allow-list and
//! the binary subtype, a [`FallbackQuery`] for platforms with neither — and
//! every variant answers through the one shared capability, the
//! [`IsExecutable`] trait.  A caller gathers the facts (a metadata read, an
//! environment variable, a binary-type query), builds the query value, and
//! asks it.  Every failure on the way to the facts collapses to `false`:
//! the predicate answers "can I safely assume this is executable?", and any
//! uncertainty resolves to "no".
//!
//! A second, richer capability, [`IsPermitted`], reports a tri-state
//! [`Permission`] instead of a boolean: whether the invoking process in
//! particular — by its effective user id and its group memberships — holds
//! execute rights on the file.

use vstd::prelude::*;

pub mod fallback;
pub mod posix;
pub mod stat;
pub mod windows;

pub use fallback::FallbackQuery;
pub use posix::PosixQuery;
pub use posix::permission_for;
pub use stat::FileKind;
pub use stat::FileStat;
pub use stat::Permission;
pub use windows::WindowsQuery;

verus! {

/// The capability shared by every platform variant of the oracle: one
/// boolean verdict, pinned to a specification of the observed facts.
pub trait IsExecutable {
    /// The verdict as a function of the facts this query holds.
    spec fn executable_spec(&self) -> bool;

    /// Returns `true` if the observed facts show an executable file at the
    /// path, and `false` otherwise.
    fn is_executable(&self) -> (r: bool)
        ensures
            r == self.executable_spec(),
    ;
}

/// The richer capability: a tri-state answer on whether the invoking
/// process itself holds execute rights.  The decision depends on the
/// process's effective user id and group memberships, so the contract
/// promises the decision for the (arbitrary) pair the system reported.
pub trait IsPermitted {
    /// The tri-state as a function of the facts this query holds and of an
    /// effective user id and group membership list.
    spec fn permission_spec(&self, euid: u32, gids: Seq<u32>) -> Permission;

    /// Returns whether a file is present and the invoking process may
    /// execute it, judged against the process's own user and groups.
    fn is_permitted(&self) -> (r: Permission)
        ensures
            exists|euid: u32, gids: Seq<u32>| r == self.permission_spec(euid, gids),
    ;
}

/// Returns `true` if there is a file behind the queried path and it is
/// executable.  Returns `false` otherwise.
///
/// This free function is a direct delegate to [`IsExecutable::is_executable`];
/// the two never diverge.
pub fn is_executable<T: IsExecutable>(q: &T) -> (r: bool)
    ensures
        r == q.executable_spec(),
{
    q.is_executable()
}

/// Returns whether a file is present behind the queried path and the
/// invoking process is permitted to execute it.
///
/// This free function is a direct delegate to [`IsPermitted::is_permitted`];
/// the two never diverge.
pub fn is_permitted<T: IsPermitted>(q: &T) -> (r: Permission)
    ensures
        exists|euid: u32, gids: Seq<u32>| r == q.permission_spec(euid, gids),
{
    q.is_permitted()
}

/// Law: on one observed state the oracle has one answer.  Any two results
/// that meet the contract of [`IsExecutable::is_executable`] on the same
/// query are equal, so calling the predicate twice in succession over an
/// unchanged filesystem yields the same verdict both times.
pub proof fn lemma_verdict_unique<T: IsExecutable>(q: &T, r1: bool, r2: bool)
    requires
        r1 == q.executable_spec(),
        r2 == q.executable_spec(),
    ensures
        r1 == r2,
{
}

} // verus!
