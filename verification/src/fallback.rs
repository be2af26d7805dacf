//! The fallback branch of the oracle, for platforms with neither POSIX
//! permission bits nor a binary-subtype query: executability degrades to
//! the existence of a file.

use vstd::prelude::*;

use crate::IsExecutable;

verus! {

/// What the fallback branch observes: whether a regular file is visible
/// at the path at all.  A directory, or a path the runtime cannot see,
/// does not count.
#[derive(Clone, Copy, Debug)]
pub struct FallbackQuery {
    /// A regular file exists at the path.
    pub file_exists: bool,
}

impl IsExecutable for FallbackQuery {
    open spec fn executable_spec(&self) -> bool {
        self.file_exists
    }

    fn is_executable(&self) -> (r: bool) {
        self.file_exists
    }
}

/// Law: a path at which no file exists is never executable, on the
/// fallback branch as everywhere else.
pub proof fn lemma_missing_not_executable(q: FallbackQuery)
    requires
        !q.file_exists,
    ensures
        !q.executable_spec(),
{
}

} // verus!
