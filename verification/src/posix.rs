//! The POSIX branch of the oracle: a regular file with any execute bit set
//! is executable.  The richer check intersects the process's identity with
//! the file's owner, group and other bits.

use vstd::prelude::*;

use crate::IsExecutable;
use crate::IsPermitted;
use crate::stat::FileKind;
use crate::stat::FileStat;
use crate::stat::Permission;
use crate::stat::any_execute_bit;

verus! {

/// What one POSIX metadata query reported: `None` when the query failed
/// for any reason (no file at the path, a broken link, permission denied
/// to stat), `Some` with the facts otherwise.
#[derive(Clone, Copy, Debug)]
pub struct PosixQuery {
    /// The metadata, links already followed.
    pub stat: Option<FileStat>,
}

/// The POSIX answer: the metadata shows a regular file and at least one
/// of the three execute bits is set.
pub open spec fn spec_posix_executable(stat: Option<FileStat>) -> bool {
    match stat {
        Some(m) => m.kind == FileKind::Regular && any_execute_bit(m.mode),
        None => false,
    }
}

impl IsExecutable for PosixQuery {
    open spec fn executable_spec(&self) -> bool {
        spec_posix_executable(self.stat)
    }

    fn is_executable(&self) -> (r: bool) {
        match self.stat {
            Some(m) => match m.kind {
                FileKind::Regular => m.mode & 0o111 != 0,
                _ => false,
            },
            None => false,
        }
    }
}

/// The tri-state decision as a function of the stat facts and of the
/// process's effective user id and group memberships: owner execute for
/// the owning user, group execute for a member of the owning group, and
/// the other-execute bit for everyone, in that order of appeal.
pub open spec fn spec_permission(stat: Option<FileStat>, euid: u32, gids: Seq<u32>) -> Permission {
    match stat {
        None => Permission::NotFound,
        Some(m) => if m.kind != FileKind::Regular {
            Permission::NotFound
        } else if (euid == m.uid && m.mode & 0o100 != 0) || (gids.contains(m.gid) && m.mode
            & 0o010 != 0) || (m.mode & 0o001 != 0) {
            Permission::Permitted
        } else {
            Permission::Denied
        },
    }
}

fn contains_gid(gids: &Vec<u32>, g: u32) -> (r: bool)
    ensures
        r == gids@.contains(g),
{
    let mut i: usize = 0;
    while i < gids.len()
        invariant
            i <= gids@.len(),
            forall|k: int| 0 <= k < i ==> gids@[k] != g,
        decreases gids@.len() - i,
    {
        if gids[i] == g {
            proof {
                assert(gids@[i as int] == g);
            }
            return true;
        }
        i += 1;
    }
    false
}

/// The verified decision on given facts: exactly [`spec_permission`] of
/// the metadata, the effective user id and the group list, for every value
/// of them.
pub fn permission_for(stat: &Option<FileStat>, euid: u32, gids: &Vec<u32>) -> (r: Permission)
    ensures
        r == spec_permission(*stat, euid, gids@),
{
    match stat {
        None => Permission::NotFound,
        Some(m) => match m.kind {
            FileKind::Regular => {
                let owner = euid == m.uid && m.mode & 0o100 != 0;
                let group = contains_gid(gids, m.gid) && m.mode & 0o010 != 0;
                let other = m.mode & 0o001 != 0;
                if owner || group || other {
                    Permission::Permitted
                } else {
                    Permission::Denied
                }
            },
            _ => Permission::NotFound,
        },
    }
}

/// Relies on users::get_effective_uid (libc geteuid): the effective user
/// id of this process.  Nothing is promised of the value; callers treat it
/// as arbitrary.
#[verifier::external_body]
fn effective_uid() -> u32 {
    users::get_effective_uid()
}

/// Relies on users::group_access_list (libc getgroups): the ids of the
/// groups this process belongs to, or `None` when the system query fails.
/// Nothing is promised of the outcome; callers treat it as arbitrary.
#[verifier::external_body]
fn group_ids() -> Option<Vec<u32>> {
    match users::group_access_list() {
        Ok(groups) => Some(groups.iter().map(|g| g.gid()).collect()),
        Err(_) => None,
    }
}

impl IsPermitted for PosixQuery {
    open spec fn permission_spec(&self, euid: u32, gids: Seq<u32>) -> Permission {
        spec_permission(self.stat, euid, gids)
    }

    /// Queries the process's effective user id and group list and decides.
    /// A failed group query counts as an empty membership list: the owner
    /// and other checks still apply, and uncertainty never grants more.
    fn is_permitted(&self) -> (r: Permission) {
        let euid = effective_uid();
        let gids = match group_ids() {
            Some(v) => v,
            None => Vec::new(),
        };
        let r = permission_for(&self.stat, euid, &gids);
        proof {
            assert(r == self.permission_spec(euid, gids@));
        }
        r
    }
}

/// Law: a path at which the metadata query fails — no file, a dangling
/// link, a denied stat — is never executable.
pub proof fn lemma_missing_not_executable(q: PosixQuery)
    requires
        q.stat is None,
    ensures
        !q.executable_spec(),
{
}

/// Law: a directory is never executable, whatever its mode bits say.
pub proof fn lemma_directory_not_executable(q: PosixQuery)
    requires
        q.stat matches Some(m) && m.kind == FileKind::Directory,
    ensures
        !q.executable_spec(),
{
}

/// Law: the POSIX branch reads nothing but the metadata facts.  Two
/// queries that report the same facts get the same answer — in
/// particular a symbolic link and its target, since metadata resolution
/// follows links and hands both the target's facts; and a dangling link,
/// whose metadata query fails, answers as any missing file does.
pub proof fn lemma_same_stat_same_answer(q1: PosixQuery, q2: PosixQuery)
    requires
        q1.stat == q2.stat,
    ensures
        q1.executable_spec() == q2.executable_spec(),
{
}

/// Law: on a regular file the execute bits alone decide — any one of the
/// owner, group or other bits makes the file executable, and with all
/// three clear it is not.
pub proof fn lemma_execute_bits_decide(m: FileStat)
    requires
        m.kind == FileKind::Regular,
    ensures
        spec_posix_executable(Some(m)) <==> any_execute_bit(m.mode),
{
}

/// Law: whatever user and groups the system reports, the tri-state is
/// `NotFound` exactly when the metadata does not show a regular file.
pub proof fn lemma_permission_not_found(stat: Option<FileStat>, euid: u32, gids: Seq<u32>)
    ensures
        spec_permission(stat, euid, gids) == Permission::NotFound <==> !(stat matches Some(m)
            && m.kind == FileKind::Regular),
{
}

/// Law: `Permitted` is only granted on a regular file carrying at least
/// one execute bit, so the richer check never contradicts the boolean
/// oracle's negative; and the other-execute bit grants it to every
/// process, whatever its user and groups.
pub proof fn lemma_permission_bits(stat: Option<FileStat>, euid: u32, gids: Seq<u32>)
    ensures
        spec_permission(stat, euid, gids) == Permission::Permitted ==> spec_posix_executable(stat),
        (stat matches Some(m) && m.kind == FileKind::Regular && m.mode & 0o001 != 0)
            ==> spec_permission(stat, euid, gids) == Permission::Permitted,
{
    assert(forall|md: u32|
        (md & 0o100 != 0 ==> md & 0o111 != 0) && (md & 0o010 != 0 ==> md & 0o111 != 0) && (md
            & 0o001 != 0 ==> md & 0o111 != 0)) by (bit_vector);
}

} // verus!
