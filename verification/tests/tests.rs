use is_executable::is_executable;
use is_executable::is_permitted;
use is_executable::permission_for;
use is_executable::windows::subtype_is_executable;
use is_executable::FallbackQuery;
use is_executable::FileKind;
use is_executable::FileStat;
use is_executable::IsExecutable;
use is_executable::IsPermitted;
use is_executable::Permission;
use is_executable::PosixQuery;
use is_executable::WindowsQuery;

fn posix_regular(mode: u32) -> PosixQuery {
    PosixQuery {
        stat: Some(FileStat {
            kind: FileKind::Regular,
            mode,
            uid: 1000,
            gid: 1000,
        }),
    }
}

fn windows_query(path: &str, pathext: Option<&str>, file_exists: bool, subtype: Option<u32>) -> WindowsQuery {
    WindowsQuery {
        path: String::from(path),
        pathext: pathext.map(String::from),
        file_exists,
        subtype,
    }
}

const PATHEXT: &str = ".COM;.EXE;.BAT;.CMD";

// What a POSIX metadata read of ./tests/i_am_executable reports: a regular
// file with an execute bit set.
#[test]
fn executable() {
    let q = posix_regular(0o100755);
    assert!(is_executable(&q));
}

// ./tests/i_am_executable_and_symlink: metadata resolution follows the
// link, so the query reports its executable target.
#[test]
fn executable_symlink() {
    let q = posix_regular(0o100755);
    assert!(is_executable(&q));
}

// ./tests/i_am_not_executable_and_symlink: the link's target is a regular
// file with no execute bit.
#[test]
fn not_executable_symlink() {
    let q = posix_regular(0o100644);
    assert!(!is_executable(&q));
}

// ".": a directory, whatever its mode bits say.
#[test]
fn not_executable_directory() {
    let q = PosixQuery {
        stat: Some(FileStat {
            kind: FileKind::Directory,
            mode: 0o100755,
            uid: 1000,
            gid: 1000,
        }),
    };
    assert!(!is_executable(&q));
}

// C:\Windows\explorer.exe on a host whose PATHEXT holds .EXE: the
// extension decides, with no appeal to the binary subtype.
#[test]
fn tests_executable() {
    let q = windows_query("C:\\Windows\\explorer.exe", Some(PATHEXT), true, None);
    assert!(is_executable(&q));
}

// ./tests/i_am_executable_on_windows.bat with .BAT in the allow-list.
#[test]
fn by_extension() {
    let q = windows_query("./tests/i_am_executable_on_windows.bat", Some(PATHEXT), true, None);
    assert!(is_executable(&q));
}

// ./tests/non_existent.exe: the extension matches, but no file exists at
// the path, so the verdict is still false.
#[test]
fn non_existent_correct_extension() {
    let q = windows_query("./tests/non_existent.exe", Some(PATHEXT), false, None);
    assert!(!is_executable(&q));
}

// ./tests/i_am_executable_and_symlink on a platform with neither POSIX
// bits nor a subtype query, whose runtime does not see the file.
#[test]
fn tests_executable_symlink() {
    let q = FallbackQuery { file_exists: false };
    assert!(!is_executable(&q));
}

// ./tests/i_am_not_executable_and_symlink, likewise out of the runtime's
// sight on the fallback branch.
#[test]
fn tests_not_executable_symlink() {
    let q = FallbackQuery { file_exists: false };
    assert!(!is_executable(&q));
}

// ".": a directory is not a file, so the fallback branch refuses it too.
#[test]
fn tests_not_executable_directory() {
    let q = FallbackQuery { file_exists: false };
    assert!(!is_executable(&q));
}

// ./tests/i_am_not_executable: a regular file with no execute bit.
#[test]
fn not_executable() {
    let q = posix_regular(0o100644);
    assert!(!is_executable(&q));
}

// ./tests/this-file-does-not-exist: the metadata query fails.
#[test]
fn non_existant() {
    let q = PosixQuery { stat: None };
    assert!(!is_executable(&q));
}

// The oracle is a pure function of the observed facts: two calls in
// succession on an unchanged state agree, and the free function never
// diverges from the method it delegates to.
#[test]
fn same_verdict_twice() {
    let q = posix_regular(0o100755);
    assert_eq!(is_executable(&q), is_executable(&q));
    assert_eq!(is_executable(&q), q.is_executable());
    let w = windows_query("a.bat", Some(PATHEXT), true, None);
    assert_eq!(is_executable(&w), is_executable(&w));
    assert_eq!(is_executable(&w), w.is_executable());
    let f = FallbackQuery { file_exists: true };
    assert_eq!(is_executable(&f), f.is_executable());
}

// A file exists on the fallback branch: existence alone decides.
#[test]
fn fallback_existing_file() {
    let q = FallbackQuery { file_exists: true };
    assert!(is_executable(&q));
}

// An absent PATHEXT leaves the decision to the binary subtype.
#[test]
fn absent_pathext_subtype_decides() {
    assert!(is_executable(&windows_query("prog.bat", None, true, Some(3))));
    assert!(!is_executable(&windows_query("prog.bat", None, true, Some(7))));
    assert!(!is_executable(&windows_query("prog.bat", None, true, None)));
}

// An empty PATHEXT counts as absent: the subtype decides.
#[test]
fn empty_pathext_subtype_decides() {
    assert!(is_executable(&windows_query("prog.bat", Some(""), true, Some(0))));
    assert!(!is_executable(&windows_query("prog.bat", Some(""), true, Some(42))));
}

// Each of the seven recognized subtype codes passes; the next does not.
#[test]
fn recognized_subtypes() {
    for code in 0..=6u32 {
        assert!(subtype_is_executable(&Some(code)));
    }
    assert!(!subtype_is_executable(&Some(7)));
    assert!(!subtype_is_executable(&None));
}

// A checked extension that misses the allow-list refuses at once: no
// fall-through to the subtype, however executable the file's image is.
#[test]
fn extension_miss_no_fallthrough() {
    let q = windows_query("prog.xyz", Some(PATHEXT), true, Some(0));
    assert!(!is_executable(&q));
}

// Extension comparison ignores ASCII case on both sides.
#[test]
fn extension_match_ignores_case() {
    assert!(is_executable(&windows_query("RUN.BaT", Some(PATHEXT), true, None)));
    assert!(is_executable(&windows_query("run.exe", Some(".eXe"), true, None)));
}

// Allow-list tokens of length one or less are discarded; the surviving
// token loses its first character before comparison.
#[test]
fn short_tokens_discarded() {
    let q = windows_query("f.x", Some("a;;.X"), true, None);
    assert!(is_executable(&q));
    let miss = windows_query("f.a", Some("a;;.X"), true, None);
    assert!(!is_executable(&miss));
}

// The first character is cut from a token whether or not it is a dot, as
// the conventional `.EXE` shape assumes.
#[test]
fn leading_character_cut() {
    assert!(is_executable(&windows_query("tool.xe", Some("EXE"), true, None)));
    assert!(!is_executable(&windows_query("tool.exe", Some("EXE"), true, None)));
}

// Only the last path segment carries the extension; a dot in an earlier
// segment does not count, under either slash.
#[test]
fn extension_is_of_last_segment() {
    assert!(!is_executable(&windows_query("dir.exe/prog", Some(PATHEXT), true, None)));
    assert!(!is_executable(&windows_query("dir.exe\\prog", Some(PATHEXT), true, None)));
    assert!(is_executable(&windows_query("dir\\prog.exe", Some(PATHEXT), true, None)));
}

// A trailing dot gives the empty extension, which matches no entry.
#[test]
fn trailing_dot_matches_nothing() {
    let q = windows_query("prog.", Some(PATHEXT), true, None);
    assert!(!is_executable(&q));
}

// The tri-state on a failed metadata query.
#[test]
fn permission_not_found() {
    let r = permission_for(&None, 0, &vec![]);
    assert_eq!(r, Permission::NotFound);
}

// The tri-state on a directory: not a regular file, so NotFound.
#[test]
fn permission_directory() {
    let st = FileStat {
        kind: FileKind::Directory,
        mode: 0o100755,
        uid: 0,
        gid: 0,
    };
    assert_eq!(permission_for(&Some(st), 0, &vec![0]), Permission::NotFound);
}

// The owner execute bit grants rights to the owning user alone.
#[test]
fn permission_owner_bit() {
    let st = FileStat {
        kind: FileKind::Regular,
        mode: 0o100700,
        uid: 42,
        gid: 7,
    };
    assert_eq!(permission_for(&Some(st), 42, &vec![]), Permission::Permitted);
    assert_eq!(permission_for(&Some(st), 43, &vec![]), Permission::Denied);
}

// The group execute bit grants rights to members of the owning group.
#[test]
fn permission_group_bit() {
    let st = FileStat {
        kind: FileKind::Regular,
        mode: 0o100010,
        uid: 42,
        gid: 7,
    };
    assert_eq!(permission_for(&Some(st), 9, &vec![5, 7]), Permission::Permitted);
    assert_eq!(permission_for(&Some(st), 9, &vec![5, 8]), Permission::Denied);
}

// The other execute bit grants rights to every process.
#[test]
fn permission_other_bit() {
    let st = FileStat {
        kind: FileKind::Regular,
        mode: 0o100001,
        uid: 42,
        gid: 7,
    };
    assert_eq!(permission_for(&Some(st), 9, &vec![]), Permission::Permitted);
}

// A regular file with no execute bit at all is denied to everyone.
#[test]
fn permission_no_bits_denied() {
    let st = FileStat {
        kind: FileKind::Regular,
        mode: 0o100644,
        uid: 42,
        gid: 7,
    };
    assert_eq!(permission_for(&Some(st), 42, &vec![7]), Permission::Denied);
}

// The environment-querying form agrees with the pure decision wherever
// the answer does not depend on who runs the process: a failed metadata
// query is NotFound, and the other-execute bit is Permitted, for every
// user and every group list.
#[test]
fn permitted_environment_independent_cases() {
    let missing = PosixQuery { stat: None };
    assert_eq!(is_permitted(&missing), Permission::NotFound);
    assert_eq!(missing.is_permitted(), Permission::NotFound);
    let st = FileStat {
        kind: FileKind::Regular,
        mode: 0o100001,
        uid: 42,
        gid: 7,
    };
    let open_to_all = PosixQuery { stat: Some(st) };
    assert_eq!(is_permitted(&open_to_all), Permission::Permitted);
}
