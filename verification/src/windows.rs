//! The Windows branch of the oracle: first a file-extension allow-list
//! read from the PATHEXT environment variable, then, when that step does
//! not apply, the binary subtype the system reports for the file.

use vstd::prelude::*;
use vstd::string::StrSliceExecFns;

use crate::IsExecutable;

verus! {

/// A path-segment separator; Windows accepts both slashes.
pub open spec fn is_sep(c: char) -> bool {
    c == '/' || c == '\\'
}

/// The code point of a character with an ASCII capital letter folded to
/// its small letter; other characters keep their own code point.
pub open spec fn folded_code(c: char) -> int {
    if 65 <= (c as u32) && (c as u32) <= 90 {
        (c as u32) + 32
    } else {
        (c as u32) as int
    }
}

/// ASCII case-insensitive equality of two characters.
pub open spec fn char_eq_nocase(a: char, b: char) -> bool {
    folded_code(a) == folded_code(b)
}

/// ASCII case-insensitive equality of two character sequences.
pub open spec fn seq_eq_nocase(a: Seq<char>, b: Seq<char>) -> bool {
    a.len() == b.len() && (forall|i: int| 0 <= i < a.len() ==> char_eq_nocase(a[i], b[i]))
}

fn fold_char(c: char) -> (r: u32)
    ensures
        r as int == folded_code(c),
{
    let code = c as u32;
    if 65 <= code && code <= 90 {
        code + 32
    } else {
        code
    }
}

/// The characters of a string slice, in order.
pub fn chars_of(s: &str) -> (r: Vec<char>)
    ensures
        r@ == s@,
{
    let n = s.unicode_len();
    let mut r: Vec<char> = Vec::new();
    let mut i: usize = 0;
    while i < n
        invariant
            n == s@.len(),
            i <= n,
            r@ == s@.take(i as int),
        decreases n - i,
    {
        let c = s.get_char(i);
        r.push(c);
        proof {
            assert(s@.take(i as int).push(s@[i as int]) =~= s@.take(i + 1));
        }
        i += 1;
    }
    proof {
        assert(s@.take(n as int) =~= s@);
    }
    r
}

/// The extension of a path: what follows the last `.` of the last path
/// segment, or `None` when that segment holds no `.` at all.
pub open spec fn ext_of(p: Seq<char>) -> Option<Seq<char>>
    decreases p.len(),
{
    if p.len() == 0 {
        None
    } else if is_sep(p.last()) {
        None
    } else if p.last() == '.' {
        Some(Seq::empty())
    } else {
        match ext_of(p.drop_last()) {
            None => None,
            Some(e) => Some(e.push(p.last())),
        }
    }
}

/// `ext_of` seen through a suffix that holds no `.` and no separator.
spec fn ext_through(prefix_ext: Option<Seq<char>>, suffix: Seq<char>) -> Option<Seq<char>> {
    match prefix_ext {
        None => None,
        Some(e) => Some(e + suffix),
    }
}

fn tail_from(p: &Vec<char>, from: usize) -> (r: Vec<char>)
    requires
        from <= p@.len(),
    ensures
        r@ == p@.skip(from as int),
{
    let mut r: Vec<char> = Vec::new();
    let mut j: usize = from;
    proof {
        assert(p@.subrange(from as int, from as int) =~= Seq::<char>::empty());
    }
    while j < p.len()
        invariant
            from <= j <= p@.len(),
            r@ == p@.subrange(from as int, j as int),
        decreases p@.len() - j,
    {
        let c = p[j];
        r.push(c);
        proof {
            assert(p@.subrange(from as int, j as int).push(p@[j as int]) =~= p@.subrange(
                from as int,
                j + 1,
            ));
        }
        j += 1;
    }
    proof {
        assert(p@.subrange(from as int, p@.len() as int) =~= p@.skip(from as int));
    }
    r
}

/// Computes [`ext_of`] on real characters.
pub fn extension_of(p: &Vec<char>) -> (r: Option<Vec<char>>)
    ensures
        r is Some <==> ext_of(p@) is Some,
        r matches Some(v) ==> ext_of(p@) == Some(v@),
{
    let mut i: usize = p.len();
    proof {
        assert(p@.take(p@.len() as int) =~= p@);
        assert(p@.skip(p@.len() as int) =~= Seq::<char>::empty());
        if let Some(e) = ext_of(p@) {
            assert(e + p@.skip(p@.len() as int) =~= e);
        }
    }
    while i > 0
        invariant
            i <= p@.len(),
            ext_of(p@) == ext_through(ext_of(p@.take(i as int)), p@.skip(i as int)),
        decreases i,
    {
        let c = p[i - 1];
        proof {
            assert(p@.take(i as int).drop_last() =~= p@.take(i - 1));
            assert(p@.take(i as int).last() == p@[i - 1]);
        }
        if c == '/' || c == '\\' {
            proof {
                assert(ext_of(p@.take(i as int)) is None);
            }
            return None;
        }
        if c == '.' {
            proof {
                assert(ext_of(p@.take(i as int)) == Some(Seq::<char>::empty()));
                assert(Seq::<char>::empty() + p@.skip(i as int) =~= p@.skip(i as int));
            }
            let suffix = tail_from(p, i);
            return Some(suffix);
        }
        proof {
            if let Some(e) = ext_of(p@.take(i - 1)) {
                assert(e.push(c) + p@.skip(i as int) =~= e + p@.skip(i - 1));
            }
        }
        i -= 1;
    }
    proof {
        assert(p@.take(0) =~= Seq::<char>::empty());
    }
    None
}

/// The views of a vector of character vectors.
pub open spec fn views_of(ts: Seq<Vec<char>>) -> Seq<Seq<char>> {
    ts.map_values(|t: Vec<char>| t@)
}

/// The tokens of a sequence split on `;`; splitting the empty sequence
/// gives one empty token, as splitting text does.
pub open spec fn split_semi(s: Seq<char>) -> Seq<Seq<char>>
    decreases s.len(),
{
    if s.len() == 0 {
        seq![Seq::<char>::empty()]
    } else if s.last() == ';' {
        split_semi(s.drop_last()).push(Seq::empty())
    } else {
        let t = split_semi(s.drop_last());
        t.update(t.len() - 1, t.last().push(s.last()))
    }
}

/// Tokens of length at most one are discarded (they cover empty tokens
/// and stray separators); the first character — the conventional leading
/// `.` — is cut from each token that remains.
pub open spec fn stripped(ts: Seq<Seq<char>>) -> Seq<Seq<char>>
    decreases ts.len(),
{
    if ts.len() == 0 {
        Seq::empty()
    } else if ts.last().len() > 1 {
        stripped(ts.drop_last()).push(ts.last().drop_first())
    } else {
        stripped(ts.drop_last())
    }
}

/// The allow-list one PATHEXT value denotes: its `;`-separated tokens,
/// short tokens discarded, the leading character cut from the rest.
pub open spec fn allow_entries(s: Seq<char>) -> Seq<Seq<char>> {
    stripped(split_semi(s))
}

/// The extension matches some entry of the allow-list `s` denotes,
/// compared ASCII case-insensitively.
pub open spec fn ext_in_list(ext: Seq<char>, s: Seq<char>) -> bool {
    exists|k: int| 0 <= k < allow_entries(s).len() && seq_eq_nocase(ext, allow_entries(s)[k])
}

fn split_on_semicolons(s: &Vec<char>) -> (r: Vec<Vec<char>>)
    ensures
        views_of(r@) == split_semi(s@),
{
    let mut done: Vec<Vec<char>> = Vec::new();
    let mut cur: Vec<char> = Vec::new();
    let mut i: usize = 0;
    proof {
        assert(s@.take(0) =~= Seq::<char>::empty());
        assert(views_of(done@).push(cur@) =~= split_semi(s@.take(0)));
    }
    while i < s.len()
        invariant
            i <= s@.len(),
            split_semi(s@.take(i as int)) == views_of(done@).push(cur@),
        decreases s@.len() - i,
    {
        let c = s[i];
        proof {
            assert(s@.take(i + 1).drop_last() =~= s@.take(i as int));
            assert(s@.take(i + 1).last() == s@[i as int]);
        }
        if c == ';' {
            let ghost prev_views = views_of(done@);
            let ghost curv = cur@;
            done.push(cur);
            cur = Vec::new();
            proof {
                assert(views_of(done@) =~= prev_views.push(curv));
                assert(split_semi(s@.take(i + 1)) =~= views_of(done@).push(cur@));
            }
        } else {
            let ghost t = split_semi(s@.take(i as int));
            cur.push(c);
            proof {
                assert(t.last() == t[t.len() - 1]);
                assert(t.update(t.len() - 1, t.last().push(c)) =~= views_of(done@).push(cur@));
            }
        }
        i += 1;
    }
    proof {
        assert(s@.take(s@.len() as int) =~= s@);
    }
    let ghost prev_views = views_of(done@);
    let ghost curv = cur@;
    done.push(cur);
    proof {
        assert(views_of(done@) =~= prev_views.push(curv));
    }
    done
}

fn strip_tokens(tokens: &Vec<Vec<char>>) -> (r: Vec<Vec<char>>)
    ensures
        views_of(r@) == stripped(views_of(tokens@)),
{
    let mut r: Vec<Vec<char>> = Vec::new();
    let mut i: usize = 0;
    proof {
        assert(views_of(tokens@).take(0) =~= Seq::<Seq<char>>::empty());
    }
    while i < tokens.len()
        invariant
            i <= tokens@.len(),
            views_of(r@) == stripped(views_of(tokens@).take(i as int)),
        decreases tokens@.len() - i,
    {
        proof {
            assert(views_of(tokens@).take(i + 1).drop_last() =~= views_of(tokens@).take(i as int));
            assert(views_of(tokens@).take(i + 1).last() == tokens@[i as int]@);
        }
        if tokens[i].len() > 1 {
            let entry = tail_from(&tokens[i], 1);
            let ghost prev_views = views_of(r@);
            proof {
                assert(entry@ =~= tokens@[i as int]@.drop_first());
            }
            r.push(entry);
            proof {
                assert(views_of(r@) =~= prev_views.push(entry@));
            }
        }
        i += 1;
    }
    proof {
        assert(views_of(tokens@).take(tokens@.len() as int) =~= views_of(tokens@));
    }
    r
}

fn eq_nocase(a: &Vec<char>, b: &Vec<char>) -> (r: bool)
    ensures
        r == seq_eq_nocase(a@, b@),
{
    if a.len() != b.len() {
        return false;
    }
    let mut i: usize = 0;
    while i < a.len()
        invariant
            a@.len() == b@.len(),
            i <= a@.len(),
            forall|k: int| 0 <= k < i ==> char_eq_nocase(a@[k], b@[k]),
        decreases a@.len() - i,
    {
        if fold_char(a[i]) != fold_char(b[i]) {
            proof {
                assert(!char_eq_nocase(a@[i as int], b@[i as int]));
            }
            return false;
        }
        i += 1;
    }
    true
}

fn matches_any(ext: &Vec<char>, entries: &Vec<Vec<char>>) -> (r: bool)
    ensures
        r == exists|k: int| 0 <= k < entries@.len() && seq_eq_nocase(ext@, entries@[k]@),
{
    let mut i: usize = 0;
    while i < entries.len()
        invariant
            i <= entries@.len(),
            forall|k: int| 0 <= k < i ==> !seq_eq_nocase(ext@, entries@[k]@),
        decreases entries@.len() - i,
    {
        if eq_nocase(ext, &entries[i]) {
            proof {
                assert(seq_eq_nocase(ext@, entries@[i as int]@));
            }
            return true;
        }
        i += 1;
    }
    false
}

/// Decides whether an extension stands in the allow-list that one PATHEXT
/// value denotes.
pub fn extension_matches(ext: &Vec<char>, pathext: &Vec<char>) -> (r: bool)
    ensures
        r == ext_in_list(ext@, pathext@),
{
    let tokens = split_on_semicolons(pathext);
    let entries = strip_tokens(&tokens);
    let m = matches_any(ext, &entries);
    proof {
        let vs = views_of(entries@);
        assert(vs == allow_entries(pathext@));
        assert(forall|k: int| 0 <= k < entries@.len() ==> vs[k] == entries@[k]@);
        if m {
            let k = choose|k: int| 0 <= k < entries@.len() && seq_eq_nocase(ext@, entries@[k]@);
            assert(seq_eq_nocase(ext@, vs[k]));
        }
        if ext_in_list(ext@, pathext@) {
            let k = choose|k: int|
                0 <= k < allow_entries(pathext@).len() && seq_eq_nocase(
                    ext@,
                    allow_entries(pathext@)[k],
                );
            assert(seq_eq_nocase(ext@, entries@[k]@));
        }
    }
    m
}

/// What the Windows branch observes for one path: the path text itself,
/// the PATHEXT environment variable when present, whether a file (not a
/// directory) exists at the path, and the binary subtype the system
/// reported for it — `None` when that query failed, returned nothing, or
/// was never made.
pub struct WindowsQuery {
    /// The queried path, as text.
    pub path: String,
    /// The extension allow-list variable, unparsed; `None` when absent.
    pub pathext: Option<String>,
    /// A file — not a directory — exists at the path.
    pub file_exists: bool,
    /// The binary subtype of the file, when the system reported one.
    pub subtype: Option<u32>,
}

/// The view of an optional string.
pub open spec fn opt_view(s: Option<String>) -> Option<Seq<char>> {
    match s {
        None => None,
        Some(x) => Some(x@),
    }
}

/// Step one of the Windows verdict, by extension against the allow-list:
/// `Some(b)` when a present, non-empty allow-list meets a path that has an
/// extension — `b` then asks that a file exist and the extension match,
/// with no appeal to the subtype — and `None` when the variable is absent
/// or empty, or the path has no extension, so that step two must decide.
pub open spec fn spec_extension_verdict(
    path: Seq<char>,
    pathext: Option<Seq<char>>,
    file_exists: bool,
) -> Option<bool> {
    match pathext {
        None => None,
        Some(s) => if s.len() == 0 {
            None
        } else {
            match ext_of(path) {
                None => None,
                Some(e) => Some(file_exists && ext_in_list(e, s)),
            }
        },
    }
}

/// The system recognizes seven executable subtypes, coded zero through
/// six: the 32-bit Windows, MS-DOS, 16-bit Windows, MS-DOS PIF, POSIX,
/// 16-bit OS/2 and 64-bit Windows applications.  A failed or empty query
/// recognizes nothing.
pub open spec fn subtype_recognized(subtype: Option<u32>) -> bool {
    match subtype {
        Some(t) => t <= 6,
        None => false,
    }
}

/// The Windows answer: the extension step where it decides, the binary
/// subtype otherwise.
pub open spec fn spec_windows_executable(q: &WindowsQuery) -> bool {
    match spec_extension_verdict(q.path@, opt_view(q.pathext), q.file_exists) {
        Some(b) => b,
        None => subtype_recognized(q.subtype),
    }
}

impl WindowsQuery {
    /// Decides by extension against the allow-list alone; `None` says the
    /// step does not apply and the binary subtype must decide.
    pub fn extension_verdict(&self) -> (r: Option<bool>)
        ensures
            r == spec_extension_verdict(self.path@, opt_view(self.pathext), self.file_exists),
    {
        match &self.pathext {
            None => None,
            Some(pe) => {
                if pe.as_str().is_empty() {
                    None
                } else {
                    let pcs = chars_of(self.path.as_str());
                    match extension_of(&pcs) {
                        None => None,
                        Some(e) => {
                            let pecs = chars_of(pe.as_str());
                            let m = extension_matches(&e, &pecs);
                            Some(self.file_exists && m)
                        },
                    }
                }
            },
        }
    }
}

/// Maps the reported binary subtype to the verdict of step two: exactly
/// the seven recognized codes pass.
pub fn subtype_is_executable(subtype: &Option<u32>) -> (r: bool)
    ensures
        r == subtype_recognized(*subtype),
{
    match subtype {
        Some(t) => *t <= 6,
        None => false,
    }
}

impl IsExecutable for WindowsQuery {
    open spec fn executable_spec(&self) -> bool {
        spec_windows_executable(self)
    }

    fn is_executable(&self) -> (r: bool) {
        match self.extension_verdict() {
            Some(b) => b,
            None => subtype_is_executable(&self.subtype),
        }
    }
}

/// Law: a path at which no inspectable file exists is never executable —
/// the extension step cannot answer `true` without a file, and the
/// subtype query has nothing to report.
pub proof fn lemma_missing_not_executable(q: WindowsQuery)
    requires
        !q.file_exists,
        q.subtype is None,
    ensures
        !q.executable_spec(),
{
}

/// Law: a present, non-empty allow-list and a path with an extension are
/// decided by the list alone — a match grants executability exactly when
/// a file exists, and a miss refuses with no fall-through to the subtype.
pub proof fn lemma_extension_decides(q: WindowsQuery, s: Seq<char>, e: Seq<char>)
    requires
        q.pathext matches Some(pe) && pe@ == s,
        s.len() > 0,
        ext_of(q.path@) == Some(e),
    ensures
        q.executable_spec() == (q.file_exists && ext_in_list(e, s)),
{
}

/// Law: with no usable allow-list, or a path without an extension, the
/// binary subtype alone decides the verdict.
pub proof fn lemma_subtype_decides(q: WindowsQuery)
    requires
        q.pathext is None || (q.pathext matches Some(pe) && pe@.len() == 0) || ext_of(q.path@)
            is None,
    ensures
        q.executable_spec() == subtype_recognized(q.subtype),
{
}

} // verus!
