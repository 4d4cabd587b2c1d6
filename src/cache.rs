//! Finding the cached source tree of a dependency by name and version.
use vstd::prelude::*;

verus! {

/// The piece of text that names the registry's directory inside the cache.
pub const REGISTRY_ID: &'static str = "index.crates.io-";

/// `pat` occurs in `s` starting at position `i`.
pub open spec fn occurs_at(s: Seq<char>, pat: Seq<char>, i: int) -> bool {
    0 <= i && i + pat.len() <= s.len() && s.subrange(i, i + pat.len()) == pat
}

/// `pat` occurs somewhere in `s`.
pub open spec fn contains_text(s: Seq<char>, pat: Seq<char>) -> bool {
    exists|i: int| occurs_at(s, pat, i)
}

/// `dir` names a registry directory.
pub open spec fn is_registry_dir(dir: Seq<char>) -> bool {
    contains_text(dir, REGISTRY_ID@)
}

/// Index of the first registry directory in `dirs`, if there is one.
pub open spec fn first_registry_dir(dirs: Seq<Seq<char>>) -> Option<int>
    decreases dirs.len(),
{
    if dirs.len() == 0 {
        None
    } else if is_registry_dir(dirs[0]) {
        Some(0)
    } else {
        match first_registry_dir(dirs.drop_first()) {
            Some(i) => Some(i + 1),
            None => None,
        }
    }
}

/// `base` followed by the path component `part`, with one `/` between them.
pub open spec fn joined(base: Seq<char>, part: Seq<char>) -> Seq<char> {
    if base.len() == 0 || base.last() == '/' {
        base + part
    } else {
        base + seq!['/'] + part
    }
}

/// The directory name under which the cache keeps a package's sources.
pub open spec fn package_dir_name(name: Seq<char>, version: Seq<char>) -> Seq<char> {
    name + seq!['-'] + version
}

/// Where the sources of `name` at `version` would be, given the names of the
/// cache root's subdirectories.
pub open spec fn candidate(
    root: Seq<char>,
    dirs: Seq<Seq<char>>,
    name: Seq<char>,
    version: Seq<char>,
) -> Option<Seq<char>> {
    match first_registry_dir(dirs) {
        Some(i) => Some(joined(joined(root, dirs[i]), package_dir_name(name, version))),
        None => None,
    }
}

/// The names in `v`, as text.
pub open spec fn names_of(v: Seq<String>) -> Seq<Seq<char>> {
    v.map_values(|s: String| s@)
}

proof fn lemma_first_registry_dir_bounds(dirs: Seq<Seq<char>>)
    ensures
        match first_registry_dir(dirs) {
            Some(i) => 0 <= i < dirs.len() && is_registry_dir(dirs[i]) && forall|j: int|
                0 <= j < i ==> !is_registry_dir(#[trigger] dirs[j]),
            None => forall|j: int| 0 <= j < dirs.len() ==> !is_registry_dir(#[trigger] dirs[j]),
        },
    decreases dirs.len(),
{
    if dirs.len() > 0 {
        lemma_first_registry_dir_bounds(dirs.drop_first());
        assert forall|j: int| 1 <= j < dirs.len() implies dirs[j] == dirs.drop_first()[j - 1] by {}
    }
}

/// Whether `pat` occurs in `s` at position `i`.
fn occurs_here(s: &str, pat: &str, i: usize) -> (r: bool)
    requires
        i + pat@.len() <= s@.len(),
        s@.len() <= usize::MAX,
    ensures
        r == occurs_at(s@, pat@, i as int),
{
    let n = pat.unicode_len();
    let mut k: usize = 0;
    while k < n
        invariant
            n == pat@.len(),
            i + n <= s@.len(),
            s@.len() <= usize::MAX,
            k <= n,
            forall|j: int| 0 <= j < k ==> s@[i + j] == pat@[j],
        decreases n - k,
    {
        if s.get_char(i + k) != pat.get_char(k) {
            assert(s@.subrange(i as int, i + n)[k as int] != pat@[k as int]);
            return false;
        }
        k = k + 1;
    }
    assert(s@.subrange(i as int, i + n) =~= pat@);
    true
}

/// Whether `pat` occurs anywhere in `s`.
pub fn contains(s: &str, pat: &str) -> (r: bool)
    ensures
        r == contains_text(s@, pat@),
{
    let n = s.unicode_len();
    let m = pat.unicode_len();
    if m > n {
        assert forall|i: int| !occurs_at(s@, pat@, i) by {}
        return false;
    }
    let mut i: usize = 0;
    while i < n - m
        invariant
            n == s@.len(),
            m == pat@.len(),
            m <= n,
            i <= n - m,
            forall|j: int| 0 <= j < i ==> !occurs_at(s@, pat@, j),
        decreases n - m - i,
    {
        if occurs_here(s, pat, i) {
            return true;
        }
        i = i + 1;
    }
    if occurs_here(s, pat, i) {
        return true;
    }
    assert forall|j: int| !occurs_at(s@, pat@, j) by {
        if 0 <= j <= i {
        }
    }
    false
}

/// Joins the path component `part` onto `base`.
pub fn join_path(base: &str, part: &str) -> (r: String)
    ensures
        r@ == joined(base@, part@),
{
    let n = base.unicode_len();
    let mut r = String::from_str(base);
    if n > 0 && base.get_char(n - 1) != '/' {
        r.append("/");
    }
    r.append(part);
    proof {
        reveal_strlit("/");
    }
    r
}

/// The name of the cache directory holding `name` at `version`: `name-version`.
pub fn dep_dir_name(name: &str, version: &str) -> (r: String)
    ensures
        r@ == package_dir_name(name@, version@),
{
    let mut r = String::from_str(name);
    r.append("-");
    r.append(version);
    proof {
        reveal_strlit("-");
    }
    r
}

/// Index of the first directory name that names a registry directory.
pub fn find_registry_dir(dirs: &Vec<String>) -> (r: Option<usize>)
    ensures
        match r {
            Some(i) => first_registry_dir(names_of(dirs@)) == Some(i as int),
            None => first_registry_dir(names_of(dirs@)) is None,
        },
{
    let ghost names = names_of(dirs@);
    proof {
        lemma_first_registry_dir_bounds(names);
    }
    let mut i: usize = 0;
    while i < dirs.len()
        invariant
            names == names_of(dirs@),
            names.len() == dirs@.len(),
            i <= dirs.len(),
            forall|j: int| 0 <= j < i ==> !is_registry_dir(#[trigger] names[j]),
            match first_registry_dir(names) {
                Some(k) => 0 <= k < names.len() && is_registry_dir(names[k]) && forall|j: int|
                    0 <= j < k ==> !is_registry_dir(#[trigger] names[j]),
                None => forall|j: int| 0 <= j < names.len() ==> !is_registry_dir(#[trigger] names[j]),
            },
        decreases dirs.len() - i,
    {
        if contains(dirs[i].as_str(), REGISTRY_ID) {
            assert(is_registry_dir(names[i as int]));
            return Some(i);
        }
        i = i + 1;
    }
    None
}

/// Where the sources of `name` at `version` would be: in the first registry
/// directory among `dirs`, the subdirectories of the cache root `root`.
/// `None` when no registry directory is there.
pub fn candidate_path(root: &str, dirs: &Vec<String>, name: &str, version: &str) -> (r: Option<
    String,
>)
    ensures
        match r {
            Some(p) => candidate(root@, names_of(dirs@), name@, version@) == Some(p@),
            None => candidate(root@, names_of(dirs@), name@, version@) is None,
        },
{
    proof {
        lemma_first_registry_dir_bounds(names_of(dirs@));
    }
    match find_registry_dir(dirs) {
        Some(i) => {
            let registry = join_path(root, dirs[i].as_str());
            let dir = dep_dir_name(name, version);
            Some(join_path(registry.as_str(), dir.as_str()))
        },
        None => None,
    }
}

/// The cached source directory of `name` at `version`, where `present` tells
/// whether the candidate path exists on disk.
pub open spec fn located(
    root: Seq<char>,
    dirs: Seq<Seq<char>>,
    name: Seq<char>,
    version: Seq<char>,
    present: bool,
) -> Option<Seq<char>> {
    if present {
        candidate(root, dirs, name, version)
    } else {
        None
    }
}

/// Locates the cached sources of `name` at `version`: the candidate path of
/// `candidate_path`, kept only when `present` says that it exists.
pub fn locate(root: &str, dirs: &Vec<String>, name: &str, version: &str, present: bool) -> (r:
    Option<String>)
    ensures
        match r {
            Some(p) => located(root@, names_of(dirs@), name@, version@, present) == Some(p@),
            None => located(root@, names_of(dirs@), name@, version@, present) is None,
        },
{
    if present {
        candidate_path(root, dirs, name, version)
    } else {
        None
    }
}

/// The locator finds nothing when no subdirectory of the cache root names a
/// registry, nor when the candidate path is not on disk.
pub proof fn lemma_locate_none(
    root: Seq<char>,
    dirs: Seq<Seq<char>>,
    name: Seq<char>,
    version: Seq<char>,
    present: bool,
)
    requires
        (forall|j: int| 0 <= j < dirs.len() ==> !is_registry_dir(#[trigger] dirs[j])) || !present,
    ensures
        located(root, dirs, name, version, present) is None,
{
    lemma_first_registry_dir_bounds(dirs);
}

} // verus!
