//! Paths as strings, and the base directories that entries are linked into.

use crate::linker::LinkerError;
use crate::text::{starts_with_char, str_eq, str_starts_with_char};
use vstd::prelude::*;

verus! {

/// `rel` appended to `base` the way a Unix `PathBuf::push` does: an absolute
/// `rel` replaces `base`; otherwise a `/` is put between them unless `base` is
/// empty or already ends in one.
pub open spec fn path_join(base: Seq<char>, rel: Seq<char>) -> Seq<char> {
    if starts_with_char(rel, '/') {
        rel
    } else if base.len() == 0 || base.last() == '/' {
        base + rel
    } else {
        base + seq!['/'] + rel
    }
}

/// Joins `rel` onto `base`.
pub fn join_path(base: &str, rel: &str) -> (r: String)
    ensures
        r@ == path_join(base@, rel@),
{
    if str_starts_with_char(rel, '/') {
        return rel.to_owned();
    }
    let mut out = base.to_owned();
    let n = base.unicode_len();
    if n > 0 && base.get_char(n - 1) != '/' {
        out.append("/");
        proof {
            reveal_strlit("/");
        }
    }
    out.append(rel);
    out
}

/// `p` as an absolute path, taken against the directory `cwd`: an absolute `p`
/// is kept, a relative one is joined onto `cwd`.
pub open spec fn absolute_in(p: Seq<char>, cwd: Seq<char>) -> Seq<char> {
    if starts_with_char(p, '/') {
        p
    } else {
        path_join(cwd, p)
    }
}

/// Whether `Path::new(a) == Path::new(b)`.
pub uninterp spec fn same_path(a: Seq<char>, b: Seq<char>) -> bool;

/// `==` on `std::path::Path`, which compares two paths component by component
/// (so `a//b`, `a/./b` and `a/b/` are all the path `a/b`). Claimed: the result
/// is `same_path(a, b)`, and equal strings are the same path.
#[verifier::external_body]
pub fn paths_equal(a: &str, b: &str) -> (r: bool)
    ensures
        r == same_path(a@, b@),
        a@ == b@ ==> r,
{
    std::path::Path::new(a) == std::path::Path::new(b)
}

/// What `Path::parent` returns for `p`.
pub uninterp spec fn parent_of(p: Seq<char>) -> Option<Seq<char>>;

/// What `Path::file_name` returns for `p`.
pub uninterp spec fn file_name_of(p: Seq<char>) -> Option<Seq<char>>;

/// What `pathdiff::diff_paths(path, base)` returns.
pub uninterp spec fn relative_path_of(path: Seq<char>, base: Seq<char>) -> Option<Seq<char>>;

/// `std::path::Path::parent`: the path without its final component. Claimed: the
/// result is `parent_of(p)`, and the empty path has no parent (as documented).
#[verifier::external_body]
pub fn path_parent(p: &str) -> (r: Option<String>)
    ensures
        match r {
            Some(s) => parent_of(p@) == Some(s@),
            None => parent_of(p@) is None,
        },
        p@.len() == 0 ==> r is None,
{
    std::path::Path::new(p).parent().map(|q| q.to_string_lossy().into_owned())
}

/// `std::path::Path::file_name`: the final component of the path. Claimed: the
/// result is `file_name_of(p)`, and the empty path has none.
#[verifier::external_body]
pub fn path_file_name(p: &str) -> (r: Option<String>)
    ensures
        match r {
            Some(s) => file_name_of(p@) == Some(s@),
            None => file_name_of(p@) is None,
        },
        p@.len() == 0 ==> r is None,
{
    std::path::Path::new(p).file_name().map(|q| q.to_string_lossy().into_owned())
}

/// Whether `p` holds `..` anywhere (in particular, as a component).
pub open spec fn has_dot_dot(p: Seq<char>) -> bool {
    exists|i: int| 0 <= i && i + 1 < p.len() && p[i] == '.' && #[trigger] p[i + 1] == '.'
}

/// `pathdiff::diff_paths(path, base)`: `path` relative to the directory `base`.
/// Claimed: the result is `relative_path_of(path, base)`, a function of the two
/// paths alone; and, as the crate's source shows for Unix paths (absolute when
/// they start with `/`): an absolute `path` against a relative `base` is given
/// back as it is, a relative `path` against an absolute `base` has no result,
/// and two paths of the same kind always have one when `base` holds no `..`
/// (the only component that makes it give up).
#[verifier::external_body]
pub fn relative_path(path: &str, base: &str) -> (r: Option<String>)
    ensures
        match r {
            Some(s) => relative_path_of(path@, base@) == Some(s@),
            None => relative_path_of(path@, base@) is None,
        },
        starts_with_char(path@, '/') && !starts_with_char(base@, '/') ==> r is Some && r->Some_0@ == path@,
        !starts_with_char(path@, '/') && starts_with_char(base@, '/') ==> r is None,
        starts_with_char(path@, '/') == starts_with_char(base@, '/') && !has_dot_dot(base@) ==> r is Some,
{
    pathdiff::diff_paths(path, base).map(|q| q.to_string_lossy().into_owned())
}

/// `dirs::home_dir`: the user's home directory, read from the environment.
/// Nothing is claimed of the result, which depends on the machine.
#[verifier::external_body]
fn home_dir() -> (r: Option<String>) {
    dirs::home_dir().map(|p| p.to_string_lossy().into_owned())
}

/// The base directories of a home directory, in this order: `home`, `cache_home`,
/// `config_home`, `data_home`, `local_bin`, `local_dir`.
pub open spec fn base_dir_entries(home: Seq<char>) -> Seq<(Seq<char>, Seq<char>)> {
    seq![
        ("home"@, home),
        ("cache_home"@, path_join(home, ".cache"@)),
        ("config_home"@, path_join(home, ".config"@)),
        ("data_home"@, path_join(home, ".local/share"@)),
        ("local_bin"@, path_join(home, ".local/bin"@)),
        ("local_dir"@, path_join(home, ".local"@)),
    ]
}

/// The directory that a base directory key stands for, under `home`.
pub open spec fn base_dir_for(home: Seq<char>, key: Seq<char>) -> Option<Seq<char>> {
    if key == "home"@ {
        Some(home)
    } else if key == "cache_home"@ {
        Some(path_join(home, ".cache"@))
    } else if key == "config_home"@ {
        Some(path_join(home, ".config"@))
    } else if key == "data_home"@ {
        Some(path_join(home, ".local/share"@))
    } else if key == "local_bin"@ {
        Some(path_join(home, ".local/bin"@))
    } else if key == "local_dir"@ {
        Some(path_join(home, ".local"@))
    } else {
        None
    }
}

/// The value of the first pair whose key is `key`.
pub open spec fn pairs_get(pairs: Seq<(Seq<char>, Seq<char>)>, key: Seq<char>) -> Option<Seq<char>>
    decreases pairs.len(),
{
    if pairs.len() == 0 {
        None
    } else if pairs[0].0 == key {
        Some(pairs[0].1)
    } else {
        pairs_get(pairs.skip(1), key)
    }
}

/// The six base directory keys are distinct, so looking one up in the table
/// of a home directory gives the directory it stands for.
pub proof fn lemma_base_dir_entries_get(home: Seq<char>, key: Seq<char>)
    ensures
        pairs_get(base_dir_entries(home), key) == base_dir_for(home, key),
{
    reveal_strlit("home");
    reveal_strlit("cache_home");
    reveal_strlit("config_home");
    reveal_strlit("data_home");
    reveal_strlit("local_bin");
    reveal_strlit("local_dir");
    let e = base_dir_entries(home);
    assert(e.skip(1).skip(1).skip(1).skip(1).skip(1).skip(1).len() == 0);
    reveal_with_fuel(pairs_get, 7);
}

/// No key occurs twice among the pairs.
pub open spec fn distinct_keys(pairs: Seq<(Seq<char>, Seq<char>)>) -> bool {
    forall|i: int, j: int| 0 <= i < j < pairs.len() ==> pairs[i].0 != pairs[j].0
}

/// The six base directory keys are distinct.
pub proof fn lemma_base_dir_keys_distinct(home: Seq<char>)
    ensures
        distinct_keys(base_dir_entries(home)),
{
    reveal_strlit("home");
    reveal_strlit("cache_home");
    reveal_strlit("config_home");
    reveal_strlit("data_home");
    reveal_strlit("local_bin");
    reveal_strlit("local_dir");
    let e = base_dir_entries(home);
    assert forall|i: int, j: int| 0 <= i < j < e.len() implies e[i].0 != e[j].0 by {
        if e[i].0 == e[j].0 {
            assert(e[i].0.len() == e[j].0.len());
            assert(e[i].0[0] == e[j].0[0]);
            assert(e[i].0[e[i].0.len() - 1] == e[j].0[e[j].0.len() - 1]);
            assert(e[i].0[e[i].0.len() - 2] == e[j].0[e[j].0.len() - 2]);
        }
    }
}

/// Base directory mappings for dotfile locations: each key names one directory.
pub struct BaseDirs {
    mappings: Vec<(String, String)>,
}

impl BaseDirs {
    /// The (key, directory) pairs, in order.
    pub closed spec fn view(&self) -> Seq<(Seq<char>, Seq<char>)> {
        Seq::new(self.mappings@.len(), |i: int| (self.mappings@[i].0@, self.mappings@[i].1@))
    }

    /// No key occurs twice.
    #[verifier::type_invariant]
    spec fn well_formed(&self) -> bool {
        distinct_keys(self@)
    }

    /// The mappings of the home directory `home`.
    pub fn from_home(home: &str) -> (r: BaseDirs)
        ensures
            r@ == base_dir_entries(home@),
            distinct_keys(r@),
    {
        let mut mappings: Vec<(String, String)> = Vec::new();
        mappings.push(("home".to_owned(), home.to_owned()));
        mappings.push(("cache_home".to_owned(), join_path(home, ".cache")));
        mappings.push(("config_home".to_owned(), join_path(home, ".config")));
        mappings.push(("data_home".to_owned(), join_path(home, ".local/share")));
        mappings.push(("local_bin".to_owned(), join_path(home, ".local/bin")));
        mappings.push(("local_dir".to_owned(), join_path(home, ".local")));
        proof {
            lemma_base_dir_keys_distinct(home@);
            assert(Seq::new(mappings@.len(), |i: int| (mappings@[i].0@, mappings@[i].1@)) =~= base_dir_entries(home@));
        }
        let r = BaseDirs { mappings };
        r
    }

    /// The mappings of the current user's home directory; an error when it cannot
    /// be determined.
    pub fn new() -> (r: Result<BaseDirs, LinkerError>)
        ensures
            match r {
                Ok(b) => distinct_keys(b@) && exists|home: Seq<char>| b@ == base_dir_entries(home),
                Err(e) => e is NoHomeDirectory,
            },
    {
        match home_dir() {
            Some(home) => Ok(Self::from_home(home.as_str())),
            None => Err(LinkerError::NoHomeDirectory),
        }
    }

    /// The directory for a base directory key.
    pub fn get(&self, key: &str) -> (r: Option<String>)
        ensures
            distinct_keys(self@),
            match r {
                Some(s) => pairs_get(self@, key@) == Some(s@),
                None => pairs_get(self@, key@) is None,
            },
    {
        proof {
            use_type_invariant(self);
        }
        let ghost v = self@;
        assert(v.skip(0) =~= v);
        let mut i: usize = 0;
        while i < self.mappings.len()
            invariant
                v == self@,
                distinct_keys(v),
                v.len() == self.mappings@.len(),
                i <= v.len(),
                pairs_get(v, key@) == pairs_get(v.skip(i as int), key@),
            decreases v.len() - i,
        {
            assert(v.skip(i as int)[0] == v[i as int]);
            if str_eq(self.mappings[i].0.as_str(), key) {
                return Some(self.mappings[i].1.clone());
            }
            assert(v.skip(i as int).skip(1) =~= v.skip(i + 1));
            i = i + 1;
        }
        None
    }

    /// All base directory keys, in order.
    pub fn keys(&self) -> (r: Vec<String>)
        ensures
            distinct_keys(self@),
            r@.len() == self@.len(),
            forall|i: int| 0 <= i < r@.len() ==> r@[i]@ == self@[i].0,
    {
        proof {
            use_type_invariant(self);
        }
        let mut out: Vec<String> = Vec::new();
        let mut i: usize = 0;
        while i < self.mappings.len()
            invariant
                out@.len() == i,
                i <= self.mappings@.len(),
                self@.len() == self.mappings@.len(),
                forall|j: int| 0 <= j < i ==> out@[j]@ == self@[j].0,
            decreases self.mappings@.len() - i,
        {
            out.push(self.mappings[i].0.clone());
            i = i + 1;
        }
        out
    }
}

} // verus!
