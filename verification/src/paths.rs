//! A plain-string model of filesystem paths.
//!
//! The library treats a path as a `/`-separated string of characters.  The
//! functions here carve out the pieces the pipeline needs: the file name
//! (after the last separator), the parent (before the last separator), the
//! stem and the extension of the file name (split at its last dot, where a
//! dot in the first position starts a hidden name rather than an extension).

use vstd::prelude::*;
use vstd::string::StrSliceExecFns;
use vstd::string::StringExecFns;

verus! {

/// Index of the last occurrence of `c` in `s`, or `-1` if `c` does not
/// occur.
pub open spec fn last_index_of(s: Seq<char>, c: char) -> int
    decreases s.len(),
{
    if s.len() == 0 {
        -1
    } else if s[s.len() - 1] == c {
        s.len() - 1
    } else {
        last_index_of(s.drop_last(), c)
    }
}

/// `last_index_of` finds an occurrence, and nothing occurs after it.
pub proof fn lemma_last_index_of_props(s: Seq<char>, c: char)
    ensures
        -1 <= last_index_of(s, c) < s.len(),
        last_index_of(s, c) >= 0 ==> s[last_index_of(s, c)] == c,
        forall|j: int| last_index_of(s, c) < j < s.len() ==> s[j] != c,
    decreases s.len(),
{
    if s.len() > 0 && s[s.len() - 1] != c {
        lemma_last_index_of_props(s.drop_last(), c);
        assert forall|j: int| last_index_of(s, c) < j < s.len() implies s[j] != c by {
            if j < s.len() - 1 {
                assert(s.drop_last()[j] == s[j]);
            }
        }
    }
}

/// A found position after which `c` no longer occurs is the last index.
pub proof fn lemma_last_index_of_found(s: Seq<char>, c: char, i: int)
    requires
        0 <= i < s.len(),
        s[i] == c,
        forall|j: int| i < j < s.len() ==> s[j] != c,
    ensures
        last_index_of(s, c) == i,
    decreases s.len(),
{
    if i < s.len() - 1 {
        lemma_last_index_of_found(s.drop_last(), c, i);
    }
}

/// If `c` occurs nowhere in `s`, the last index is `-1`.
pub proof fn lemma_last_index_of_none(s: Seq<char>, c: char)
    requires
        forall|j: int| 0 <= j < s.len() ==> s[j] != c,
    ensures
        last_index_of(s, c) == -1,
    decreases s.len(),
{
    if s.len() > 0 {
        lemma_last_index_of_none(s.drop_last(), c);
    }
}

/// Position of the last occurrence of `c` in `s`, scanned from the end.
pub fn rfind_char(s: &str, c: char) -> (r: Option<usize>)
    ensures
        match r {
            Some(i) => i < s@.len() && last_index_of(s@, c) == i as int,
            None => last_index_of(s@, c) == -1,
        },
{
    let n = s.unicode_len();
    let mut i = n;
    while i > 0
        invariant
            i <= n,
            n == s@.len(),
            forall|j: int| i <= j < n ==> s@[j] != c,
        decreases i,
    {
        i = i - 1;
        if s.get_char(i) == c {
            proof {
                lemma_last_index_of_found(s@, c, i as int);
            }
            return Some(i);
        }
    }
    proof {
        lemma_last_index_of_none(s@, c);
    }
    None
}

/// The part of a path after its last `/`; the whole path if it has none.
pub open spec fn spec_file_name(s: Seq<char>) -> Seq<char> {
    s.subrange(last_index_of(s, '/') + 1, s.len() as int)
}

/// The part of a path before its last `/`; a path without `/` has no
/// parent in this model.
pub open spec fn spec_parent(s: Seq<char>) -> Option<Seq<char>> {
    let i = last_index_of(s, '/');
    if i < 0 {
        None
    } else {
        Some(s.subrange(0, i))
    }
}

/// The stem of a file name: everything before its last dot, unless the
/// dot is missing or in the first position, in which case the whole name.
pub open spec fn spec_stem_of_name(name: Seq<char>) -> Seq<char> {
    let j = last_index_of(name, '.');
    if j <= 0 {
        name
    } else {
        name.subrange(0, j)
    }
}

/// The stem of the file name of a path.
pub open spec fn spec_file_stem(s: Seq<char>) -> Seq<char> {
    spec_stem_of_name(spec_file_name(s))
}

/// The extension of the file name of a path: everything after the last dot
/// of the file name, unless the dot is missing or in the first position.
pub open spec fn spec_extension(s: Seq<char>) -> Option<Seq<char>> {
    let name = spec_file_name(s);
    let j = last_index_of(name, '.');
    if j <= 0 {
        None
    } else {
        Some(name.subrange(j + 1, name.len() as int))
    }
}

/// A path joined to a child name with one separator.
pub open spec fn spec_join(base: Seq<char>, name: Seq<char>) -> Seq<char> {
    base + seq!['/'] + name
}

/// The file name of `path`: the part after the last `/`.
pub fn file_name<'a>(path: &'a str) -> (r: &'a str)
    ensures
        r@ == spec_file_name(path@),
{
    proof {
        lemma_last_index_of_props(path@, '/');
    }
    let n = path.unicode_len();
    match rfind_char(path, '/') {
        Some(i) => path.substring_char(i + 1, n),
        None => {
            proof {
                assert(path@ =~= spec_file_name(path@));
            }
            path
        },
    }
}

/// The parent of `path`: the part before the last `/`, if any.
pub fn parent<'a>(path: &'a str) -> (r: Option<&'a str>)
    ensures
        match r {
            Some(p) => spec_parent(path@) == Some(p@),
            None => spec_parent(path@) is None,
        },
{
    proof {
        lemma_last_index_of_props(path@, '/');
    }
    match rfind_char(path, '/') {
        Some(i) => Some(path.substring_char(0, i)),
        None => None,
    }
}

/// The stem of the file name of `path`.
pub fn file_stem<'a>(path: &'a str) -> (r: &'a str)
    ensures
        r@ == spec_file_stem(path@),
{
    let name = file_name(path);
    proof {
        lemma_last_index_of_props(name@, '.');
    }
    match rfind_char(name, '.') {
        Some(j) => {
            if j > 0 {
                name.substring_char(0, j)
            } else {
                name
            }
        },
        None => name,
    }
}

/// The extension of the file name of `path`, if it has one.
pub fn extension_of<'a>(path: &'a str) -> (r: Option<&'a str>)
    ensures
        match r {
            Some(e) => spec_extension(path@) == Some(e@),
            None => spec_extension(path@) is None,
        },
{
    let name = file_name(path);
    let n = name.unicode_len();
    proof {
        lemma_last_index_of_props(name@, '.');
    }
    match rfind_char(name, '.') {
        Some(j) => {
            if j > 0 {
                Some(name.substring_char(j + 1, n))
            } else {
                None
            }
        },
        None => None,
    }
}

/// Character-wise equality of two string slices.
pub fn str_eq(a: &str, b: &str) -> (r: bool)
    ensures
        r == (a@ == b@),
{
    let na = a.unicode_len();
    let nb = b.unicode_len();
    if na != nb {
        return false;
    }
    let mut i: usize = 0;
    while i < na
        invariant
            i <= na,
            na == a@.len(),
            na == b@.len(),
            forall|j: int| 0 <= j < i ==> a@[j] == b@[j],
        decreases na - i,
    {
        if a.get_char(i) != b.get_char(i) {
            return false;
        }
        i = i + 1;
    }
    proof {
        assert(a@ =~= b@);
    }
    true
}

/// `base`, a separator, and `name`, as one string.
pub fn join_path(base: &str, name: &str) -> (r: String)
    ensures
        r@ == spec_join(base@, name@),
{
    let r = String::from_str(base).concat("/").concat(name);
    proof {
        reveal_strlit("/");
        assert(r@ =~= spec_join(base@, name@));
    }
    r
}

/// `s` with `suffix` appended.
pub fn concat_str(s: &str, suffix: &str) -> (r: String)
    ensures
        r@ == s@ + suffix@,
{
    String::from_str(s).concat(suffix)
}

} // verus!
