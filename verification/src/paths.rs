//! Pure path-name arithmetic on strings: base name, extension, and
//! replacing the final component. The file system itself is never
//! touched here; callers pass the path as text.

use vstd::prelude::*;

verus! {

/// Index of the last occurrence of `c` in `s`, or `-1` when `s` does
/// not contain it.
pub open spec fn last_index_of(s: Seq<char>, c: char) -> int
    decreases s.len(),
{
    if s.len() == 0 {
        -1
    } else if s[s.len() - 1] == c {
        s.len() - 1
    } else {
        last_index_of(s.drop_last(), c)
    }
}

proof fn lemma_last_index_of_found(s: Seq<char>, c: char, k: int)
    requires
        0 <= k < s.len(),
        s[k] == c,
        forall|j: int| k < j < s.len() ==> s[j] != c,
    ensures
        last_index_of(s, c) == k,
    decreases s.len(),
{
    if k == s.len() - 1 {
    } else {
        assert(s.drop_last() =~= s.subrange(0, s.len() - 1));
        lemma_last_index_of_found(s.drop_last(), c, k);
    }
}

proof fn lemma_last_index_of_missing(s: Seq<char>, c: char)
    requires
        forall|j: int| 0 <= j < s.len() ==> s[j] != c,
    ensures
        last_index_of(s, c) == -1,
    decreases s.len(),
{
    if s.len() > 0 {
        lemma_last_index_of_missing(s.drop_last(), c);
    }
}

/// `last_index_of` always stays inside the string.
proof fn lemma_last_index_of_bounds(s: Seq<char>, c: char)
    ensures
        -1 <= last_index_of(s, c) < s.len(),
        last_index_of(s, c) >= 0 ==> s[last_index_of(s, c)] == c,
    decreases s.len(),
{
    if s.len() > 0 && s[s.len() - 1] != c {
        lemma_last_index_of_bounds(s.drop_last(), c);
    }
}

/// Finds the last occurrence of a character in a string.
pub fn rfind_char(s: &str, c: char) -> (r: Option<usize>)
    ensures
        match r {
            Some(k) => k == last_index_of(s@, c),
            None => last_index_of(s@, c) == -1,
        },
{
    let n = s.unicode_len();
    let mut i: usize = n;
    while i > 0
        invariant
            n == s@.len(),
            0 <= i <= n,
            forall|j: int| i <= j < n ==> s@[j] != c,
        decreases i,
    {
        i -= 1;
        if s.get_char(i) == c {
            proof {
                lemma_last_index_of_found(s@, c, i as int);
            }
            return Some(i);
        }
    }
    proof {
        lemma_last_index_of_missing(s@, c);
    }
    None
}

/// The final path component: everything after the last separator, or
/// the whole string when there is none.
pub open spec fn base_name_of(p: Seq<char>) -> Seq<char> {
    p.subrange(last_index_of(p, '/') + 1, p.len() as int)
}

/// Returns the final component of a path written as a string.
pub fn file_name_of(path: &str) -> (r: String)
    ensures
        r@ == base_name_of(path@),
{
    proof {
        lemma_last_index_of_bounds(path@, '/');
    }
    let n = path.unicode_len();
    let start: usize = match rfind_char(path, '/') {
        Some(k) => k + 1,
        None => 0,
    };
    let sub = path.substring_char(start, n);
    String::from_str(sub)
}

/// The extension of a path: the part of the final component after its
/// last dot. A component without a dot, or whose only dot leads it,
/// has no extension.
pub open spec fn extension_of(p: Seq<char>) -> Option<Seq<char>> {
    let b = base_name_of(p);
    let d = last_index_of(b, '.');
    if d <= 0 {
        None
    } else {
        Some(b.subrange(d + 1, b.len() as int))
    }
}

/// Returns the extension of a path written as a string, or `None`
/// when its final component has none.
pub fn extension(path: &str) -> (r: Option<String>)
    ensures
        match r {
            Some(e) => extension_of(path@) == Some(e@),
            None => extension_of(path@) is None,
        },
{
    let name = file_name_of(path);
    let b = name.as_str();
    proof {
        lemma_last_index_of_bounds(b@, '.');
    }
    let nb = b.unicode_len();
    match rfind_char(b, '.') {
        Some(d) if d > 0 => {
            let sub = b.substring_char(d + 1, nb);
            Some(String::from_str(sub))
        },
        _ => None,
    }
}

/// A path with its final component replaced by `name`; a path without
/// a separator becomes `name` alone.
pub open spec fn with_file_name(p: Seq<char>, name: Seq<char>) -> Seq<char> {
    let i = last_index_of(p, '/');
    if i == -1 {
        name
    } else {
        p.subrange(0, i + 1) + name
    }
}

/// The destination a file is moved to when it is renamed in place:
/// its own directory, under the new name.
pub fn rename_destination(path: &str, name: &str) -> (r: String)
    ensures
        r@ == with_file_name(path@, name@),
{
    proof {
        lemma_last_index_of_bounds(path@, '/');
    }
    let n = path.unicode_len();
    match rfind_char(path, '/') {
        Some(i) => {
            let prefix = path.substring_char(0, i + 1);
            let mut out = String::from_str(prefix);
            out.append(name);
            out
        },
        None => String::from_str(name),
    }
}

} // verus!
