//! File names and extensions of paths, read off the text of a path alone.
//!
//! A path here is the text that names a file, with `/` between its parts, as
//! the file system reports it for a file that exists. Nothing is looked up on
//! disk.

use vstd::prelude::*;
use vstd::string::*;

verus! {

/// Position of the last `c` in `s`, or -1 where `s` holds none.
pub open spec fn last_index_of(s: Seq<char>, c: char) -> int
    decreases s.len(),
{
    if s.len() == 0 {
        -1
    } else if s.last() == c {
        s.len() - 1
    } else {
        last_index_of(s.drop_last(), c)
    }
}

/// The part of a path behind its last `/`; the whole path where it has none.
pub open spec fn file_name_of(path: Seq<char>) -> Seq<char> {
    path.subrange(last_index_of(path, '/') + 1, path.len() as int)
}

/// The part of a file's name behind its last `.`. A name without a `.`, a
/// name whose only `.` stands in front, and the name `..` have no extension.
pub open spec fn extension_of(path: Seq<char>) -> Option<Seq<char>> {
    let name = file_name_of(path);
    let dot = last_index_of(name, '.');
    if dot <= 0 || name == seq!['.', '.'] {
        None
    } else {
        Some(name.subrange(dot + 1, name.len() as int))
    }
}

/// `last_index_of` is the one position that holds `c` and has no `c` behind it.
pub proof fn lemma_last_index_of(s: Seq<char>, c: char, i: int)
    requires
        -1 <= i < s.len(),
        i >= 0 ==> s[i] == c,
        forall|j: int| i < j < s.len() ==> s[j] != c,
    ensures
        last_index_of(s, c) == i,
    decreases s.len(),
{
    if s.len() > 0 && s.last() != c {
        lemma_last_index_of(s.drop_last(), c, i);
    }
}

/// Whether two texts hold the same characters.
pub fn same_text(a: &str, b: &str) -> (same: bool)
    ensures
        same == (a@ == b@),
{
    a.to_owned() == b.to_owned()
}

/// Position of the last `c` in `s`.
pub fn rfind_char(s: &str, c: char) -> (found: Option<usize>)
    ensures
        match found {
            Some(i) => last_index_of(s@, c) == i && i < s@.len() && s@[i as int] == c,
            None => last_index_of(s@, c) == -1,
        },
{
    let n = s.unicode_len();
    let mut i: usize = n;
    while i > 0
        invariant
            i <= n,
            n == s@.len(),
            forall|j: int| i <= j < n ==> s@[j] != c,
        decreases i,
    {
        if s.get_char(i - 1) == c {
            proof {
                lemma_last_index_of(s@, c, i - 1);
            }
            return Some(i - 1);
        }
        i -= 1;
    }
    proof {
        lemma_last_index_of(s@, c, -1);
    }
    None
}

/// The name of the file that `path` leads to.
pub fn file_name(path: &str) -> (name: &str)
    ensures
        name@ == file_name_of(path@),
{
    let n = path.unicode_len();
    match rfind_char(path, '/') {
        Some(slash) => path.substring_char(slash + 1, n),
        None => path.substring_char(0, n),
    }
}

/// The extension of the file that `path` leads to, if its name has one.
pub fn extension(path: &str) -> (ext: Option<&str>)
    ensures
        match ext {
            Some(e) => extension_of(path@) == Some(e@),
            None => extension_of(path@).is_none(),
        },
{
    let name = file_name(path);
    let n = name.unicode_len();
    match rfind_char(name, '.') {
        Some(dot) => {
            if dot == 0 {
                None
            } else if n == 2 && name.get_char(0) == '.' {
                assert(name@ =~= seq!['.', '.']);
                None
            } else {
                assert(name@ != seq!['.', '.']) by {
                    if name@ == seq!['.', '.'] {
                        assert(name@.len() == 2);
                        assert(name@[0] == '.');
                    }
                }
                Some(name.substring_char(dot + 1, n))
            }
        },
        None => None,
    }
}

/// Whether the file that `path` leads to has the extension `wanted`.
pub fn has_extension(path: &str, wanted: &str) -> (has: bool)
    ensures
        has == (extension_of(path@) == Some(wanted@)),
{
    match extension(path) {
        Some(ext) => same_text(ext, wanted),
        None => false,
    }
}

} // verus!
