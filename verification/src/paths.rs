//! A textual model of candidate paths: the filename is what follows the
//! last separator, and the extension is what follows the last dot of
//! the filename, absent when the dot is missing or leads the name.

use vstd::prelude::*;
use vstd::string::StrSliceExecFns;

verus! {

/// The index of the last occurrence of `c` in `s`, or -1 when absent.
pub open spec fn last_index_of_char(s: Seq<char>, c: char) -> int
    decreases s.len(),
{
    if s.len() == 0 {
        -1
    } else if s.last() == c {
        s.len() - 1
    } else {
        last_index_of_char(s.drop_last(), c)
    }
}

/// `last_index_of_char` stays in range and, when it points somewhere,
/// points at an occurrence.
pub proof fn lemma_last_index_of_char_bounds(s: Seq<char>, c: char)
    ensures
        -1 <= last_index_of_char(s, c) < s.len(),
        last_index_of_char(s, c) >= 0 ==> s[last_index_of_char(s, c)] == c,
    decreases s.len(),
{
    if s.len() > 0 && s.last() != c {
        lemma_last_index_of_char_bounds(s.drop_last(), c);
    }
}

/// A backwards scan that saw no occurrence after `i`, and one at `i`
/// (or none at all), pins down `last_index_of_char`.
proof fn lemma_last_index_of_char_scan(s: Seq<char>, c: char, i: int)
    requires
        -1 <= i < s.len(),
        i >= 0 ==> s[i] == c,
        forall|j: int| i < j < s.len() ==> s[j] != c,
    ensures
        last_index_of_char(s, c) == i,
    decreases s.len(),
{
    if s.len() > 0 {
        if s.last() == c {
            assert(i == s.len() - 1);
        } else {
            assert(i < s.len() - 1);
            lemma_last_index_of_char_scan(s.drop_last(), c, i);
        }
    }
}

/// The filename of a path: everything after the last `/`, or the whole
/// path when it has no separator.
pub open spec fn spec_file_name(path: Seq<char>) -> Seq<char> {
    path.subrange(last_index_of_char(path, '/') + 1, path.len() as int)
}

/// The extension of a path: what follows the last dot of its filename;
/// absent when the filename has no dot or only its leading character
/// is one.
pub open spec fn spec_extension(path: Seq<char>) -> Option<Seq<char>> {
    let name = spec_file_name(path);
    let d = last_index_of_char(name, '.');
    if d <= 0 {
        None
    } else {
        Some(name.subrange(d + 1, name.len() as int))
    }
}

/// The index of the last occurrence of `c` in `s`, scanning backwards.
fn rfind_char(s: &str, c: char) -> (r: Option<usize>)
    ensures
        (match r {
            Some(i) => last_index_of_char(s@, c) == i && i < s@.len(),
            None => last_index_of_char(s@, c) == -1,
        }),
{
    let n = s.unicode_len();
    let mut i: usize = n;
    while i > 0
        invariant
            i <= n,
            n == s@.len(),
            forall|j: int| i <= j < n ==> s@[j] != c,
        decreases i,
    {
        i -= 1;
        if s.get_char(i) == c {
            proof {
                lemma_last_index_of_char_scan(s@, c, i as int);
            }
            return Some(i);
        }
    }
    proof {
        lemma_last_index_of_char_scan(s@, c, -1);
    }
    None
}

/// The filename of a path string.
pub fn file_name_of(path: &String) -> (r: String)
    ensures
        r@ == spec_file_name(path@),
{
    let n = path.as_str().unicode_len();
    match rfind_char(path.as_str(), '/') {
        Some(i) => String::from_str(path.as_str().substring_char(i + 1, n)),
        None => {
            assert(path@.subrange(0, path@.len() as int) =~= path@);
            path.clone()
        },
    }
}

/// The extension of a path string.
pub fn extension_of(path: &String) -> (r: Option<String>)
    ensures
        (match spec_extension(path@) {
            Some(e) => r matches Some(x) && x@ == e,
            None => r is None,
        }),
{
    let name = file_name_of(path);
    let n = name.as_str().unicode_len();
    match rfind_char(name.as_str(), '.') {
        Some(i) => {
            if i > 0 {
                Some(String::from_str(name.as_str().substring_char(i + 1, n)))
            } else {
                None
            }
        },
        None => None,
    }
}

} // verus!
