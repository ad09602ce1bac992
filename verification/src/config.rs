//! Configuration data: named matching profiles and the rule set that one
//! run of the flattener works with.

use vstd::prelude::*;

verus! {

/// One named matching profile: a project type together with the file
/// extensions and exact filenames it selects.
pub struct Project {
    pub project_type: String,
    pub file_types: Vec<String>,
    pub file_names: Vec<String>,
}

/// A full configuration: filenames matched regardless of the chosen
/// project type, and the sequence of named profiles.
pub struct Config {
    pub general_files: Vec<String>,
    pub projects: Vec<Project>,
}

/// The effective matching rules of one run, resolved from a
/// configuration and an optional project-type selector.
#[derive(Debug)]
pub struct MatchRuleSet {
    pub file_types: Vec<String>,
    pub file_names: Vec<String>,
}

/// The character sequences of a sequence of strings.
pub open spec fn views_of(s: Seq<String>) -> Seq<Seq<char>> {
    Seq::new(s.len(), |i: int| s[i]@)
}

/// Whether some string of `v` reads as the character sequence `s`.
pub open spec fn contains_text(v: Seq<String>, s: Seq<char>) -> bool {
    exists|i: int| 0 <= i < v.len() && v[i]@ == s
}

/// Membership is invariant under concatenation: a string occurs in
/// `a + b` exactly when it occurs in `a` or in `b`.
pub proof fn lemma_contains_text_concat(a: Seq<String>, b: Seq<String>, s: Seq<char>)
    ensures
        contains_text(a + b, s) <==> (contains_text(a, s) || contains_text(b, s)),
{
    if contains_text(a + b, s) {
        let i = choose|i: int| 0 <= i < (a + b).len() && (a + b)[i]@ == s;
        if i < a.len() {
            assert(a[i]@ == s);
        } else {
            assert(b[i - a.len()]@ == s);
        }
    }
    if contains_text(a, s) {
        let i = choose|i: int| 0 <= i < a.len() && a[i]@ == s;
        assert((a + b)[i]@ == s);
    }
    if contains_text(b, s) {
        let i = choose|i: int| 0 <= i < b.len() && b[i]@ == s;
        assert((a + b)[a.len() + i]@ == s);
    }
}

/// Membership test for a string among a vector of strings.
pub fn contains_string(v: &Vec<String>, s: &String) -> (r: bool)
    ensures
        r == contains_text(v@, s@),
{
    let mut i: usize = 0;
    while i < v.len()
        invariant
            i <= v@.len(),
            forall|j: int| 0 <= j < i ==> v@[j]@ != s@,
        decreases v@.len() - i,
    {
        let e = &v[i];
        if *e == *s {
            assert(v@[i as int]@ == s@);
            return true;
        }
        i += 1;
    }
    false
}

/// Copies a vector of strings, element for element.
pub fn clone_strings(v: &Vec<String>) -> (r: Vec<String>)
    ensures
        r@ == v@,
{
    let mut r: Vec<String> = Vec::new();
    let mut i: usize = 0;
    while i < v.len()
        invariant
            i <= v@.len(),
            r@ == v@.take(i as int),
        decreases v@.len() - i,
    {
        let e = &v[i];
        r.push(e.clone());
        i += 1;
        assert(r@ =~= v@.take(i as int));
    }
    assert(v@.take(i as int) =~= v@);
    r
}

/// Appends copies of the strings of `src` to `dst`.
pub fn append_strings(dst: &mut Vec<String>, src: &Vec<String>)
    ensures
        final(dst)@ == old(dst)@ + src@,
{
    let mut i: usize = 0;
    assert(dst@ =~= old(dst)@ + src@.take(0));
    while i < src.len()
        invariant
            i <= src@.len(),
            dst@ == old(dst)@ + src@.take(i as int),
        decreases src@.len() - i,
    {
        let e = &src[i];
        dst.push(e.clone());
        i += 1;
        assert(dst@ =~= old(dst)@ + src@.take(i as int));
    }
    assert(old(dst)@ + src@.take(i as int) =~= old(dst)@ + src@);
}

} // verus!
