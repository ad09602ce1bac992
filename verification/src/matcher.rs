//! Matcher: resolves a configuration and an optional project-type
//! selector into the effective rule set of one run.

use vstd::prelude::*;
use crate::config::{Config, MatchRuleSet, Project, append_strings, clone_strings, contains_text};
use crate::FlattenError;

verus! {

/// The extension rules of all projects, concatenated in order.
pub open spec fn types_of(projects: Seq<Project>) -> Seq<String>
    decreases projects.len(),
{
    if projects.len() == 0 {
        Seq::empty()
    } else {
        types_of(projects.drop_last()) + projects.last().file_types@
    }
}

/// The filename rules of all projects, concatenated in order.
pub open spec fn names_of(projects: Seq<Project>) -> Seq<String>
    decreases projects.len(),
{
    if projects.len() == 0 {
        Seq::empty()
    } else {
        names_of(projects.drop_last()) + projects.last().file_names@
    }
}

/// The index of the first project with the given project type, or -1
/// when no project has it.
pub open spec fn first_project(projects: Seq<Project>, pt: Seq<char>) -> int
    decreases projects.len(),
{
    if projects.len() == 0 {
        -1
    } else if projects.first().project_type@ == pt {
        0
    } else {
        let rest = first_project(projects.drop_first(), pt);
        if rest < 0 {
            -1
        } else {
            rest + 1
        }
    }
}

/// A scan that saw no match up to `i` and a match at `i` (or none at
/// all) pins down `first_project`.
proof fn lemma_first_project_scan(projects: Seq<Project>, pt: Seq<char>, i: int)
    requires
        0 <= i <= projects.len(),
        forall|j: int| 0 <= j < i ==> projects[j].project_type@ != pt,
        i < projects.len() ==> projects[i].project_type@ == pt,
    ensures
        first_project(projects, pt) == if i < projects.len() { i } else { -1 },
    decreases projects.len(),
{
    if projects.len() > 0 {
        if projects.first().project_type@ == pt {
            assert(i == 0);
        } else {
            assert(i >= 1);
            let rest = projects.drop_first();
            assert(forall|j: int| 0 <= j < i - 1 ==> rest[j].project_type@ != pt);
            lemma_first_project_scan(rest, pt, i - 1);
        }
    }
}

/// What `resolve` promises of its result for given rule sequences:
/// the effective extensions are exactly `types`, and the effective
/// filenames are exactly `names` followed by the general filenames.
pub open spec fn resolved_to(
    r: Result<MatchRuleSet, FlattenError>,
    types: Seq<String>,
    names: Seq<String>,
    general: Seq<String>,
) -> bool {
    &&& r is Ok
    &&& (r matches Ok(rules) ==> rules.file_types@ == types && rules.file_names@ == names
        + general)
}

/// Matcher: resolves the effective rule set.
///
/// With a selector, the rules are those of the first project whose
/// project type equals it, and a missing project type is a
/// configuration error.  Without a selector, the rules are the union
/// (as concatenation) over all projects.  The general filenames are
/// always appended to the filename rules.
pub fn resolve(config: &Config, project_type: Option<&String>) -> (r: Result<
    MatchRuleSet,
    FlattenError,
>)
    ensures
        (match project_type {
            Some(pt) => {
                let i = first_project(config.projects@, pt@);
                if i < 0 {
                    r == Err::<MatchRuleSet, FlattenError>(FlattenError::ConfigError)
                } else {
                    i < config.projects@.len() && config.projects@[i].project_type@ == pt@
                        && resolved_to(
                        r,
                        config.projects@[i].file_types@,
                        config.projects@[i].file_names@,
                        config.general_files@,
                    )
                }
            },
            None => resolved_to(
                r,
                types_of(config.projects@),
                names_of(config.projects@),
                config.general_files@,
            ),
        }),
{
    match project_type {
        Some(pt) => {
            let mut i: usize = 0;
            let n = config.projects.len();
            while i < n
                invariant
                    project_type == Some(pt),
                    n == config.projects@.len(),
                    i <= n,
                    forall|j: int| 0 <= j < i ==> config.projects@[j].project_type@ != pt@,
                decreases n - i,
            {
                let p = &config.projects[i];
                assert(*p == config.projects@[i as int]);
                if p.project_type == *pt {
                    proof {
                        lemma_first_project_scan(config.projects@, pt@, i as int);
                    }
                    let mut file_names = clone_strings(&p.file_names);
                    append_strings(&mut file_names, &config.general_files);
                    let file_types = clone_strings(&p.file_types);
                    return Ok(MatchRuleSet { file_types, file_names });
                }
                i += 1;
            }
            proof {
                lemma_first_project_scan(config.projects@, pt@, n as int);
            }
            Err(FlattenError::ConfigError)
        },
        None => {
            let mut file_types: Vec<String> = Vec::new();
            let mut file_names: Vec<String> = Vec::new();
            let mut i: usize = 0;
            let n = config.projects.len();
            assert(file_types@ =~= types_of(config.projects@.take(0)));
            assert(file_names@ =~= names_of(config.projects@.take(0)));
            while i < n
                invariant
                    n == config.projects@.len(),
                    i <= n,
                    file_types@ == types_of(config.projects@.take(i as int)),
                    file_names@ == names_of(config.projects@.take(i as int)),
                decreases n - i,
            {
                let p = &config.projects[i];
                append_strings(&mut file_types, &p.file_types);
                append_strings(&mut file_names, &p.file_names);
                i += 1;
                proof {
                    assert(config.projects@.take(i as int).drop_last() =~= config.projects@.take(
                        i as int - 1,
                    ));
                    assert(config.projects@.take(i as int).last() == config.projects@[i as int - 1]);
                }
            }
            proof {
                assert(config.projects@.take(n as int) =~= config.projects@);
            }
            append_strings(&mut file_names, &config.general_files);
            Ok(MatchRuleSet { file_types, file_names })
        },
    }
}

/// Law: with a valid selector, a string is an effective extension rule
/// exactly when the selected project lists it, and an effective
/// filename rule exactly when the selected project or the general
/// filenames list it.
pub proof fn lemma_resolve_selected_membership(
    rules: MatchRuleSet,
    project: Project,
    general: Seq<String>,
    s: Seq<char>,
)
    requires
        rules.file_types@ == project.file_types@,
        rules.file_names@ == project.file_names@ + general,
    ensures
        contains_text(rules.file_types@, s) <==> contains_text(project.file_types@, s),
        contains_text(rules.file_names@, s) <==> (contains_text(project.file_names@, s)
            || contains_text(general, s)),
{
    crate::config::lemma_contains_text_concat(project.file_names@, general, s);
}

/// Law: a string is in the concatenated extension rules of a project
/// sequence exactly when some project lists it.
pub proof fn lemma_types_of_membership(projects: Seq<Project>, s: Seq<char>)
    ensures
        contains_text(types_of(projects), s) <==> exists|i: int|
            0 <= i < projects.len() && contains_text(projects[i].file_types@, s),
    decreases projects.len(),
{
    if projects.len() > 0 {
        let rest = projects.drop_last();
        lemma_types_of_membership(rest, s);
        crate::config::lemma_contains_text_concat(types_of(rest), projects.last().file_types@, s);
        if contains_text(types_of(projects), s) {
            if contains_text(types_of(rest), s) {
                let i = choose|i: int| 0 <= i < rest.len() && contains_text(rest[i].file_types@, s);
                assert(contains_text(projects[i].file_types@, s));
            } else {
                assert(contains_text(projects[projects.len() - 1].file_types@, s));
            }
        }
        if exists|i: int| 0 <= i < projects.len() && contains_text(projects[i].file_types@, s) {
            let i = choose|i: int|
                0 <= i < projects.len() && contains_text(projects[i].file_types@, s);
            if i < projects.len() - 1 {
                assert(contains_text(rest[i].file_types@, s));
            }
        }
    }
}

/// Law: a string is in the concatenated filename rules of a project
/// sequence exactly when some project lists it.
pub proof fn lemma_names_of_membership(projects: Seq<Project>, s: Seq<char>)
    ensures
        contains_text(names_of(projects), s) <==> exists|i: int|
            0 <= i < projects.len() && contains_text(projects[i].file_names@, s),
    decreases projects.len(),
{
    if projects.len() > 0 {
        let rest = projects.drop_last();
        lemma_names_of_membership(rest, s);
        crate::config::lemma_contains_text_concat(names_of(rest), projects.last().file_names@, s);
        if contains_text(names_of(projects), s) {
            if contains_text(names_of(rest), s) {
                let i = choose|i: int| 0 <= i < rest.len() && contains_text(rest[i].file_names@, s);
                assert(contains_text(projects[i].file_names@, s));
            } else {
                assert(contains_text(projects[projects.len() - 1].file_names@, s));
            }
        }
        if exists|i: int| 0 <= i < projects.len() && contains_text(projects[i].file_names@, s) {
            let i = choose|i: int|
                0 <= i < projects.len() && contains_text(projects[i].file_names@, s);
            if i < projects.len() - 1 {
                assert(contains_text(rest[i].file_names@, s));
            }
        }
    }
}

} // verus!
