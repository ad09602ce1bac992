//! Aggregator: runs the extractor over an ordered candidate sequence
//! and joins the blocks into one output document, failing fast on the
//! first unreadable match.

use vstd::prelude::*;
use crate::config::{Config, MatchRuleSet, views_of};
use crate::extractor::{Candidate, candidate_readable, extract, spec_candidate_block, spec_matches};
use crate::matcher::{first_project, names_of, resolve, types_of};
use crate::FlattenError;

verus! {

/// Whether some matched candidate of the sequence cannot be rendered.
pub open spec fn any_unreadable(cands: Seq<Candidate>, types: Seq<String>, names: Seq<String>) -> bool {
    exists|i: int|
        0 <= i < cands.len() && spec_matches(cands[i].path@, cands[i].is_file, types, names)
            && !candidate_readable(cands[i])
}

/// The output document of a candidate sequence: the blocks of its
/// readable matches, concatenated in candidate order.
pub open spec fn spec_output(cands: Seq<Candidate>, types: Seq<String>, names: Seq<String>) -> Seq<
    Seq<char>,
>
    decreases cands.len(),
{
    if cands.len() == 0 {
        Seq::empty()
    } else {
        spec_output(cands.drop_last(), types, names) + (if spec_matches(
            cands.last().path@,
            cands.last().is_file,
            types,
            names,
        ) && candidate_readable(cands.last()) {
            spec_candidate_block(cands.last())
        } else {
            Seq::empty()
        })
    }
}

/// Law: the output document is a function of the candidate sequence
/// and the rule set alone, so two aggregation runs over the same
/// inputs agree on success and yield the identical line sequence,
/// whatever order the per-file work ran in.
pub proof fn lemma_aggregation_deterministic(
    r1: Result<Vec<String>, FlattenError>,
    r2: Result<Vec<String>, FlattenError>,
    cands: Seq<Candidate>,
    types: Seq<String>,
    names: Seq<String>,
)
    requires
        aggregated_to(r1, cands, types, names),
        aggregated_to(r2, cands, types, names),
    ensures
        r1 is Ok <==> r2 is Ok,
        r1 matches Ok(v1) ==> r2 matches Ok(v2) ==> views_of(v1@) == views_of(v2@),
{
}

/// One step of the output: extending the candidate prefix by one entry
/// appends that entry's contribution.
proof fn lemma_output_take_step(
    cands: Seq<Candidate>,
    types: Seq<String>,
    names: Seq<String>,
    i: int,
)
    requires
        0 <= i < cands.len(),
    ensures
        spec_output(cands.take(i + 1), types, names) == spec_output(cands.take(i), types, names)
            + (if spec_matches(cands[i].path@, cands[i].is_file, types, names)
            && candidate_readable(cands[i]) {
            spec_candidate_block(cands[i])
        } else {
            Seq::<Seq<char>>::empty()
        }),
{
    assert(cands.take(i + 1).drop_last() =~= cands.take(i));
    assert(cands.take(i + 1).last() == cands[i]);
}

/// What the aggregator promises for a candidate sequence and rule
/// sequences: all-or-nothing output in candidate order.
pub open spec fn aggregated_to(
    r: Result<Vec<String>, FlattenError>,
    cands: Seq<Candidate>,
    types: Seq<String>,
    names: Seq<String>,
) -> bool {
    &&& (r is Ok <==> !any_unreadable(cands, types, names))
    &&& (r matches Ok(v) ==> views_of(v@) == spec_output(cands, types, names))
    &&& (r matches Err(e) ==> e == FlattenError::IoError)
}

/// Aggregator: extracts every candidate in order and joins the blocks;
/// the first unreadable match aborts the whole run with an I/O error.
pub fn aggregate(cands: &Vec<Candidate>, rules: &MatchRuleSet) -> (r: Result<
    Vec<String>,
    FlattenError,
>)
    ensures
        aggregated_to(r, cands@, rules.file_types@, rules.file_names@),
{
    let ghost types = rules.file_types@;
    let ghost names = rules.file_names@;
    let mut out: Vec<String> = Vec::new();
    assert(views_of(out@) =~= spec_output(cands@.take(0), types, names));
    let mut i: usize = 0;
    while i < cands.len()
        invariant
            i <= cands@.len(),
            types == rules.file_types@,
            names == rules.file_names@,
            forall|j: int|
                0 <= j < i ==> !(spec_matches(
                    cands@[j].path@,
                    cands@[j].is_file,
                    types,
                    names,
                ) && !candidate_readable(cands@[j])),
            views_of(out@) == spec_output(cands@.take(i as int), types, names),
        decreases cands@.len() - i,
    {
        let c = &cands[i];
        assert(*c == cands@[i as int]);
        match extract(c, rules) {
            Err(_) => {
                assert(any_unreadable(cands@, types, names));
                return Err(FlattenError::IoError);
            },
            Ok(None) => {
                proof {
                    lemma_output_take_step(cands@, types, names, i as int);
                    assert(views_of(out@) =~= spec_output(cands@.take(i as int + 1), types, names));
                }
            },
            Ok(Some(mut block)) => {
                let ghost block_view = views_of(block@);
                out.append(&mut block);
                proof {
                    lemma_output_take_step(cands@, types, names, i as int);
                    assert(views_of(out@) =~= spec_output(cands@.take(i as int), types, names)
                        + block_view);
                }
            },
        }
        i += 1;
    }
    proof {
        assert(cands@.take(i as int) =~= cands@);
        if any_unreadable(cands@, types, names) {
            let j = choose|j: int|
                0 <= j < cands@.len() && spec_matches(
                    cands@[j].path@,
                    cands@[j].is_file,
                    types,
                    names,
                ) && !candidate_readable(cands@[j]);
            assert(false);
        }
    }
    Ok(out)
}

/// The full pipeline of one run: resolve the effective rules from the
/// configuration and selector, then aggregate the candidates.  An
/// unknown selector is a configuration error and nothing is produced.
pub fn get_lines(cands: &Vec<Candidate>, project_type: Option<&String>, config: &Config) -> (r:
    Result<Vec<String>, FlattenError>)
    ensures
        (match project_type {
            Some(pt) => {
                let i = first_project(config.projects@, pt@);
                if i < 0 {
                    r == Err::<Vec<String>, FlattenError>(FlattenError::ConfigError)
                } else {
                    aggregated_to(
                        r,
                        cands@,
                        config.projects@[i].file_types@,
                        config.projects@[i].file_names@ + config.general_files@,
                    )
                }
            },
            None => aggregated_to(
                r,
                cands@,
                types_of(config.projects@),
                names_of(config.projects@) + config.general_files@,
            ),
        }),
{
    let rules = match resolve(config, project_type) {
        Err(e) => {
            return Err(e);
        },
        Ok(rules) => rules,
    };
    aggregate(cands, &rules)
}

} // verus!
