//! Extractor: tests one candidate against the rule set and renders a
//! matched file into its tagged block of text lines.

use vstd::prelude::*;
use vstd::string::{StrSliceExecFns, StringExecFns};
use crate::config::{MatchRuleSet, contains_string, contains_text, views_of};
use crate::paths::{extension_of, file_name_of, spec_extension, spec_file_name};
use crate::FlattenError;

verus! {

/// The RFC 3339 rendering, in UTC, of a modification time given as
/// whole seconds since the Unix epoch plus a sub-second nanosecond
/// part; absent when the instant is out of the calendar's range.
pub uninterp spec fn rfc3339_utc(secs: int, nanos: int) -> Option<Seq<char>>;

/// Instants from year 1 through year 9999 whose sub-second part is
/// below one second; for these a rendering is always available.
pub open spec fn timestamp_representable(secs: int, nanos: int) -> bool {
    &&& -62_135_596_800 <= secs <= 253_402_300_799
    &&& 0 <= nanos < 1_000_000_000
}

/// Relies on chrono's `DateTime::<Utc>::from_timestamp` and
/// `to_rfc3339`: the rendering depends on the seconds and nanoseconds
/// alone, and an instant from year 1 through year 9999 with a
/// sub-second part below one second is always in range.
#[verifier::external_body]
fn chrono_rfc3339(secs: i64, nanos: u32) -> (r: Option<String>)
    ensures
        (match r {
            Some(s) => rfc3339_utc(secs as int, nanos as int) == Some(s@),
            None => rfc3339_utc(secs as int, nanos as int) is None,
        }),
        timestamp_representable(secs as int, nanos as int) ==> r is Some,
{
    chrono::DateTime::<chrono::Utc>::from_timestamp(secs, nanos).map(|dt| dt.to_rfc3339())
}

/// Renders a modification time as RFC 3339 UTC text, or reports that
/// the instant has no rendering.
pub fn format_timestamp(secs: i64, nanos: u32) -> (r: Option<String>)
    ensures
        (match r {
            Some(s) => rfc3339_utc(secs as int, nanos as int) == Some(s@),
            None => rfc3339_utc(secs as int, nanos as int) is None,
        }),
        timestamp_representable(secs as int, nanos as int) ==> r is Some,
{
    chrono_rfc3339(secs, nanos)
}

/// Whether a candidate path matches the rules: it must be a regular
/// file whose extension is among the extension rules or whose filename
/// is among the filename rules.
pub open spec fn spec_matches(
    path: Seq<char>,
    is_file: bool,
    types: Seq<String>,
    names: Seq<String>,
) -> bool {
    &&& is_file
    &&& ((match spec_extension(path) {
        Some(e) => contains_text(types, e),
        None => false,
    }) || contains_text(names, spec_file_name(path)))
}

/// Law: an entry that is not a regular file never matches, whatever
/// the rules say.
pub proof fn lemma_directory_never_matches(path: Seq<char>, types: Seq<String>, names: Seq<String>)
    ensures
        !spec_matches(path, false, types, names),
{
}

/// Extractor's match test for one candidate path.
pub fn entry_matches(path: &String, is_file: bool, rules: &MatchRuleSet) -> (r: bool)
    ensures
        r == spec_matches(path@, is_file, rules.file_types@, rules.file_names@),
{
    if !is_file {
        return false;
    }
    let by_type = match extension_of(path) {
        Some(e) => contains_string(&rules.file_types, &e),
        None => false,
    };
    if by_type {
        true
    } else {
        let name = file_name_of(path);
        contains_string(&rules.file_names, &name)
    }
}

/// The opening tag line of a file block.
pub open spec fn spec_open_tag(path: Seq<char>, ts: Seq<char>) -> Seq<char> {
    "<file name=\""@ + path + "\" last_modified=\""@ + ts + "\">"@
}

/// The closing tag line of a file block.
pub open spec fn spec_close_tag() -> Seq<char> {
    "</file>"@
}

/// One file block: the opening tag, the content lines verbatim, and
/// the closing tag.
pub open spec fn spec_block(path: Seq<char>, ts: Seq<char>, content: Seq<Seq<char>>) -> Seq<
    Seq<char>,
> {
    seq![spec_open_tag(path, ts)] + content + seq![spec_close_tag()]
}

/// Law: a block brackets exactly the file's content, with no line
/// added, dropped, or reordered between its tags.
pub proof fn lemma_block_round_trip(path: Seq<char>, ts: Seq<char>, content: Seq<Seq<char>>)
    ensures
        spec_block(path, ts, content).len() == content.len() + 2,
        spec_block(path, ts, content)[0] == spec_open_tag(path, ts),
        spec_block(path, ts, content)[content.len() as int + 1] == spec_close_tag(),
        spec_block(path, ts, content).subrange(1, content.len() as int + 1) == content,
{
    assert(spec_block(path, ts, content).subrange(1, content.len() as int + 1) =~= content);
}

/// Renders one matched file as its tagged block.
pub fn render_block(path: &String, timestamp: &String, content: &Vec<String>) -> (r: Vec<String>)
    ensures
        views_of(r@) == spec_block(path@, timestamp@, views_of(content@)),
{
    let mut tag = String::from_str("<file name=\"");
    tag.append(path.as_str());
    tag.append("\" last_modified=\"");
    tag.append(timestamp.as_str());
    tag.append("\">");
    let mut r: Vec<String> = Vec::new();
    r.push(tag);
    let mut i: usize = 0;
    while i < content.len()
        invariant
            i <= content@.len(),
            r@.len() == i + 1,
            r@[0]@ == spec_open_tag(path@, timestamp@),
            forall|j: int| 0 <= j < i ==> r@[j + 1] == content@[j],
        decreases content@.len() - i,
    {
        let e = &content[i];
        r.push(e.clone());
        i += 1;
    }
    r.push(String::from_str("</file>"));
    assert(views_of(r@) =~= spec_block(path@, timestamp@, views_of(content@)));
    r
}

/// What was read of one matched file: its content lines and its
/// modification time, split into whole seconds since the Unix epoch
/// and a nanosecond remainder.
pub struct FileData {
    pub mtime_secs: i64,
    pub mtime_nanos: u32,
    pub lines: Vec<String>,
}

/// One filesystem entry handed to the extractor: its path, whether it
/// is a regular file, and — for entries the caller read — its data.
/// `data` of `None` on a matched candidate means the read failed.
pub struct Candidate {
    pub path: String,
    pub is_file: bool,
    pub data: Option<FileData>,
}

/// Whether a matched candidate can be rendered: its data was read and
/// its modification time has an RFC 3339 rendering.
pub open spec fn candidate_readable(c: Candidate) -> bool {
    &&& c.data is Some
    &&& rfc3339_utc(c.data->Some_0.mtime_secs as int, c.data->Some_0.mtime_nanos as int) is Some
}

/// The block of a readable candidate.
pub open spec fn spec_candidate_block(c: Candidate) -> Seq<Seq<char>> {
    spec_block(
        c.path@,
        rfc3339_utc(c.data->Some_0.mtime_secs as int, c.data->Some_0.mtime_nanos as int)->Some_0,
        views_of(c.data->Some_0.lines@),
    )
}

/// Extractor for one candidate: no match is not an error; a match
/// whose data cannot be rendered is an I/O error; a readable match
/// yields its block.
pub fn extract(c: &Candidate, rules: &MatchRuleSet) -> (r: Result<Option<Vec<String>>, FlattenError>)
    ensures
        ({
            let m = spec_matches(c.path@, c.is_file, rules.file_types@, rules.file_names@);
            &&& (r matches Ok(Some(v)) ==> m && candidate_readable(*c) && views_of(v@)
                == spec_candidate_block(*c))
            &&& (m && candidate_readable(*c) ==> r is Ok && r->Ok_0 is Some)
            &&& (r is Err <==> m && !candidate_readable(*c))
            &&& (r matches Err(e) ==> e == FlattenError::IoError)
            &&& (!m ==> r is Ok && r->Ok_0 is None)
        }),
{
    if !entry_matches(&c.path, c.is_file, rules) {
        return Ok(None);
    }
    match &c.data {
        None => Err(FlattenError::IoError),
        Some(d) => {
            match format_timestamp(d.mtime_secs, d.mtime_nanos) {
                None => Err(FlattenError::IoError),
                Some(ts) => Ok(Some(render_block(&c.path, &ts, &d.lines))),
            }
        },
    }
}

} // verus!
