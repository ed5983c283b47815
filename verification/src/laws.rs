//! Properties of the analysis and its reports that span several functions.
use vstd::prelude::*;

use crate::codes::{code_category, code_number, spec_catalogue, FindingCode};
use crate::findings::{AnalysisBuckets, StorageCollisionIssue};
use crate::json_report::spec_summary;
use crate::project::{
    is_rust_file_name, spec_analysis_scope, spec_entry_action, AnalysisScope, spec_is_soroban_project, spec_manifest_source,
    EntryAction, ManifestSource, PathKind,
};
use crate::text_report::{
    all_collision_lines, auth_section, closing_line, collision_section, panic_section,
    arithmetic_section, size_section, spec_text_report, unsafe_section, SpecLine,
};

verus! {

/// A report is flagged critical or high exactly when it has findings: every
/// kind of finding is either critical or high.
pub proof fn flagged_exactly_when_findings(b: AnalysisBuckets)
    ensures
        (b.spec_has_critical() || b.spec_has_high()) <==> b.finding_count() > 0,
{
}

/// The total of a report's summary is the sum of the counts of the kinds it lists.
pub proof fn summary_total_is_sum_of_kinds(b: AnalysisBuckets)
    requires
        b.finding_count() <= usize::MAX,
    ensures
        spec_summary(b).total_findings == spec_summary(b).storage_collisions
            + spec_summary(b).auth_gaps + spec_summary(b).panic_issues
            + spec_summary(b).arithmetic_issues + spec_summary(b).size_warnings
            + spec_summary(b).unsafe_patterns,
{
}

/// Absorbing the findings of one more file adds its count to the total, and a
/// critical or high flag, once raised, stays raised.
pub proof fn absorbing_adds_findings(before: AnalysisBuckets, file: AnalysisBuckets, after: AnalysisBuckets)
    requires
        after.auth_gaps@ == before.auth_gaps@ + file.auth_gaps@,
        after.panics@ == before.panics@ + file.panics@,
        after.arithmetic_issues@ == before.arithmetic_issues@ + file.arithmetic_issues@,
        after.unsafe_patterns@ == before.unsafe_patterns@ + file.unsafe_patterns@,
        after.size_warnings@ == before.size_warnings@ + file.size_warnings@,
        after.collisions@ == before.collisions@ + file.collisions@,
    ensures
        after.finding_count() == before.finding_count() + file.finding_count(),
        before.spec_has_critical() ==> after.spec_has_critical(),
        before.spec_has_high() ==> after.spec_has_high(),
        after.spec_has_critical() <==> (before.spec_has_critical() || file.spec_has_critical()),
        after.spec_has_high() <==> (before.spec_has_high() || file.spec_has_high()),
{
}

/// Each collision takes four lines of the text report.
pub proof fn collision_lines_count(cs: Seq<StorageCollisionIssue>)
    ensures
        all_collision_lines(cs).len() == 4 * cs.len(),
    decreases cs.len(),
{
    if cs.len() > 0 {
        collision_lines_count(cs.drop_last());
    }
}

/// The number of lines of a section that lists `n` findings, `per` lines each,
/// and that is left out (`when_empty == 0`) or replaced by an all-clear line
/// (`when_empty == 1`) when there are none.
pub open spec fn section_length(n: nat, per: nat, when_empty: nat) -> nat {
    if n == 0 {
        when_empty
    } else {
        1 + per * n
    }
}

/// The text report has a heading and a line per finding for each kind that has
/// findings (four lines per storage collision), an all-clear line for ledger
/// sizes and for storage collisions where they have none, nothing for the other
/// kinds without findings, and always ends with the closing line.
pub proof fn text_report_shape(b: AnalysisBuckets)
    ensures
        spec_text_report(b).len() == section_length(b.auth_gaps@.len(), 1, 0) + section_length(
            b.panics@.len(),
            1,
            0,
        ) + section_length(b.arithmetic_issues@.len(), 1, 0) + section_length(
            b.unsafe_patterns@.len(),
            1,
            0,
        ) + section_length(b.size_warnings@.len(), 1, 1) + section_length(
            b.collisions@.len(),
            4,
            1,
        ) + 1,
        spec_text_report(b).last() == closing_line(),
{
    collision_lines_count(b.collisions@);
    assert(auth_section(b.auth_gaps@).len() == section_length(b.auth_gaps@.len(), 1, 0));
    assert(panic_section(b.panics@).len() == section_length(b.panics@.len(), 1, 0));
    assert(arithmetic_section(b.arithmetic_issues@).len() == section_length(
        b.arithmetic_issues@.len(),
        1,
        0,
    ));
    assert(unsafe_section(b.unsafe_patterns@).len() == section_length(
        b.unsafe_patterns@.len(),
        1,
        0,
    ));
    assert(size_section(b.size_warnings@).len() == section_length(b.size_warnings@.len(), 1, 1));
    assert(collision_section(b.collisions@).len() == section_length(b.collisions@.len(), 4, 1));
}

/// A report with no findings reads: no ledger size issues, no storage key
/// collisions, analysis complete.
pub proof fn clean_text_report(b: AnalysisBuckets)
    requires
        b.finding_count() == 0,
    ensures
        spec_text_report(b) == seq![
            size_section(b.size_warnings@)[0],
            collision_section(b.collisions@)[0],
            closing_line(),
        ],
        size_section(b.size_warnings@).len() == 1,
        collision_section(b.collisions@).len() == 1,
{
    assert(spec_text_report(b) =~= seq![
        size_section(b.size_warnings@)[0],
        collision_section(b.collisions@)[0],
        closing_line(),
    ]);
}

/// A Rust source file is always accepted as a project, whatever any manifest says.
pub proof fn rust_files_are_projects(name: Seq<char>, manifest: Option<Seq<char>>)
    requires
        is_rust_file_name(name),
    ensures
        spec_is_soroban_project(PathKind::File, Some(name), manifest),
{
}

/// When no manifest is needed, the verdict on a path does not depend on what
/// was read.
pub proof fn verdict_ignores_unneeded_manifest(
    kind: PathKind,
    file_name: Option<Seq<char>>,
    m1: Option<Seq<char>>,
    m2: Option<Seq<char>>,
)
    requires
        spec_manifest_source(kind, file_name) == ManifestSource::NotNeeded,
    ensures
        spec_is_soroban_project(kind, file_name, m1) == spec_is_soroban_project(
            kind,
            file_name,
            m2,
        ),
{
}

/// A path that cannot be read as a project (no manifest read) is only accepted
/// when it is a Rust source file.
pub proof fn unread_manifest_rejects_all_but_sources(kind: PathKind, file_name: Option<Seq<char>>)
    ensures
        spec_is_soroban_project(kind, file_name, None) <==> (kind == PathKind::File && (
        file_name matches Some(n) && is_rust_file_name(n))),
{
}

/// Every path accepted as a Soroban project is analysed: a directory and the
/// directory of an accepted `Cargo.toml` are walked, a Rust source file is read.
pub proof fn accepted_paths_are_analysed(
    kind: PathKind,
    file_name: Option<Seq<char>>,
    manifest: Option<Seq<char>>,
)
    requires
        spec_is_soroban_project(kind, file_name, manifest),
    ensures
        spec_analysis_scope(kind, file_name) != AnalysisScope::Nothing,
        file_name == Some("Cargo.toml"@) && kind == PathKind::File ==> spec_analysis_scope(
            kind,
            file_name,
        ) == AnalysisScope::WalkManifestDirectory,
{
}

/// Every file a project walk analyzes would be accepted as a project on its own.
pub proof fn analyzed_entries_are_projects(file_name: Option<Seq<char>>, manifest: Option<Seq<char>>)
    requires
        spec_entry_action(false, file_name) == EntryAction::Analyze,
    ensures
        spec_is_soroban_project(PathKind::File, file_name, manifest),
{
}

/// The catalogue lists every code exactly once, at the position of its number.
pub proof fn catalogue_lists_each_code_once(c: FindingCode)
    ensures
        spec_catalogue().len() == 13,
        spec_catalogue()[code_number(c) as int] == c,
        forall|i: int| 0 <= i < 13 && spec_catalogue()[i] == c ==> i == code_number(c),
{
}

/// The codes given to findings belong to the categories of their kinds.
pub proof fn finding_codes_match_categories()
    ensures
        code_category(FindingCode::S001) == "authentication"@,
        code_category(FindingCode::S002) == "runtime"@,
        code_category(FindingCode::S003) == "arithmetic"@,
        code_category(FindingCode::S004) == "ledger_size"@,
        code_category(FindingCode::S005) == "storage"@,
        code_category(FindingCode::S006) == "runtime"@,
{
}

} // verus!
