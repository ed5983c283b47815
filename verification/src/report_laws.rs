//! What the reports of an analysis say, stated line by line and member by
//! member in terms of the findings themselves.
use vstd::prelude::*;

use crate::codes::{code_category, code_description, code_name, code_number, FindingCode};
use crate::findings::{
    AnalysisBuckets, ArithmeticIssue, PanicIssue, SizeWarning, StorageCollisionIssue,
    UnsafePattern,
};
use crate::json_report::{coded, spec_summary, Coded, JsonReport};
use crate::output::not_a_project_tail;
use crate::json_tree::{list_tree, JsonRecord, JsonTree, ToJson};
use crate::project::{
    spec_analysis_scope, spec_entry_action, spec_is_soroban_project, spec_manifest_source,
    AnalysisScope, EntryAction, ManifestSource, PathKind,
};
use crate::text::{digit_char, json_escaped, occurs_in};
use crate::laws::{collision_lines_count, section_length};
use crate::text::{decimal, lowercase};
use crate::text_report::{
    all_collision_lines, arithmetic_section, auth_section, collision_lines, collision_section,
    panic_section, size_section, spec_text_report, unsafe_section, Style,
};

verus! {

/// Where the panic section of a text report starts.
pub open spec fn panic_offset(b: AnalysisBuckets) -> int {
    section_length(b.auth_gaps@.len(), 1, 0) as int
}

/// Where the arithmetic section of a text report starts.
pub open spec fn arithmetic_offset(b: AnalysisBuckets) -> int {
    panic_offset(b) + section_length(b.panics@.len(), 1, 0)
}

/// Where the unsafe-pattern section of a text report starts.
pub open spec fn unsafe_offset(b: AnalysisBuckets) -> int {
    arithmetic_offset(b) + section_length(b.arithmetic_issues@.len(), 1, 0)
}

/// Where the ledger-size section of a text report starts.
pub open spec fn size_offset(b: AnalysisBuckets) -> int {
    unsafe_offset(b) + section_length(b.unsafe_patterns@.len(), 1, 0)
}

/// Where the storage-collision section of a text report starts.
pub open spec fn collision_offset(b: AnalysisBuckets) -> int {
    size_offset(b) + section_length(b.size_warnings@.len(), 1, 1)
}

/// Where the closing line of a text report stands.
pub open spec fn closing_offset(b: AnalysisBuckets) -> int {
    collision_offset(b) + section_length(b.collisions@.len(), 4, 1)
}

/// The sections of a text report have the lengths their findings give them,
/// and the report is those sections in order, then the closing line.
proof fn lemma_report_layout(b: AnalysisBuckets)
    ensures
        auth_section(b.auth_gaps@).len() == section_length(b.auth_gaps@.len(), 1, 0),
        panic_section(b.panics@).len() == section_length(b.panics@.len(), 1, 0),
        arithmetic_section(b.arithmetic_issues@).len() == section_length(
            b.arithmetic_issues@.len(),
            1,
            0,
        ),
        unsafe_section(b.unsafe_patterns@).len() == section_length(b.unsafe_patterns@.len(), 1, 0),
        size_section(b.size_warnings@).len() == section_length(b.size_warnings@.len(), 1, 1),
        collision_section(b.collisions@).len() == section_length(b.collisions@.len(), 4, 1),
        spec_text_report(b).len() == closing_offset(b) + 1,
        forall|i: int|
            0 <= i < panic_offset(b) ==> spec_text_report(b)[i] == auth_section(b.auth_gaps@)[i],
        forall|i: int|
            panic_offset(b) <= i < arithmetic_offset(b) ==> spec_text_report(b)[i] == panic_section(
                b.panics@,
            )[i - panic_offset(b)],
        forall|i: int|
            arithmetic_offset(b) <= i < unsafe_offset(b) ==> spec_text_report(b)[i]
                == arithmetic_section(b.arithmetic_issues@)[i - arithmetic_offset(b)],
        forall|i: int|
            unsafe_offset(b) <= i < size_offset(b) ==> spec_text_report(b)[i] == unsafe_section(
                b.unsafe_patterns@,
            )[i - unsafe_offset(b)],
        forall|i: int|
            size_offset(b) <= i < collision_offset(b) ==> spec_text_report(b)[i] == size_section(
                b.size_warnings@,
            )[i - size_offset(b)],
        forall|i: int|
            collision_offset(b) <= i < closing_offset(b) ==> spec_text_report(b)[i]
                == collision_section(b.collisions@)[i - collision_offset(b)],
{
    collision_lines_count(b.collisions@);
    let a = auth_section(b.auth_gaps@);
    let p = panic_section(b.panics@);
    let x = arithmetic_section(b.arithmetic_issues@);
    let u = unsafe_section(b.unsafe_patterns@);
    let s = size_section(b.size_warnings@);
    let c = collision_section(b.collisions@);
    assert(spec_text_report(b) == a + p + x + u + s + c + seq![crate::text_report::closing_line()]);
}

/// The text report lists every authentication gap once, in order, under its
/// heading, and says nothing of them when there are none.
pub proof fn text_report_lists_auth_gaps(b: AnalysisBuckets)
    ensures
        b.auth_gaps@.len() > 0 ==> spec_text_report(b)[0] == seq![
            ("\n"@, Style::Plain),
            ("🛑"@, Style::Red),
            (" Found potential Authentication Gaps!"@, Style::Plain),
        ],
        forall|i: int|
            0 <= i < b.auth_gaps@.len() ==> spec_text_report(b)[1 + i] == seq![
                ("   "@, Style::Plain),
                ("->"@, Style::Red),
                (" Function: "@, Style::Plain),
                (b.auth_gaps@[i]@, Style::Bold),
            ],
        b.auth_gaps@.len() == 0 ==> panic_offset(b) == 0,
{
    lemma_report_layout(b);
    assert forall|i: int| 0 <= i < b.auth_gaps@.len() implies spec_text_report(b)[1 + i] == seq![
        ("   "@, Style::Plain),
        ("->"@, Style::Red),
        (" Function: "@, Style::Plain),
        (b.auth_gaps@[i]@, Style::Bold),
    ] by {
        assert(spec_text_report(b)[1 + i] == auth_section(b.auth_gaps@)[1 + i]);
        assert(auth_section(b.auth_gaps@)[1 + i] =~= seq![
            ("   "@, Style::Plain),
            ("->"@, Style::Red),
            (" Function: "@, Style::Plain),
            (b.auth_gaps@[i]@, Style::Bold),
        ]);
    }
}


/// The text report lists every panic once, in order, under its heading.
pub proof fn text_report_lists_panics(b: AnalysisBuckets)
    ensures
        b.panics@.len() > 0 ==> spec_text_report(b)[panic_offset(b)] == seq![
            ("\n"@, Style::Plain),
            ("🛑"@, Style::Red),
            (" Found explicit Panics/Unwraps!"@, Style::Plain),
        ],
        forall|i: int|
            0 <= i < b.panics@.len() ==> spec_text_report(b)[panic_offset(b) + 1 + i] == seq![
                ("   "@, Style::Plain),
                ("->"@, Style::Red),
                (" Function: "@, Style::Plain),
                (b.panics@[i].function_name@, Style::Bold),
                (" ("@, Style::Plain),
                (b.panics@[i].issue_type@, Style::Plain),
                (")"@, Style::Plain),
            ],
{
    lemma_report_layout(b);
    assert forall|i: int| 0 <= i < b.panics@.len() implies spec_text_report(b)[panic_offset(b) + 1 + i]
        == seq![
                ("   "@, Style::Plain),
                ("->"@, Style::Red),
                (" Function: "@, Style::Plain),
                (b.panics@[i].function_name@, Style::Bold),
                (" ("@, Style::Plain),
                (b.panics@[i].issue_type@, Style::Plain),
                (")"@, Style::Plain),
            ] by {
        let x = b.panics@[i];
        assert(spec_text_report(b)[panic_offset(b) + 1 + i] == panic_section(b.panics@)[1 + i]);
        assert(panic_section(b.panics@)[1 + i] =~= seq![
                ("   "@, Style::Plain),
                ("->"@, Style::Red),
                (" Function: "@, Style::Plain),
                (b.panics@[i].function_name@, Style::Bold),
                (" ("@, Style::Plain),
                (b.panics@[i].issue_type@, Style::Plain),
                (")"@, Style::Plain),
            ]);
    }
}

/// The text report lists every unchecked arithmetic operation once, in order, under its heading.
pub proof fn text_report_lists_arithmetic_issues(b: AnalysisBuckets)
    ensures
        b.arithmetic_issues@.len() > 0 ==> spec_text_report(b)[arithmetic_offset(b)] == seq![
            ("\n"@, Style::Plain),
            ("🛑"@, Style::Red),
            (" Found unchecked Arithmetic Operations!"@, Style::Plain),
        ],
        forall|i: int|
            0 <= i < b.arithmetic_issues@.len() ==> spec_text_report(b)[arithmetic_offset(b) + 1 + i] == seq![
                ("   "@, Style::Plain),
                ("->"@, Style::Red),
                (" Function: "@, Style::Plain),
                (b.arithmetic_issues@[i].function_name@, Style::Bold),
                (" (operation: "@, Style::Plain),
                (b.arithmetic_issues@[i].operation@, Style::Plain),
                (")"@, Style::Plain),
            ],
{
    lemma_report_layout(b);
    assert forall|i: int| 0 <= i < b.arithmetic_issues@.len() implies spec_text_report(b)[arithmetic_offset(b) + 1 + i]
        == seq![
                ("   "@, Style::Plain),
                ("->"@, Style::Red),
                (" Function: "@, Style::Plain),
                (b.arithmetic_issues@[i].function_name@, Style::Bold),
                (" (operation: "@, Style::Plain),
                (b.arithmetic_issues@[i].operation@, Style::Plain),
                (")"@, Style::Plain),
            ] by {
        let x = b.arithmetic_issues@[i];
        assert(spec_text_report(b)[arithmetic_offset(b) + 1 + i] == arithmetic_section(b.arithmetic_issues@)[1 + i]);
        assert(arithmetic_section(b.arithmetic_issues@)[1 + i] =~= seq![
                ("   "@, Style::Plain),
                ("->"@, Style::Red),
                (" Function: "@, Style::Plain),
                (b.arithmetic_issues@[i].function_name@, Style::Bold),
                (" (operation: "@, Style::Plain),
                (b.arithmetic_issues@[i].operation@, Style::Plain),
                (")"@, Style::Plain),
            ]);
    }
}

/// The text report lists every unsafe pattern, with its line and its kind in lowercase, once, in order, under its heading.
pub proof fn text_report_lists_unsafe_patterns(b: AnalysisBuckets)
    ensures
        b.unsafe_patterns@.len() > 0 ==> spec_text_report(b)[unsafe_offset(b)] == seq![
            ("\n"@, Style::Plain),
            ("⚠️"@, Style::Yellow),
            (" Found unsafe patterns!"@, Style::Plain),
        ],
        forall|i: int|
            0 <= i < b.unsafe_patterns@.len() ==> spec_text_report(b)[unsafe_offset(b) + 1 + i] == seq![
                ("   "@, Style::Plain),
                ("->"@, Style::Yellow),
                (" Line "@, Style::Plain),
                (decimal(b.unsafe_patterns@[i].line as nat), Style::Plain),
                (": "@, Style::Plain),
                (b.unsafe_patterns@[i].snippet@, Style::Plain),
                (" ("@, Style::Plain),
                (lowercase(b.unsafe_patterns@[i].pattern_type@), Style::Plain),
                (")"@, Style::Plain),
            ],
{
    lemma_report_layout(b);
    assert forall|i: int| 0 <= i < b.unsafe_patterns@.len() implies spec_text_report(b)[unsafe_offset(b) + 1 + i]
        == seq![
                ("   "@, Style::Plain),
                ("->"@, Style::Yellow),
                (" Line "@, Style::Plain),
                (decimal(b.unsafe_patterns@[i].line as nat), Style::Plain),
                (": "@, Style::Plain),
                (b.unsafe_patterns@[i].snippet@, Style::Plain),
                (" ("@, Style::Plain),
                (lowercase(b.unsafe_patterns@[i].pattern_type@), Style::Plain),
                (")"@, Style::Plain),
            ] by {
        let x = b.unsafe_patterns@[i];
        assert(spec_text_report(b)[unsafe_offset(b) + 1 + i] == unsafe_section(b.unsafe_patterns@)[1 + i]);
        assert(unsafe_section(b.unsafe_patterns@)[1 + i] =~= seq![
                ("   "@, Style::Plain),
                ("->"@, Style::Yellow),
                (" Line "@, Style::Plain),
                (decimal(b.unsafe_patterns@[i].line as nat), Style::Plain),
                (": "@, Style::Plain),
                (b.unsafe_patterns@[i].snippet@, Style::Plain),
                (" ("@, Style::Plain),
                (lowercase(b.unsafe_patterns@[i].pattern_type@), Style::Plain),
                (")"@, Style::Plain),
            ]);
    }
}

/// The text report lists every ledger size warning, with its estimated size and limit, once, in order, under its heading.
pub proof fn text_report_lists_size_warnings(b: AnalysisBuckets)
    ensures
        b.size_warnings@.len() > 0 ==> spec_text_report(b)[size_offset(b)] == seq![
            ("\n"@, Style::Plain),
            ("⚠️"@, Style::Yellow),
            (" Found ledger size issues!"@, Style::Plain),
        ],
        forall|i: int|
            0 <= i < b.size_warnings@.len() ==> spec_text_report(b)[size_offset(b) + 1 + i] == seq![
                ("   "@, Style::Plain),
                ("->"@, Style::Yellow),
                (" Struct: "@, Style::Plain),
                (b.size_warnings@[i].struct_name@, Style::Bold),
                (" ("@, Style::Plain),
                (decimal(b.size_warnings@[i].estimated_size as nat), Style::Plain),
                (" / "@, Style::Plain),
                (decimal(b.size_warnings@[i].limit as nat), Style::Plain),
                (" bytes)"@, Style::Plain),
            ],
        b.size_warnings@.len() == 0 ==> spec_text_report(b)[size_offset(b)] == seq![
            ("\n"@, Style::Plain),
            ("✅"@, Style::Green),
            (" No ledger size issues found."@, Style::Plain),
        ],
{
    lemma_report_layout(b);
    assert forall|i: int| 0 <= i < b.size_warnings@.len() implies spec_text_report(b)[size_offset(b) + 1 + i]
        == seq![
                ("   "@, Style::Plain),
                ("->"@, Style::Yellow),
                (" Struct: "@, Style::Plain),
                (b.size_warnings@[i].struct_name@, Style::Bold),
                (" ("@, Style::Plain),
                (decimal(b.size_warnings@[i].estimated_size as nat), Style::Plain),
                (" / "@, Style::Plain),
                (decimal(b.size_warnings@[i].limit as nat), Style::Plain),
                (" bytes)"@, Style::Plain),
            ] by {
        let x = b.size_warnings@[i];
        assert(spec_text_report(b)[size_offset(b) + 1 + i] == size_section(b.size_warnings@)[1 + i]);
        assert(size_section(b.size_warnings@)[1 + i] =~= seq![
                ("   "@, Style::Plain),
                ("->"@, Style::Yellow),
                (" Struct: "@, Style::Plain),
                (b.size_warnings@[i].struct_name@, Style::Bold),
                (" ("@, Style::Plain),
                (decimal(b.size_warnings@[i].estimated_size as nat), Style::Plain),
                (" / "@, Style::Plain),
                (decimal(b.size_warnings@[i].limit as nat), Style::Plain),
                (" bytes)"@, Style::Plain),
            ]);
    }
}

/// The text report lists every storage key collision once, in order, under its
/// heading, four lines each: its key value, key type, location and message.
pub proof fn text_report_lists_collisions(b: AnalysisBuckets)
    ensures
        b.collisions@.len() > 0 ==> spec_text_report(b)[collision_offset(b)] == seq![
            ("\n"@, Style::Plain),
            ("⚠️"@, Style::Yellow),
            (" Found potential Storage Key Collisions!"@, Style::Plain),
        ],
        forall|i: int|
            0 <= i < b.collisions@.len() ==> {
                &&& spec_text_report(b)[collision_offset(b) + 1 + 4 * i] == seq![
                    ("   "@, Style::Plain),
                    ("->"@, Style::Red),
                    (" Value: "@, Style::Plain),
                    (b.collisions@[i].key_value@, Style::Bold),
                ]
                &&& spec_text_report(b)[collision_offset(b) + 2 + 4 * i] == seq![
                    ("      Type: "@, Style::Plain),
                    (b.collisions@[i].key_type@, Style::Plain),
                ]
                &&& spec_text_report(b)[collision_offset(b) + 3 + 4 * i] == seq![
                    ("      Location: "@, Style::Plain),
                    (b.collisions@[i].location@, Style::Plain),
                ]
                &&& spec_text_report(b)[collision_offset(b) + 4 + 4 * i] == seq![
                    ("      Message: "@, Style::Plain),
                    (b.collisions@[i].message@, Style::Plain),
                ]
            },
        b.collisions@.len() == 0 ==> spec_text_report(b)[collision_offset(b)] == seq![
            ("\n"@, Style::Plain),
            ("✅"@, Style::Green),
            (" No storage key collisions found."@, Style::Plain),
        ],
{
    lemma_report_layout(b);
    assert forall|i: int| 0 <= i < b.collisions@.len() implies {
        &&& spec_text_report(b)[collision_offset(b) + 1 + 4 * i] == seq![
            ("   "@, Style::Plain),
            ("->"@, Style::Red),
            (" Value: "@, Style::Plain),
            (b.collisions@[i].key_value@, Style::Bold),
        ]
        &&& spec_text_report(b)[collision_offset(b) + 2 + 4 * i] == seq![
            ("      Type: "@, Style::Plain),
            (b.collisions@[i].key_type@, Style::Plain),
        ]
        &&& spec_text_report(b)[collision_offset(b) + 3 + 4 * i] == seq![
            ("      Location: "@, Style::Plain),
            (b.collisions@[i].location@, Style::Plain),
        ]
        &&& spec_text_report(b)[collision_offset(b) + 4 + 4 * i] == seq![
            ("      Message: "@, Style::Plain),
            (b.collisions@[i].message@, Style::Plain),
        ]
    } by {
        lemma_collision_line_at(b.collisions@, i);
        let lines = collision_lines(b.collisions@[i]);
        assert(lines[0] =~= seq![
            ("   "@, Style::Plain),
            ("->"@, Style::Red),
            (" Value: "@, Style::Plain),
            (b.collisions@[i].key_value@, Style::Bold),
        ]);
        assert(spec_text_report(b)[collision_offset(b) + 1 + 4 * i] == collision_section(
            b.collisions@,
        )[1 + 4 * i]);
        assert(spec_text_report(b)[collision_offset(b) + 2 + 4 * i] == collision_section(
            b.collisions@,
        )[2 + 4 * i]);
        assert(spec_text_report(b)[collision_offset(b) + 3 + 4 * i] == collision_section(
            b.collisions@,
        )[3 + 4 * i]);
        assert(spec_text_report(b)[collision_offset(b) + 4 + 4 * i] == collision_section(
            b.collisions@,
        )[4 + 4 * i]);
    }
}

/// The lines of the `i`-th collision stand at `4 * i` onwards.
proof fn lemma_collision_line_at(cs: Seq<crate::findings::StorageCollisionIssue>, i: int)
    requires
        0 <= i < cs.len(),
    ensures
        forall|k: int| 0 <= k < 4 ==> all_collision_lines(cs)[4 * i + k] == collision_lines(cs[i])[k],
    decreases cs.len(),
{
    collision_lines_count(cs.drop_last());
    if i < cs.len() - 1 {
        lemma_collision_line_at(cs.drop_last(), i);
        assert(cs.drop_last()[i] == cs[i]);
    }
}

/// Every text report ends with the closing line, right after the last section.
pub proof fn text_report_closes(b: AnalysisBuckets)
    ensures
        spec_text_report(b).len() == closing_offset(b) + 1,
        spec_text_report(b)[closing_offset(b)] == seq![
            ("\n"@, Style::Plain),
            ("✅"@, Style::Green),
            (" Static analysis complete."@, Style::Plain),
        ],
{
    lemma_report_layout(b);
    let a = auth_section(b.auth_gaps@);
    let p = panic_section(b.panics@);
    let x = arithmetic_section(b.arithmetic_issues@);
    let u = unsafe_section(b.unsafe_patterns@);
    let s = size_section(b.size_warnings@);
    let c = collision_section(b.collisions@);
    assert(spec_text_report(b) == a + p + x + u + s + c + seq![crate::text_report::closing_line()]);
}


/// The summary of a report, as the JSON report writes it: each count is the
/// number of findings of its kind (zero for the kinds no scan produces), the
/// total is their sum, and the report is critical exactly when it has an
/// authentication gap, a panic or an arithmetic issue, high exactly when it has
/// a ledger size warning, an unsafe pattern or a storage collision.
pub proof fn json_summary_counts_findings(b: AnalysisBuckets)
    requires
        b.finding_count() <= usize::MAX,
    ensures
        spec_summary(b).json_tree() == JsonTree::Object(
            seq![
                ("total_findings"@, JsonTree::Number(
                    (b.auth_gaps@.len() + b.panics@.len() + b.arithmetic_issues@.len()
                        + b.unsafe_patterns@.len() + b.size_warnings@.len()
                        + b.collisions@.len()) as u64,
                )),
                ("storage_collisions"@, JsonTree::Number(b.collisions@.len() as u64)),
                ("auth_gaps"@, JsonTree::Number(b.auth_gaps@.len() as u64)),
                ("panic_issues"@, JsonTree::Number(b.panics@.len() as u64)),
                ("arithmetic_issues"@, JsonTree::Number(b.arithmetic_issues@.len() as u64)),
                ("size_warnings"@, JsonTree::Number(b.size_warnings@.len() as u64)),
                ("unsafe_patterns"@, JsonTree::Number(b.unsafe_patterns@.len() as u64)),
                ("custom_rule_matches"@, JsonTree::Number(0)),
                ("event_issues"@, JsonTree::Number(0)),
                ("unhandled_results"@, JsonTree::Number(0)),
                ("smt_issues"@, JsonTree::Number(0)),
                ("sep41_issues"@, JsonTree::Number(0)),
                ("timed_out_files"@, JsonTree::Number(0)),
                ("has_critical"@, JsonTree::Bool(
                    b.auth_gaps@.len() > 0 || b.panics@.len() > 0 || b.arithmetic_issues@.len() > 0,
                )),
                ("has_high"@, JsonTree::Bool(
                    b.size_warnings@.len() > 0 || b.unsafe_patterns@.len() > 0 || b.collisions@.len() > 0,
                )),
            ],
        ),
{
}

/// A report is critical exactly when it has an authentication gap, a panic or
/// an arithmetic issue, and high exactly when it has a ledger size warning, an
/// unsafe pattern or a storage collision.
pub proof fn critical_and_high_kinds(b: AnalysisBuckets)
    ensures
        b.spec_has_critical() <==> (b.auth_gaps@.len() > 0 || b.panics@.len() > 0
            || b.arithmetic_issues@.len() > 0),
        b.spec_has_high() <==> (b.size_warnings@.len() > 0 || b.unsafe_patterns@.len() > 0
            || b.collisions@.len() > 0),
{
}

/// The members of the JSON report, in order: its metadata, summary and coded
/// findings, the code catalogue, and the findings as they were reported.
pub proof fn json_report_members(r: JsonReport)
    ensures
        r.json_tree() == JsonTree::Object(
            seq![
                ("schema_version"@, JsonTree::Text(r.schema_version@)),
                ("metadata"@, JsonTree::Object(
                    seq![
                        ("version"@, JsonTree::Text(r.metadata.version@)),
                        ("timestamp"@, JsonTree::Text(r.metadata.timestamp@)),
                        ("project_path"@, JsonTree::Text(r.metadata.project_path@)),
                        ("format"@, JsonTree::Text(r.metadata.format@)),
                        ("timeout_secs"@, JsonTree::Number(r.metadata.timeout_secs)),
                    ],
                )),
                ("summary"@, r.summary.json_tree()),
                ("findings"@, JsonTree::Object(
                    seq![
                        ("storage_collisions"@, list_tree(r.findings.storage_collisions@)),
                        ("ledger_size_warnings"@, list_tree(r.findings.ledger_size_warnings@)),
                        ("unsafe_patterns"@, list_tree(r.findings.unsafe_patterns@)),
                        ("auth_gaps"@, list_tree(r.findings.auth_gaps@)),
                        ("panic_issues"@, list_tree(r.findings.panic_issues@)),
                        ("arithmetic_issues"@, list_tree(r.findings.arithmetic_issues@)),
                        ("custom_rules"@, list_tree(r.findings.custom_rules@)),
                        ("event_issues"@, list_tree(r.findings.event_issues@)),
                        ("unhandled_results"@, list_tree(r.findings.unhandled_results@)),
                        ("upgrade_risks"@, list_tree(r.findings.upgrade_risks@)),
                        ("smt_issues"@, list_tree(r.findings.smt_issues@)),
                        ("sep41_issues"@, list_tree(r.findings.sep41_issues@)),
                        ("timeouts"@, list_tree(r.findings.timeouts@)),
                    ],
                )),
                ("error_codes"@, list_tree(r.error_codes@)),
                ("vulnerability_db_version"@, JsonTree::Text(r.vulnerability_db_version@)),
                ("timed_out_files"@, list_tree(r.timed_out_files@)),
                ("sep41_checked_contracts"@, list_tree(r.sep41_checked_contracts@)),
                ("storage_collisions"@, list_tree(r.storage_collisions@)),
                ("ledger_size_warnings"@, list_tree(r.ledger_size_warnings@)),
                ("unsafe_patterns"@, list_tree(r.unsafe_patterns@)),
                ("auth_gaps"@, list_tree(r.auth_gaps@)),
                ("panic_issues"@, list_tree(r.panic_issues@)),
                ("arithmetic_issues"@, list_tree(r.arithmetic_issues@)),
                ("custom_rules"@, list_tree(r.custom_rules@)),
                ("event_issues"@, list_tree(r.event_issues@)),
                ("unhandled_results"@, list_tree(r.unhandled_results@)),
                ("upgrade_reports"@, list_tree(r.upgrade_reports@)),
                ("smt_issues"@, list_tree(r.smt_issues@)),
                ("sep41_issues"@, list_tree(r.sep41_issues@)),
                ("call_graph"@, list_tree(r.call_graph@)),
                ("vulnerability_db_matches"@, list_tree(r.vulnerability_db_matches@)),
            ],
        ),
{
}

/// A list is written as an array with one value per item, in order.
pub proof fn json_list_items<T: ToJson>(items: Seq<T>)
    ensures
        list_tree(items) is Array,
        list_tree(items)->Array_0.len() == items.len(),
        forall|i: int| 0 <= i < items.len() ==> list_tree(items)->Array_0[i] == items[i].json_tree(),
{
}

/// A string in a list is written as the text it holds; as an authentication
/// gap with its code, as the code and the function's name.
pub proof fn json_of_text(s: String, code: FindingCode)
    ensures
        s.json_tree() == JsonTree::Text(s@),
        (Coded { code, finding: s }).json_tree() == JsonTree::Object(
            seq![("code"@, JsonTree::Text(code_name(code))), ("function"@, JsonTree::Text(s@))],
        ),
{
    assert((Coded { code, finding: s }).json_tree()->Object_0 =~= seq![
        ("code"@, JsonTree::Text(code_name(code))),
        ("function"@, JsonTree::Text(s@)),
    ]);
}

/// An entry of the code catalogue is written as the code, its category and its
/// description; a code is spelled `S` followed by its number in three digits.
pub proof fn json_of_code(c: FindingCode)
    ensures
        c.json_tree() == JsonTree::Object(
            seq![
                ("code"@, JsonTree::Text(code_name(c))),
                ("category"@, JsonTree::Text(code_category(c))),
                ("description"@, JsonTree::Text(code_description(c))),
            ],
        ),
        code_name(c) == seq![
            'S',
            '0',
            digit_char(code_number(c) / 10),
            digit_char(code_number(c) % 10),
        ],
{
    reveal_strlit("S000");
    reveal_strlit("S001");
    reveal_strlit("S002");
    reveal_strlit("S003");
    reveal_strlit("S004");
    reveal_strlit("S005");
    reveal_strlit("S006");
    reveal_strlit("S007");
    reveal_strlit("S008");
    reveal_strlit("S009");
    reveal_strlit("S010");
    reveal_strlit("S011");
    reveal_strlit("S012");
    assert(code_name(c) =~= seq![
        'S',
        '0',
        digit_char(code_number(c) / 10),
        digit_char(code_number(c) % 10),
    ]);
}

/// How the report writes a StorageCollisionIssue: an object of its members, in order; with its
/// code, the code comes first.
pub proof fn json_of_c(c: StorageCollisionIssue, code: FindingCode)
    ensures
        c.json_tree() == JsonTree::Object(
            seq![
                ("key_value"@, JsonTree::Text(c.key_value@)),
                ("key_type"@, JsonTree::Text(c.key_type@)),
                ("location"@, JsonTree::Text(c.location@)),
                ("message"@, JsonTree::Text(c.message@)),
            ],
        ),
        (Coded { code, finding: c }).json_tree() == JsonTree::Object(
            seq![
                ("code"@, JsonTree::Text(code_name(code))),
                ("key_value"@, JsonTree::Text(c.key_value@)),
                ("key_type"@, JsonTree::Text(c.key_type@)),
                ("location"@, JsonTree::Text(c.location@)),
                ("message"@, JsonTree::Text(c.message@)),
            ],
        ),
{
    assert((Coded { code, finding: c }).json_tree()->Object_0 =~= seq![
                ("code"@, JsonTree::Text(code_name(code))),
                ("key_value"@, JsonTree::Text(c.key_value@)),
                ("key_type"@, JsonTree::Text(c.key_type@)),
                ("location"@, JsonTree::Text(c.location@)),
                ("message"@, JsonTree::Text(c.message@)),
            ]);
}

/// How the report writes a SizeWarning: an object of its members, in order; with its
/// code, the code comes first.
pub proof fn json_of_w(w: SizeWarning, code: FindingCode)
    ensures
        w.json_tree() == JsonTree::Object(
            seq![
                ("struct_name"@, JsonTree::Text(w.struct_name@)),
                ("estimated_size"@, JsonTree::Number(w.estimated_size as u64)),
                ("limit"@, JsonTree::Number(w.limit as u64)),
                ("level"@, JsonTree::Text(w.level@)),
            ],
        ),
        (Coded { code, finding: w }).json_tree() == JsonTree::Object(
            seq![
                ("code"@, JsonTree::Text(code_name(code))),
                ("struct_name"@, JsonTree::Text(w.struct_name@)),
                ("estimated_size"@, JsonTree::Number(w.estimated_size as u64)),
                ("limit"@, JsonTree::Number(w.limit as u64)),
                ("level"@, JsonTree::Text(w.level@)),
            ],
        ),
{
    assert((Coded { code, finding: w }).json_tree()->Object_0 =~= seq![
                ("code"@, JsonTree::Text(code_name(code))),
                ("struct_name"@, JsonTree::Text(w.struct_name@)),
                ("estimated_size"@, JsonTree::Number(w.estimated_size as u64)),
                ("limit"@, JsonTree::Number(w.limit as u64)),
                ("level"@, JsonTree::Text(w.level@)),
            ]);
}

/// How the report writes a UnsafePattern: an object of its members, in order; with its
/// code, the code comes first.
pub proof fn json_of_u(u: UnsafePattern, code: FindingCode)
    ensures
        u.json_tree() == JsonTree::Object(
            seq![
                ("pattern_type"@, JsonTree::Text(u.pattern_type@)),
                ("line"@, JsonTree::Number(u.line as u64)),
                ("snippet"@, JsonTree::Text(u.snippet@)),
            ],
        ),
        (Coded { code, finding: u }).json_tree() == JsonTree::Object(
            seq![
                ("code"@, JsonTree::Text(code_name(code))),
                ("pattern_type"@, JsonTree::Text(u.pattern_type@)),
                ("line"@, JsonTree::Number(u.line as u64)),
                ("snippet"@, JsonTree::Text(u.snippet@)),
            ],
        ),
{
    assert((Coded { code, finding: u }).json_tree()->Object_0 =~= seq![
                ("code"@, JsonTree::Text(code_name(code))),
                ("pattern_type"@, JsonTree::Text(u.pattern_type@)),
                ("line"@, JsonTree::Number(u.line as u64)),
                ("snippet"@, JsonTree::Text(u.snippet@)),
            ]);
}

/// How the report writes a PanicIssue: an object of its members, in order; with its
/// code, the code comes first.
pub proof fn json_of_p(p: PanicIssue, code: FindingCode)
    ensures
        p.json_tree() == JsonTree::Object(
            seq![
                ("function_name"@, JsonTree::Text(p.function_name@)),
                ("issue_type"@, JsonTree::Text(p.issue_type@)),
                ("location"@, JsonTree::Text(p.location@)),
            ],
        ),
        (Coded { code, finding: p }).json_tree() == JsonTree::Object(
            seq![
                ("code"@, JsonTree::Text(code_name(code))),
                ("function_name"@, JsonTree::Text(p.function_name@)),
                ("issue_type"@, JsonTree::Text(p.issue_type@)),
                ("location"@, JsonTree::Text(p.location@)),
            ],
        ),
{
    assert((Coded { code, finding: p }).json_tree()->Object_0 =~= seq![
                ("code"@, JsonTree::Text(code_name(code))),
                ("function_name"@, JsonTree::Text(p.function_name@)),
                ("issue_type"@, JsonTree::Text(p.issue_type@)),
                ("location"@, JsonTree::Text(p.location@)),
            ]);
}

/// How the report writes a ArithmeticIssue: an object of its members, in order; with its
/// code, the code comes first.
pub proof fn json_of_a(a: ArithmeticIssue, code: FindingCode)
    ensures
        a.json_tree() == JsonTree::Object(
            seq![
                ("function_name"@, JsonTree::Text(a.function_name@)),
                ("operation"@, JsonTree::Text(a.operation@)),
                ("suggestion"@, JsonTree::Text(a.suggestion@)),
                ("location"@, JsonTree::Text(a.location@)),
            ],
        ),
        (Coded { code, finding: a }).json_tree() == JsonTree::Object(
            seq![
                ("code"@, JsonTree::Text(code_name(code))),
                ("function_name"@, JsonTree::Text(a.function_name@)),
                ("operation"@, JsonTree::Text(a.operation@)),
                ("suggestion"@, JsonTree::Text(a.suggestion@)),
                ("location"@, JsonTree::Text(a.location@)),
            ],
        ),
{
    assert((Coded { code, finding: a }).json_tree()->Object_0 =~= seq![
                ("code"@, JsonTree::Text(code_name(code))),
                ("function_name"@, JsonTree::Text(a.function_name@)),
                ("operation"@, JsonTree::Text(a.operation@)),
                ("suggestion"@, JsonTree::Text(a.suggestion@)),
                ("location"@, JsonTree::Text(a.location@)),
            ]);
}

/// A directory is a Soroban project exactly when its `Cargo.toml` was read and
/// names `soroban-sdk`, whatever the directory's name (also with no name, as
/// for `.`).
pub proof fn directory_verdict_reads_only_the_manifest(
    file_name: Option<Seq<char>>,
    manifest: Option<Seq<char>>,
)
    ensures
        spec_is_soroban_project(PathKind::Directory, file_name, manifest) == (
        manifest matches Some(content) && occurs_in(content, "soroban-sdk"@)),
        spec_manifest_source(PathKind::Directory, file_name) == ManifestSource::CargoTomlInside,
        spec_analysis_scope(PathKind::Directory, file_name) == AnalysisScope::WalkDirectory,
{
}

/// A file is a Soroban project exactly when its name ends in `.rs` after at
/// least one character, or it is a `Cargo.toml` whose content names
/// `soroban-sdk`; nothing else on disk is.
pub proof fn file_verdicts(name: Seq<char>, manifest: Option<Seq<char>>)
    ensures
        spec_is_soroban_project(PathKind::File, Some(name), manifest) == ((name.len() > 3
            && name[name.len() - 3] == '.' && name[name.len() - 2] == 'r' && name[name.len() - 1]
            == 's') || (name == "Cargo.toml"@ && (manifest matches Some(content) && occurs_in(
            content,
            "soroban-sdk"@,
        )))),
        !spec_is_soroban_project(PathKind::File, None, manifest),
        !spec_is_soroban_project(PathKind::Missing, Some(name), manifest),
{
    reveal_strlit("Cargo.toml");
}

/// A walk descends into every directory whatever its name, analyzes exactly the
/// files whose name ends in `.rs` after at least one character, and skips the rest.
pub proof fn walk_descends_into_every_directory(file_name: Option<Seq<char>>)
    ensures
        spec_entry_action(true, file_name) == EntryAction::Descend,
        spec_entry_action(false, file_name) == (if (file_name matches Some(name) && name.len() > 3
            && name[name.len() - 3] == '.' && name[name.len() - 2] == 'r' && name[name.len() - 1]
            == 's') {
            EntryAction::Analyze
        } else {
            EntryAction::Skip
        }),
{
}


/// Coding a list keeps every finding, in order, each with the given code.
pub proof fn coding_keeps_findings<T>(items: Seq<T>, code: FindingCode)
    ensures
        coded(items, code).len() == items.len(),
        forall|i: int|
            0 <= i < items.len() ==> coded(items, code)[i] == (Coded { code, finding: items[i] }),
{
}

/// A file named `Cargo.toml` needs itself read and stands for its directory;
/// a Rust source file needs nothing read and is analysed on its own.
pub proof fn file_manifest_and_scope(name: Seq<char>)
    ensures
        spec_manifest_source(PathKind::File, Some(name)) == (if name == "Cargo.toml"@ {
            ManifestSource::ThisFile
        } else {
            ManifestSource::NotNeeded
        }),
        name == "Cargo.toml"@ ==> spec_analysis_scope(PathKind::File, Some(name))
            == AnalysisScope::WalkManifestDirectory,
        (name.len() > 3 && name[name.len() - 3] == '.' && name[name.len() - 2] == 'r'
            && name[name.len() - 1] == 's') ==> spec_analysis_scope(PathKind::File, Some(name))
            == AnalysisScope::SingleFile,
        spec_manifest_source(PathKind::Missing, Some(name)) == ManifestSource::NotNeeded,
        spec_manifest_source(PathKind::File, None) == ManifestSource::NotNeeded,
        spec_analysis_scope(PathKind::File, None) == AnalysisScope::Nothing,
{
    reveal_strlit("Cargo.toml");
}

/// The message for a path that is not a Soroban project: the path, then this text.
pub proof fn not_a_project_wording()
    ensures
        not_a_project_tail()
            == " is not a valid Soroban project. (Missing Cargo.toml with 'soroban-sdk' dependency)"@,
{
}

/// The number that a string of decimal digits denotes.
pub open spec fn digits_value(s: Seq<char>) -> nat
    decreases s.len(),
{
    if s.len() == 0 {
        0
    } else {
        digits_value(s.drop_last()) * 10 + ((s.last() as nat) - 48) as nat
    }
}

/// A digit character stands for its digit.
proof fn lemma_digit_char_value(d: nat)
    requires
        d < 10,
    ensures
        (digit_char(d) as nat) == 48 + d,
        '0' <= digit_char(d) <= '9',
{
}

/// The decimal rendering of a number is made of decimal digits, starts with a
/// nonzero digit unless the number is zero, and denotes the number.
pub proof fn decimal_denotes_its_number(n: nat)
    ensures
        decimal(n).len() > 0,
        forall|i: int| 0 <= i < decimal(n).len() ==> '0' <= #[trigger] decimal(n)[i] <= '9',
        n > 0 ==> decimal(n)[0] != '0',
        n == 0 ==> decimal(n) == seq!['0'],
        digits_value(decimal(n)) == n,
    decreases n,
{
    if n >= 10 {
        decimal_denotes_its_number(n / 10);
        let d = decimal(n);
        assert(d.drop_last() =~= decimal(n / 10));
        assert forall|i: int| 0 <= i < d.len() implies '0' <= #[trigger] d[i] <= '9' by {
            if i < d.len() - 1 {
                assert(d[i] == decimal(n / 10)[i]);
            }
        }
        assert(d[0] == decimal(n / 10)[0]);
        lemma_digit_char_value(n % 10);
        assert(d.last() == digit_char(n % 10));
        assert(digits_value(d) == digits_value(decimal(n / 10)) * 10 + n % 10);
    } else {
        lemma_digit_char_value(n);
        assert(decimal(n).drop_last() =~= Seq::<char>::empty());
        assert(digits_value(decimal(n)) == digits_value(Seq::<char>::empty()) * 10 + n);
    }
}

/// Escaping for a JSON string goes character by character: the escape of two
/// strings put together is their escapes put together.
pub proof fn json_escape_concatenates(a: Seq<char>, b: Seq<char>)
    ensures
        json_escaped(a + b) == json_escaped(a) + json_escaped(b),
    decreases b.len(),
{
    if b.len() == 0 {
        assert(a + b =~= a);
        assert(json_escaped(b) =~= Seq::<char>::empty());
        assert(json_escaped(a) + json_escaped(b) =~= json_escaped(a));
    } else {
        json_escape_concatenates(a, b.drop_last());
        assert((a + b).drop_last() =~= a + b.drop_last());
        assert(json_escaped(a + b) =~= json_escaped(a) + json_escaped(b));
    }
}

/// How single characters are escaped for a JSON string: a quote and a backslash
/// get a backslash before them, a control character becomes `\u00` and two hex
/// digits, and any other character stands as it is.
pub proof fn json_escape_of_one_character(c: char)
    ensures
        c == '"' ==> json_escaped(seq![c]) == seq!['\\', '"'],
        c == '\\' ==> json_escaped(seq![c]) == seq!['\\', '\\'],
        c == '\n' ==> json_escaped(seq![c]) == seq!['\\', 'u', '0', '0', '0', 'a'],
        c == '\t' ==> json_escaped(seq![c]) == seq!['\\', 'u', '0', '0', '0', '9'],
        (c as u32) < 32 ==> json_escaped(seq![c]).len() == 6 && json_escaped(seq![c])[0] == '\\',
        c != '"' && c != '\\' && (c as u32) >= 32 ==> json_escaped(seq![c]) == seq![c],
{
    let one = seq![c];
    assert(one.drop_last() =~= Seq::<char>::empty());
    assert(json_escaped(one.drop_last()) == Seq::<char>::empty());
    assert(one.last() == c);
    assert(json_escaped(one) == json_escaped(one.drop_last()) + crate::text::json_escaped_char(c));
    assert(json_escaped(one) =~= crate::text::json_escaped_char(c));
}

} // verus!
