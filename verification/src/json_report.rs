//! The machine-readable (`sanctifier-ci-v1`) report of an analysis, as values:
//! what the report holds, member by member. Writing it out as JSON is up to the printer.
use vstd::prelude::*;

use crate::codes::{code_category, code_description, code_name, spec_catalogue, FindingCode};
use crate::json_tree::{
    array_of, list_tree, member, member_trees, number_value, object_value, str_value, text_value,
    JsonMember, JsonRecord, JsonTree, JsonValue, ToJson,
};
use crate::findings::{
    AnalysisBuckets, ArithmeticIssue, PanicIssue, SizeWarning, StorageCollisionIssue,
    UnsafePattern,
};

verus! {

/// A finding together with its code.
pub struct Coded<T> {
    pub code: FindingCode,
    pub finding: T,
}

/// Every finding of a list, each with `code`.
pub open spec fn coded<T>(items: Seq<T>, code: FindingCode) -> Seq<Coded<T>> {
    items.map_values(|x: T| Coded { code, finding: x })
}

/// The counts and flags of a report.
pub struct ReportSummary {
    pub total_findings: usize,
    pub storage_collisions: usize,
    pub auth_gaps: usize,
    pub panic_issues: usize,
    pub arithmetic_issues: usize,
    pub size_warnings: usize,
    pub unsafe_patterns: usize,
    pub custom_rule_matches: usize,
    pub event_issues: usize,
    pub unhandled_results: usize,
    pub smt_issues: usize,
    pub sep41_issues: usize,
    pub timed_out_files: usize,
    /// Some finding is of a critical kind.
    pub has_critical: bool,
    /// Some finding is of a high kind.
    pub has_high: bool,
}

/// Where and when a report was made.
pub struct ReportMetadata {
    /// The analyzer's version.
    pub version: String,
    pub timestamp: String,
    /// The directory the analyzer ran in.
    pub project_path: String,
    /// The report format's name, `sanctifier-ci-v1`.
    pub format: String,
    pub timeout_secs: u64,
}

/// The findings of a report, each with its code. The lists of kinds that no scan
/// of this analysis produces stay empty.
pub struct CodedFindings {
    pub storage_collisions: Vec<Coded<StorageCollisionIssue>>,
    pub ledger_size_warnings: Vec<Coded<SizeWarning>>,
    pub unsafe_patterns: Vec<Coded<UnsafePattern>>,
    /// The names of the functions with an authentication gap.
    pub auth_gaps: Vec<Coded<String>>,
    pub panic_issues: Vec<Coded<PanicIssue>>,
    pub arithmetic_issues: Vec<Coded<ArithmeticIssue>>,
    pub custom_rules: Vec<String>,
    pub event_issues: Vec<String>,
    pub unhandled_results: Vec<String>,
    pub upgrade_risks: Vec<String>,
    pub smt_issues: Vec<String>,
    pub sep41_issues: Vec<String>,
    pub timeouts: Vec<String>,
}

/// The whole machine-readable report. The lists of kinds that no scan of this
/// analysis produces stay empty.
pub struct JsonReport {
    pub schema_version: String,
    pub metadata: ReportMetadata,
    pub summary: ReportSummary,
    pub findings: CodedFindings,
    /// The catalogue of codes; each code's category and description go with it.
    pub error_codes: Vec<FindingCode>,
    pub vulnerability_db_version: String,
    pub timed_out_files: Vec<String>,
    pub sep41_checked_contracts: Vec<String>,
    pub storage_collisions: Vec<StorageCollisionIssue>,
    pub ledger_size_warnings: Vec<SizeWarning>,
    pub unsafe_patterns: Vec<UnsafePattern>,
    pub auth_gaps: Vec<String>,
    pub panic_issues: Vec<PanicIssue>,
    pub arithmetic_issues: Vec<ArithmeticIssue>,
    pub custom_rules: Vec<String>,
    pub event_issues: Vec<String>,
    pub unhandled_results: Vec<String>,
    pub upgrade_reports: Vec<String>,
    pub smt_issues: Vec<String>,
    pub sep41_issues: Vec<String>,
    pub call_graph: Vec<String>,
    pub vulnerability_db_matches: Vec<String>,
}

/// The summary of the findings held in `b`.
pub open spec fn spec_summary(b: AnalysisBuckets) -> ReportSummary {
    ReportSummary {
        total_findings: b.finding_count() as usize,
        storage_collisions: b.collisions@.len() as usize,
        auth_gaps: b.auth_gaps@.len() as usize,
        panic_issues: b.panics@.len() as usize,
        arithmetic_issues: b.arithmetic_issues@.len() as usize,
        size_warnings: b.size_warnings@.len() as usize,
        unsafe_patterns: b.unsafe_patterns@.len() as usize,
        custom_rule_matches: 0,
        event_issues: 0,
        unhandled_results: 0,
        smt_issues: 0,
        sep41_issues: 0,
        timed_out_files: 0,
        has_critical: b.spec_has_critical(),
        has_high: b.spec_has_high(),
    }
}

/// The summary of an analysis's findings: the total, the count of each kind
/// (zero for the kinds no scan produces) and whether some finding is critical or high.
pub fn summarize(buckets: &AnalysisBuckets) -> (r: ReportSummary)
    requires
        buckets.finding_count() <= usize::MAX,
    ensures
        r == spec_summary(*buckets),
{
    let total = match buckets.total_findings() {
        Some(n) => n,
        None => 0,
    };
    ReportSummary {
        total_findings: total,
        storage_collisions: buckets.collisions.len(),
        auth_gaps: buckets.auth_gaps.len(),
        panic_issues: buckets.panics.len(),
        arithmetic_issues: buckets.arithmetic_issues.len(),
        size_warnings: buckets.size_warnings.len(),
        unsafe_patterns: buckets.unsafe_patterns.len(),
        custom_rule_matches: 0,
        event_issues: 0,
        unhandled_results: 0,
        smt_issues: 0,
        sep41_issues: 0,
        timed_out_files: 0,
        has_critical: buckets.has_critical(),
        has_high: buckets.has_high(),
    }
}

/// Copies of `items`, each with `code`.
fn with_code<T: Clone>(items: &Vec<T>, code: FindingCode) -> (r: Vec<Coded<T>>)
    ensures
        r@.len() == items@.len(),
        forall|i: int|
            0 <= i < items@.len() ==> #[trigger] r@[i].code == code && cloned(
                items@[i],
                r@[i].finding,
            ),
{
    let mut r: Vec<Coded<T>> = Vec::new();
    let mut i: usize = 0;
    while i < items.len()
        invariant
            i <= items.len(),
            r@.len() == i,
            forall|k: int|
                0 <= k < i ==> #[trigger] r@[k].code == code && cloned(items@[k], r@[k].finding),
        decreases items.len() - i,
    {
        r.push(Coded { code, finding: items[i].clone() });
        i += 1;
    }
    r
}

fn coded_collisions(items: &Vec<StorageCollisionIssue>, code: FindingCode) -> (r: Vec<
    Coded<StorageCollisionIssue>,
>)
    ensures
        r@ == coded(items@, code),
{
    let r = with_code(items, code);
    assert forall|i: int| 0 <= i < items@.len() implies r@[i] == (Coded {
        code,
        finding: items@[i],
    }) by {
        assert(r@[i].code == code && cloned(items@[i], r@[i].finding));
    }
    assert(r@ =~= coded(items@, code));
    r
}

fn coded_size_warnings(items: &Vec<SizeWarning>, code: FindingCode) -> (r: Vec<Coded<SizeWarning>>)
    ensures
        r@ == coded(items@, code),
{
    let r = with_code(items, code);
    assert forall|i: int| 0 <= i < items@.len() implies r@[i] == (Coded {
        code,
        finding: items@[i],
    }) by {
        assert(r@[i].code == code && cloned(items@[i], r@[i].finding));
    }
    assert(r@ =~= coded(items@, code));
    r
}

fn coded_unsafe_patterns(items: &Vec<UnsafePattern>, code: FindingCode) -> (r: Vec<
    Coded<UnsafePattern>,
>)
    ensures
        r@ == coded(items@, code),
{
    let r = with_code(items, code);
    assert forall|i: int| 0 <= i < items@.len() implies r@[i] == (Coded {
        code,
        finding: items@[i],
    }) by {
        assert(r@[i].code == code && cloned(items@[i], r@[i].finding));
    }
    assert(r@ =~= coded(items@, code));
    r
}

fn coded_auth_gaps(items: &Vec<String>, code: FindingCode) -> (r: Vec<Coded<String>>)
    ensures
        r@ == coded(items@, code),
{
    let r = with_code(items, code);
    assert forall|i: int| 0 <= i < items@.len() implies r@[i] == (Coded {
        code,
        finding: items@[i],
    }) by {
        assert(r@[i].code == code && cloned(items@[i], r@[i].finding));
    }
    assert(r@ =~= coded(items@, code));
    r
}

fn coded_panics(items: &Vec<PanicIssue>, code: FindingCode) -> (r: Vec<Coded<PanicIssue>>)
    ensures
        r@ == coded(items@, code),
{
    let r = with_code(items, code);
    assert forall|i: int| 0 <= i < items@.len() implies r@[i] == (Coded {
        code,
        finding: items@[i],
    }) by {
        assert(r@[i].code == code && cloned(items@[i], r@[i].finding));
    }
    assert(r@ =~= coded(items@, code));
    r
}

fn coded_arithmetic(items: &Vec<ArithmeticIssue>, code: FindingCode) -> (r: Vec<
    Coded<ArithmeticIssue>,
>)
    ensures
        r@ == coded(items@, code),
{
    let r = with_code(items, code);
    assert forall|i: int| 0 <= i < items@.len() implies r@[i] == (Coded {
        code,
        finding: items@[i],
    }) by {
        assert(r@[i].code == code && cloned(items@[i], r@[i].finding));
    }
    assert(r@ =~= coded(items@, code));
    r
}

impl CodedFindings {
    /// The lists of kinds that no scan of this analysis produces are empty.
    pub open spec fn unscanned_empty(&self) -> bool {
        &&& self.custom_rules@.len() == 0
        &&& self.event_issues@.len() == 0
        &&& self.unhandled_results@.len() == 0
        &&& self.upgrade_risks@.len() == 0
        &&& self.smt_issues@.len() == 0
        &&& self.sep41_issues@.len() == 0
        &&& self.timeouts@.len() == 0
    }
}

impl JsonReport {
    /// The lists of kinds that no scan of this analysis produces are empty.
    pub open spec fn unscanned_empty(&self) -> bool {
        &&& self.findings.unscanned_empty()
        &&& self.timed_out_files@.len() == 0
        &&& self.sep41_checked_contracts@.len() == 0
        &&& self.custom_rules@.len() == 0
        &&& self.event_issues@.len() == 0
        &&& self.unhandled_results@.len() == 0
        &&& self.upgrade_reports@.len() == 0
        &&& self.smt_issues@.len() == 0
        &&& self.sep41_issues@.len() == 0
        &&& self.call_graph@.len() == 0
        &&& self.vulnerability_db_matches@.len() == 0
    }
}

/// The machine-readable report of an analysis. `version` is the analyzer's
/// version, `timestamp` the time of the report and `working_dir` the directory
/// the analyzer ran in, `None` where it could not be read (the report then names
/// it `unknown`). The findings stand in it twice: with their codes (`S001`
/// authentication gaps, `S002` panics, `S003` arithmetic, `S004` ledger sizes,
/// `S005` storage collisions, `S006` unsafe patterns) and as they were reported.
pub fn build_json_report(
    buckets: AnalysisBuckets,
    version: &str,
    timestamp: &str,
    working_dir: Option<&str>,
) -> (r: JsonReport)
    requires
        buckets.finding_count() <= usize::MAX,
    ensures
        r.schema_version@ == "1.0.0"@,
        r.metadata.version@ == version@,
        r.metadata.timestamp@ == timestamp@,
        r.metadata.project_path@ == (match working_dir {
            Some(dir) => dir@,
            None => "unknown"@,
        }),
        r.metadata.format@ == "sanctifier-ci-v1"@,
        r.metadata.timeout_secs == 0,
        r.summary == spec_summary(buckets),
        r.findings.storage_collisions@ == coded(buckets.collisions@, FindingCode::S005),
        r.findings.ledger_size_warnings@ == coded(buckets.size_warnings@, FindingCode::S004),
        r.findings.unsafe_patterns@ == coded(buckets.unsafe_patterns@, FindingCode::S006),
        r.findings.auth_gaps@ == coded(buckets.auth_gaps@, FindingCode::S001),
        r.findings.panic_issues@ == coded(buckets.panics@, FindingCode::S002),
        r.findings.arithmetic_issues@ == coded(buckets.arithmetic_issues@, FindingCode::S003),
        r.error_codes@ == spec_catalogue(),
        r.vulnerability_db_version@ == "unknown"@,
        r.storage_collisions@ == buckets.collisions@,
        r.ledger_size_warnings@ == buckets.size_warnings@,
        r.unsafe_patterns@ == buckets.unsafe_patterns@,
        r.auth_gaps@ == buckets.auth_gaps@,
        r.panic_issues@ == buckets.panics@,
        r.arithmetic_issues@ == buckets.arithmetic_issues@,
        r.unscanned_empty(),
{
    let summary = summarize(&buckets);
    let findings = CodedFindings {
        storage_collisions: coded_collisions(&buckets.collisions, FindingCode::S005),
        ledger_size_warnings: coded_size_warnings(&buckets.size_warnings, FindingCode::S004),
        unsafe_patterns: coded_unsafe_patterns(&buckets.unsafe_patterns, FindingCode::S006),
        auth_gaps: coded_auth_gaps(&buckets.auth_gaps, FindingCode::S001),
        panic_issues: coded_panics(&buckets.panics, FindingCode::S002),
        arithmetic_issues: coded_arithmetic(&buckets.arithmetic_issues, FindingCode::S003),
        custom_rules: Vec::new(),
        event_issues: Vec::new(),
        unhandled_results: Vec::new(),
        upgrade_risks: Vec::new(),
        smt_issues: Vec::new(),
        sep41_issues: Vec::new(),
        timeouts: Vec::new(),
    };
    let metadata = ReportMetadata {
        version: String::from_str(version),
        timestamp: String::from_str(timestamp),
        project_path: match working_dir {
            Some(dir) => String::from_str(dir),
            None => String::from_str("unknown"),
        },
        format: String::from_str("sanctifier-ci-v1"),
        timeout_secs: 0,
    };
    let AnalysisBuckets {
        auth_gaps,
        panics,
        arithmetic_issues,
        unsafe_patterns,
        size_warnings,
        collisions,
    } = buckets;
    JsonReport {
        schema_version: String::from_str("1.0.0"),
        metadata,
        summary,
        findings,
        error_codes: FindingCode::catalogue(),
        vulnerability_db_version: String::from_str("unknown"),
        timed_out_files: Vec::new(),
        sep41_checked_contracts: Vec::new(),
        storage_collisions: collisions,
        ledger_size_warnings: size_warnings,
        unsafe_patterns,
        auth_gaps,
        panic_issues: panics,
        arithmetic_issues,
        custom_rules: Vec::new(),
        event_issues: Vec::new(),
        unhandled_results: Vec::new(),
        upgrade_reports: Vec::new(),
        smt_issues: Vec::new(),
        sep41_issues: Vec::new(),
        call_graph: Vec::new(),
        vulnerability_db_matches: Vec::new(),
    }
}


// The JSON layout of the report: which members each part has, in order.

impl JsonRecord for StorageCollisionIssue {
    open spec fn json_members(&self) -> Seq<(Seq<char>, JsonTree)> {
        seq![
            ("key_value"@, JsonTree::Text(self.key_value@)),
            ("key_type"@, JsonTree::Text(self.key_type@)),
            ("location"@, JsonTree::Text(self.location@)),
            ("message"@, JsonTree::Text(self.message@)),
        ]
    }

    fn to_members(&self) -> (r: Vec<JsonMember>) {
        let r = vec![
            member("key_value", text_value(&self.key_value)),
            member("key_type", text_value(&self.key_type)),
            member("location", text_value(&self.location)),
            member("message", text_value(&self.message)),
        ];
        assert(member_trees(r@) =~= self.json_members());
        r
    }
}

impl ToJson for StorageCollisionIssue {
    open spec fn json_tree(&self) -> JsonTree {
        JsonTree::Object(self.json_members())
    }

    fn to_json(&self) -> (r: JsonValue) {
        object_value(self.to_members())
    }
}

impl JsonRecord for SizeWarning {
    open spec fn json_members(&self) -> Seq<(Seq<char>, JsonTree)> {
        seq![
            ("struct_name"@, JsonTree::Text(self.struct_name@)),
            ("estimated_size"@, JsonTree::Number(self.estimated_size as u64)),
            ("limit"@, JsonTree::Number(self.limit as u64)),
            ("level"@, JsonTree::Text(self.level@)),
        ]
    }

    fn to_members(&self) -> (r: Vec<JsonMember>) {
        let r = vec![
            member("struct_name", text_value(&self.struct_name)),
            member("estimated_size", number_value(self.estimated_size)),
            member("limit", number_value(self.limit)),
            member("level", text_value(&self.level)),
        ];
        assert(member_trees(r@) =~= self.json_members());
        r
    }
}

impl ToJson for SizeWarning {
    open spec fn json_tree(&self) -> JsonTree {
        JsonTree::Object(self.json_members())
    }

    fn to_json(&self) -> (r: JsonValue) {
        object_value(self.to_members())
    }
}

impl JsonRecord for UnsafePattern {
    open spec fn json_members(&self) -> Seq<(Seq<char>, JsonTree)> {
        seq![
            ("pattern_type"@, JsonTree::Text(self.pattern_type@)),
            ("line"@, JsonTree::Number(self.line as u64)),
            ("snippet"@, JsonTree::Text(self.snippet@)),
        ]
    }

    fn to_members(&self) -> (r: Vec<JsonMember>) {
        let r = vec![
            member("pattern_type", text_value(&self.pattern_type)),
            member("line", number_value(self.line)),
            member("snippet", text_value(&self.snippet)),
        ];
        assert(member_trees(r@) =~= self.json_members());
        r
    }
}

impl ToJson for UnsafePattern {
    open spec fn json_tree(&self) -> JsonTree {
        JsonTree::Object(self.json_members())
    }

    fn to_json(&self) -> (r: JsonValue) {
        object_value(self.to_members())
    }
}

impl JsonRecord for PanicIssue {
    open spec fn json_members(&self) -> Seq<(Seq<char>, JsonTree)> {
        seq![
            ("function_name"@, JsonTree::Text(self.function_name@)),
            ("issue_type"@, JsonTree::Text(self.issue_type@)),
            ("location"@, JsonTree::Text(self.location@)),
        ]
    }

    fn to_members(&self) -> (r: Vec<JsonMember>) {
        let r = vec![
            member("function_name", text_value(&self.function_name)),
            member("issue_type", text_value(&self.issue_type)),
            member("location", text_value(&self.location)),
        ];
        assert(member_trees(r@) =~= self.json_members());
        r
    }
}

impl ToJson for PanicIssue {
    open spec fn json_tree(&self) -> JsonTree {
        JsonTree::Object(self.json_members())
    }

    fn to_json(&self) -> (r: JsonValue) {
        object_value(self.to_members())
    }
}

impl JsonRecord for ArithmeticIssue {
    open spec fn json_members(&self) -> Seq<(Seq<char>, JsonTree)> {
        seq![
            ("function_name"@, JsonTree::Text(self.function_name@)),
            ("operation"@, JsonTree::Text(self.operation@)),
            ("suggestion"@, JsonTree::Text(self.suggestion@)),
            ("location"@, JsonTree::Text(self.location@)),
        ]
    }

    fn to_members(&self) -> (r: Vec<JsonMember>) {
        let r = vec![
            member("function_name", text_value(&self.function_name)),
            member("operation", text_value(&self.operation)),
            member("suggestion", text_value(&self.suggestion)),
            member("location", text_value(&self.location)),
        ];
        assert(member_trees(r@) =~= self.json_members());
        r
    }
}

impl ToJson for ArithmeticIssue {
    open spec fn json_tree(&self) -> JsonTree {
        JsonTree::Object(self.json_members())
    }

    fn to_json(&self) -> (r: JsonValue) {
        object_value(self.to_members())
    }
}

/// An authentication gap, as a coded finding lists it: the function's name.
impl JsonRecord for String {
    open spec fn json_members(&self) -> Seq<(Seq<char>, JsonTree)> {
        seq![("function"@, JsonTree::Text(self@))]
    }

    fn to_members(&self) -> (r: Vec<JsonMember>) {
        let r = vec![member("function", text_value(self))];
        assert(member_trees(r@) =~= self.json_members());
        r
    }
}

/// A finding with its code: the code, then the finding's own members.
impl<T: JsonRecord> ToJson for Coded<T> {
    open spec fn json_tree(&self) -> JsonTree {
        JsonTree::Object(seq![("code"@, JsonTree::Text(code_name(self.code)))] + self.finding.json_members())
    }

    fn to_json(&self) -> (r: JsonValue) {
        let mut members = vec![member("code", str_value(self.code.name()))];
        let ghost first = member_trees(members@);
        assert(first =~= seq![("code"@, JsonTree::Text(code_name(self.code)))]);
        let mut rest = self.finding.to_members();
        let ghost rest_view = rest@;
        members.append(&mut rest);
        assert(member_trees(members@) =~= first + member_trees(rest_view));
        object_value(members)
    }
}

/// An entry of the code catalogue: the code, its category and its description.
impl ToJson for FindingCode {
    open spec fn json_tree(&self) -> JsonTree {
        JsonTree::Object(
            seq![
                ("code"@, JsonTree::Text(code_name(*self))),
                ("category"@, JsonTree::Text(code_category(*self))),
                ("description"@, JsonTree::Text(code_description(*self))),
            ],
        )
    }

    fn to_json(&self) -> (r: JsonValue) {
        let members = vec![
            member("code", str_value(self.name())),
            member("category", str_value(self.category())),
            member("description", str_value(self.description())),
        ];
        assert(member_trees(members@) =~= self.json_tree()->Object_0);
        object_value(members)
    }
}

impl ToJson for ReportSummary {
    open spec fn json_tree(&self) -> JsonTree {
        JsonTree::Object(
            seq![
            ("total_findings"@, JsonTree::Number(self.total_findings as u64)),
            ("storage_collisions"@, JsonTree::Number(self.storage_collisions as u64)),
            ("auth_gaps"@, JsonTree::Number(self.auth_gaps as u64)),
            ("panic_issues"@, JsonTree::Number(self.panic_issues as u64)),
            ("arithmetic_issues"@, JsonTree::Number(self.arithmetic_issues as u64)),
            ("size_warnings"@, JsonTree::Number(self.size_warnings as u64)),
            ("unsafe_patterns"@, JsonTree::Number(self.unsafe_patterns as u64)),
            ("custom_rule_matches"@, JsonTree::Number(self.custom_rule_matches as u64)),
            ("event_issues"@, JsonTree::Number(self.event_issues as u64)),
            ("unhandled_results"@, JsonTree::Number(self.unhandled_results as u64)),
            ("smt_issues"@, JsonTree::Number(self.smt_issues as u64)),
            ("sep41_issues"@, JsonTree::Number(self.sep41_issues as u64)),
            ("timed_out_files"@, JsonTree::Number(self.timed_out_files as u64)),
            ("has_critical"@, JsonTree::Bool(self.has_critical)),
            ("has_high"@, JsonTree::Bool(self.has_high)),
        ],
        )
    }

    fn to_json(&self) -> (r: JsonValue) {
        let members = vec![
            member("total_findings", number_value(self.total_findings)),
            member("storage_collisions", number_value(self.storage_collisions)),
            member("auth_gaps", number_value(self.auth_gaps)),
            member("panic_issues", number_value(self.panic_issues)),
            member("arithmetic_issues", number_value(self.arithmetic_issues)),
            member("size_warnings", number_value(self.size_warnings)),
            member("unsafe_patterns", number_value(self.unsafe_patterns)),
            member("custom_rule_matches", number_value(self.custom_rule_matches)),
            member("event_issues", number_value(self.event_issues)),
            member("unhandled_results", number_value(self.unhandled_results)),
            member("smt_issues", number_value(self.smt_issues)),
            member("sep41_issues", number_value(self.sep41_issues)),
            member("timed_out_files", number_value(self.timed_out_files)),
            member("has_critical", JsonValue::Bool(self.has_critical)),
            member("has_high", JsonValue::Bool(self.has_high)),
        ];
        let ghost expected = seq![
            ("total_findings"@, JsonTree::Number(self.total_findings as u64)),
            ("storage_collisions"@, JsonTree::Number(self.storage_collisions as u64)),
            ("auth_gaps"@, JsonTree::Number(self.auth_gaps as u64)),
            ("panic_issues"@, JsonTree::Number(self.panic_issues as u64)),
            ("arithmetic_issues"@, JsonTree::Number(self.arithmetic_issues as u64)),
            ("size_warnings"@, JsonTree::Number(self.size_warnings as u64)),
            ("unsafe_patterns"@, JsonTree::Number(self.unsafe_patterns as u64)),
            ("custom_rule_matches"@, JsonTree::Number(self.custom_rule_matches as u64)),
            ("event_issues"@, JsonTree::Number(self.event_issues as u64)),
            ("unhandled_results"@, JsonTree::Number(self.unhandled_results as u64)),
            ("smt_issues"@, JsonTree::Number(self.smt_issues as u64)),
            ("sep41_issues"@, JsonTree::Number(self.sep41_issues as u64)),
            ("timed_out_files"@, JsonTree::Number(self.timed_out_files as u64)),
            ("has_critical"@, JsonTree::Bool(self.has_critical)),
            ("has_high"@, JsonTree::Bool(self.has_high)),
        ];
        assert(member_trees(members@) =~= expected);
        object_value(members)
    }
}

impl ToJson for ReportMetadata {
    open spec fn json_tree(&self) -> JsonTree {
        JsonTree::Object(
            seq![
            ("version"@, JsonTree::Text(self.version@)),
            ("timestamp"@, JsonTree::Text(self.timestamp@)),
            ("project_path"@, JsonTree::Text(self.project_path@)),
            ("format"@, JsonTree::Text(self.format@)),
            ("timeout_secs"@, JsonTree::Number(self.timeout_secs)),
        ],
        )
    }

    fn to_json(&self) -> (r: JsonValue) {
        let members = vec![
            member("version", text_value(&self.version)),
            member("timestamp", text_value(&self.timestamp)),
            member("project_path", text_value(&self.project_path)),
            member("format", text_value(&self.format)),
            member("timeout_secs", JsonValue::Number(self.timeout_secs)),
        ];
        let ghost expected = seq![
            ("version"@, JsonTree::Text(self.version@)),
            ("timestamp"@, JsonTree::Text(self.timestamp@)),
            ("project_path"@, JsonTree::Text(self.project_path@)),
            ("format"@, JsonTree::Text(self.format@)),
            ("timeout_secs"@, JsonTree::Number(self.timeout_secs)),
        ];
        assert(member_trees(members@) =~= expected);
        object_value(members)
    }
}

impl ToJson for CodedFindings {
    open spec fn json_tree(&self) -> JsonTree {
        JsonTree::Object(
            seq![
            ("storage_collisions"@, list_tree(self.storage_collisions@)),
            ("ledger_size_warnings"@, list_tree(self.ledger_size_warnings@)),
            ("unsafe_patterns"@, list_tree(self.unsafe_patterns@)),
            ("auth_gaps"@, list_tree(self.auth_gaps@)),
            ("panic_issues"@, list_tree(self.panic_issues@)),
            ("arithmetic_issues"@, list_tree(self.arithmetic_issues@)),
            ("custom_rules"@, list_tree(self.custom_rules@)),
            ("event_issues"@, list_tree(self.event_issues@)),
            ("unhandled_results"@, list_tree(self.unhandled_results@)),
            ("upgrade_risks"@, list_tree(self.upgrade_risks@)),
            ("smt_issues"@, list_tree(self.smt_issues@)),
            ("sep41_issues"@, list_tree(self.sep41_issues@)),
            ("timeouts"@, list_tree(self.timeouts@)),
        ],
        )
    }

    fn to_json(&self) -> (r: JsonValue) {
        let members = vec![
            member("storage_collisions", array_of(&self.storage_collisions)),
            member("ledger_size_warnings", array_of(&self.ledger_size_warnings)),
            member("unsafe_patterns", array_of(&self.unsafe_patterns)),
            member("auth_gaps", array_of(&self.auth_gaps)),
            member("panic_issues", array_of(&self.panic_issues)),
            member("arithmetic_issues", array_of(&self.arithmetic_issues)),
            member("custom_rules", array_of(&self.custom_rules)),
            member("event_issues", array_of(&self.event_issues)),
            member("unhandled_results", array_of(&self.unhandled_results)),
            member("upgrade_risks", array_of(&self.upgrade_risks)),
            member("smt_issues", array_of(&self.smt_issues)),
            member("sep41_issues", array_of(&self.sep41_issues)),
            member("timeouts", array_of(&self.timeouts)),
        ];
        let ghost expected = seq![
            ("storage_collisions"@, list_tree(self.storage_collisions@)),
            ("ledger_size_warnings"@, list_tree(self.ledger_size_warnings@)),
            ("unsafe_patterns"@, list_tree(self.unsafe_patterns@)),
            ("auth_gaps"@, list_tree(self.auth_gaps@)),
            ("panic_issues"@, list_tree(self.panic_issues@)),
            ("arithmetic_issues"@, list_tree(self.arithmetic_issues@)),
            ("custom_rules"@, list_tree(self.custom_rules@)),
            ("event_issues"@, list_tree(self.event_issues@)),
            ("unhandled_results"@, list_tree(self.unhandled_results@)),
            ("upgrade_risks"@, list_tree(self.upgrade_risks@)),
            ("smt_issues"@, list_tree(self.smt_issues@)),
            ("sep41_issues"@, list_tree(self.sep41_issues@)),
            ("timeouts"@, list_tree(self.timeouts@)),
        ];
        assert(member_trees(members@) =~= expected);
        object_value(members)
    }
}

impl ToJson for JsonReport {
    open spec fn json_tree(&self) -> JsonTree {
        JsonTree::Object(
            seq![
            ("schema_version"@, JsonTree::Text(self.schema_version@)),
            ("metadata"@, self.metadata.json_tree()),
            ("summary"@, self.summary.json_tree()),
            ("findings"@, self.findings.json_tree()),
            ("error_codes"@, list_tree(self.error_codes@)),
            ("vulnerability_db_version"@, JsonTree::Text(self.vulnerability_db_version@)),
            ("timed_out_files"@, list_tree(self.timed_out_files@)),
            ("sep41_checked_contracts"@, list_tree(self.sep41_checked_contracts@)),
            ("storage_collisions"@, list_tree(self.storage_collisions@)),
            ("ledger_size_warnings"@, list_tree(self.ledger_size_warnings@)),
            ("unsafe_patterns"@, list_tree(self.unsafe_patterns@)),
            ("auth_gaps"@, list_tree(self.auth_gaps@)),
            ("panic_issues"@, list_tree(self.panic_issues@)),
            ("arithmetic_issues"@, list_tree(self.arithmetic_issues@)),
            ("custom_rules"@, list_tree(self.custom_rules@)),
            ("event_issues"@, list_tree(self.event_issues@)),
            ("unhandled_results"@, list_tree(self.unhandled_results@)),
            ("upgrade_reports"@, list_tree(self.upgrade_reports@)),
            ("smt_issues"@, list_tree(self.smt_issues@)),
            ("sep41_issues"@, list_tree(self.sep41_issues@)),
            ("call_graph"@, list_tree(self.call_graph@)),
            ("vulnerability_db_matches"@, list_tree(self.vulnerability_db_matches@)),
        ],
        )
    }

    fn to_json(&self) -> (r: JsonValue) {
        let members = vec![
            member("schema_version", text_value(&self.schema_version)),
            member("metadata", self.metadata.to_json()),
            member("summary", self.summary.to_json()),
            member("findings", self.findings.to_json()),
            member("error_codes", array_of(&self.error_codes)),
            member("vulnerability_db_version", text_value(&self.vulnerability_db_version)),
            member("timed_out_files", array_of(&self.timed_out_files)),
            member("sep41_checked_contracts", array_of(&self.sep41_checked_contracts)),
            member("storage_collisions", array_of(&self.storage_collisions)),
            member("ledger_size_warnings", array_of(&self.ledger_size_warnings)),
            member("unsafe_patterns", array_of(&self.unsafe_patterns)),
            member("auth_gaps", array_of(&self.auth_gaps)),
            member("panic_issues", array_of(&self.panic_issues)),
            member("arithmetic_issues", array_of(&self.arithmetic_issues)),
            member("custom_rules", array_of(&self.custom_rules)),
            member("event_issues", array_of(&self.event_issues)),
            member("unhandled_results", array_of(&self.unhandled_results)),
            member("upgrade_reports", array_of(&self.upgrade_reports)),
            member("smt_issues", array_of(&self.smt_issues)),
            member("sep41_issues", array_of(&self.sep41_issues)),
            member("call_graph", array_of(&self.call_graph)),
            member("vulnerability_db_matches", array_of(&self.vulnerability_db_matches)),
        ];
        let ghost expected = seq![
            ("schema_version"@, JsonTree::Text(self.schema_version@)),
            ("metadata"@, self.metadata.json_tree()),
            ("summary"@, self.summary.json_tree()),
            ("findings"@, self.findings.json_tree()),
            ("error_codes"@, list_tree(self.error_codes@)),
            ("vulnerability_db_version"@, JsonTree::Text(self.vulnerability_db_version@)),
            ("timed_out_files"@, list_tree(self.timed_out_files@)),
            ("sep41_checked_contracts"@, list_tree(self.sep41_checked_contracts@)),
            ("storage_collisions"@, list_tree(self.storage_collisions@)),
            ("ledger_size_warnings"@, list_tree(self.ledger_size_warnings@)),
            ("unsafe_patterns"@, list_tree(self.unsafe_patterns@)),
            ("auth_gaps"@, list_tree(self.auth_gaps@)),
            ("panic_issues"@, list_tree(self.panic_issues@)),
            ("arithmetic_issues"@, list_tree(self.arithmetic_issues@)),
            ("custom_rules"@, list_tree(self.custom_rules@)),
            ("event_issues"@, list_tree(self.event_issues@)),
            ("unhandled_results"@, list_tree(self.unhandled_results@)),
            ("upgrade_reports"@, list_tree(self.upgrade_reports@)),
            ("smt_issues"@, list_tree(self.smt_issues@)),
            ("sep41_issues"@, list_tree(self.sep41_issues@)),
            ("call_graph"@, list_tree(self.call_graph@)),
            ("vulnerability_db_matches"@, list_tree(self.vulnerability_db_matches@)),
        ];
        assert(member_trees(members@) =~= expected);
        object_value(members)
    }
}

} // verus!
