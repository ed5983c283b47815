//! The plain-text report of an analysis: lines made of styled spans, in the
//! order they are printed. How a style shows on a terminal is up to the printer.
use vstd::prelude::*;

use crate::findings::{
    AnalysisBuckets, ArithmeticIssue, PanicIssue, SizeWarning, StorageCollisionIssue,
    UnsafePattern,
};
use crate::text::{decimal, decimal_string, lowercase, to_lowercase};

verus! {

/// How a span of text is shown.
#[derive(Clone, Copy, Debug, PartialEq, Eq, Structural)]
pub enum Style {
    Plain,
    Bold,
    Red,
    Yellow,
    Green,
}

/// A run of text in one style.
pub struct Span {
    pub text: String,
    pub style: Style,
}

impl DeepView for Span {
    type V = (Seq<char>, Style);

    open spec fn deep_view(&self) -> (Seq<char>, Style) {
        (self.text@, self.style)
    }
}

/// A span in the abstract: its characters and its style.
pub type SpecSpan = (Seq<char>, Style);

/// A line in the abstract: its spans, in order.
pub type SpecLine = Seq<SpecSpan>;

/// A section heading: an empty line, then the emblem and the title.
pub open spec fn heading(emblem: Seq<char>, color: Style, title: Seq<char>) -> SpecLine {
    seq![("\n"@, Style::Plain), (emblem, color), (title, Style::Plain)]
}

/// The start of an item line: an indented arrow.
pub open spec fn arrow(color: Style) -> Seq<SpecSpan> {
    seq![("   "@, Style::Plain), ("->"@, color)]
}

pub open spec fn auth_gap_line(gap: Seq<char>) -> SpecLine {
    arrow(Style::Red) + seq![(" Function: "@, Style::Plain), (gap, Style::Bold)]
}

pub open spec fn panic_line(p: PanicIssue) -> SpecLine {
    arrow(Style::Red) + seq![
        (" Function: "@, Style::Plain),
        (p.function_name@, Style::Bold),
        (" ("@, Style::Plain),
        (p.issue_type@, Style::Plain),
        (")"@, Style::Plain),
    ]
}

pub open spec fn arithmetic_line(a: ArithmeticIssue) -> SpecLine {
    arrow(Style::Red) + seq![
        (" Function: "@, Style::Plain),
        (a.function_name@, Style::Bold),
        (" (operation: "@, Style::Plain),
        (a.operation@, Style::Plain),
        (")"@, Style::Plain),
    ]
}

pub open spec fn unsafe_pattern_line(u: UnsafePattern) -> SpecLine {
    arrow(Style::Yellow) + seq![
        (" Line "@, Style::Plain),
        (decimal(u.line as nat), Style::Plain),
        (": "@, Style::Plain),
        (u.snippet@, Style::Plain),
        (" ("@, Style::Plain),
        (lowercase(u.pattern_type@), Style::Plain),
        (")"@, Style::Plain),
    ]
}

pub open spec fn size_warning_line(w: SizeWarning) -> SpecLine {
    arrow(Style::Yellow) + seq![
        (" Struct: "@, Style::Plain),
        (w.struct_name@, Style::Bold),
        (" ("@, Style::Plain),
        (decimal(w.estimated_size as nat), Style::Plain),
        (" / "@, Style::Plain),
        (decimal(w.limit as nat), Style::Plain),
        (" bytes)"@, Style::Plain),
    ]
}

/// The four lines that describe one storage key collision.
pub open spec fn collision_lines(c: StorageCollisionIssue) -> Seq<SpecLine> {
    seq![
        arrow(Style::Red) + seq![(" Value: "@, Style::Plain), (c.key_value@, Style::Bold)],
        seq![("      Type: "@, Style::Plain), (c.key_type@, Style::Plain)],
        seq![("      Location: "@, Style::Plain), (c.location@, Style::Plain)],
        seq![("      Message: "@, Style::Plain), (c.message@, Style::Plain)],
    ]
}

/// The lines of every collision, in order.
pub open spec fn all_collision_lines(cs: Seq<StorageCollisionIssue>) -> Seq<SpecLine>
    decreases cs.len(),
{
    if cs.len() == 0 {
        seq![]
    } else {
        all_collision_lines(cs.drop_last()) + collision_lines(cs.last())
    }
}

pub open spec fn auth_gap_lines(gaps: Seq<String>) -> Seq<SpecLine> {
    gaps.map_values(|g: String| auth_gap_line(g@))
}

pub open spec fn panic_lines(ps: Seq<PanicIssue>) -> Seq<SpecLine> {
    ps.map_values(|p: PanicIssue| panic_line(p))
}

pub open spec fn arithmetic_lines(xs: Seq<ArithmeticIssue>) -> Seq<SpecLine> {
    xs.map_values(|a: ArithmeticIssue| arithmetic_line(a))
}

pub open spec fn unsafe_pattern_lines(us: Seq<UnsafePattern>) -> Seq<SpecLine> {
    us.map_values(|u: UnsafePattern| unsafe_pattern_line(u))
}

pub open spec fn size_warning_lines(ws: Seq<SizeWarning>) -> Seq<SpecLine> {
    ws.map_values(|w: SizeWarning| size_warning_line(w))
}

pub open spec fn auth_section(gaps: Seq<String>) -> Seq<SpecLine> {
    if gaps.len() == 0 {
        seq![]
    } else {
        seq![heading("🛑"@, Style::Red, " Found potential Authentication Gaps!"@)] + auth_gap_lines(gaps)
    }
}

pub open spec fn panic_section(ps: Seq<PanicIssue>) -> Seq<SpecLine> {
    if ps.len() == 0 {
        seq![]
    } else {
        seq![heading("🛑"@, Style::Red, " Found explicit Panics/Unwraps!"@)] + panic_lines(ps)
    }
}

pub open spec fn arithmetic_section(xs: Seq<ArithmeticIssue>) -> Seq<SpecLine> {
    if xs.len() == 0 {
        seq![]
    } else {
        seq![heading("🛑"@, Style::Red, " Found unchecked Arithmetic Operations!"@)]
            + arithmetic_lines(xs)
    }
}

pub open spec fn unsafe_section(us: Seq<UnsafePattern>) -> Seq<SpecLine> {
    if us.len() == 0 {
        seq![]
    } else {
        seq![heading("⚠️"@, Style::Yellow, " Found unsafe patterns!"@)] + unsafe_pattern_lines(us)
    }
}

pub open spec fn size_section(ws: Seq<SizeWarning>) -> Seq<SpecLine> {
    if ws.len() == 0 {
        seq![heading("✅"@, Style::Green, " No ledger size issues found."@)]
    } else {
        seq![heading("⚠️"@, Style::Yellow, " Found ledger size issues!"@)] + size_warning_lines(ws)
    }
}

pub open spec fn collision_section(cs: Seq<StorageCollisionIssue>) -> Seq<SpecLine> {
    if cs.len() == 0 {
        seq![heading("✅"@, Style::Green, " No storage key collisions found."@)]
    } else {
        seq![heading("⚠️"@, Style::Yellow, " Found potential Storage Key Collisions!"@)]
            + all_collision_lines(cs)
    }
}

/// The closing line of every report.
pub open spec fn closing_line() -> SpecLine {
    heading("✅"@, Style::Green, " Static analysis complete."@)
}

/// The whole text report of an analysis: a section per kind of finding, in a
/// fixed order, then the closing line.
pub open spec fn spec_text_report(b: AnalysisBuckets) -> Seq<SpecLine> {
    auth_section(b.auth_gaps@) + panic_section(b.panics@) + arithmetic_section(
        b.arithmetic_issues@,
    ) + unsafe_section(b.unsafe_patterns@) + size_section(b.size_warnings@) + collision_section(
        b.collisions@,
    ) + seq![closing_line()]
}

/// A span holding `text`.
fn span(text: &str, style: Style) -> (r: Span)
    ensures
        r.deep_view() == (text@, style),
{
    Span { text: String::from_str(text), style }
}

/// A span holding a copy of `text`.
fn span_of(text: &String, style: Style) -> (r: Span)
    ensures
        r.deep_view() == (text@, style),
{
    Span { text: text.clone(), style }
}

fn heading_line(emblem: &str, color: Style, title: &str) -> (r: Vec<Span>)
    ensures
        r.deep_view() == heading(emblem@, color, title@),
{
    let r = vec![span("\n", Style::Plain), span(emblem, color), span(title, Style::Plain)];
    assert(r.deep_view() =~= heading(emblem@, color, title@));
    r
}

fn auth_gap_spans(gap: &String) -> (r: Vec<Span>)
    ensures
        r.deep_view() == auth_gap_line(gap@),
{
    let r = vec![
        span("   ", Style::Plain),
        span("->", Style::Red),
        span(" Function: ", Style::Plain),
        span_of(gap, Style::Bold),
    ];
    assert(r.deep_view() =~= auth_gap_line(gap@));
    r
}

fn panic_spans(p: &PanicIssue) -> (r: Vec<Span>)
    ensures
        r.deep_view() == panic_line(*p),
{
    let r = vec![
        span("   ", Style::Plain),
        span("->", Style::Red),
        span(" Function: ", Style::Plain),
        span_of(&p.function_name, Style::Bold),
        span(" (", Style::Plain),
        span_of(&p.issue_type, Style::Plain),
        span(")", Style::Plain),
    ];
    assert(r.deep_view() =~= panic_line(*p));
    r
}

fn arithmetic_spans(a: &ArithmeticIssue) -> (r: Vec<Span>)
    ensures
        r.deep_view() == arithmetic_line(*a),
{
    let r = vec![
        span("   ", Style::Plain),
        span("->", Style::Red),
        span(" Function: ", Style::Plain),
        span_of(&a.function_name, Style::Bold),
        span(" (operation: ", Style::Plain),
        span_of(&a.operation, Style::Plain),
        span(")", Style::Plain),
    ];
    assert(r.deep_view() =~= arithmetic_line(*a));
    r
}

fn unsafe_pattern_spans(u: &UnsafePattern) -> (r: Vec<Span>)
    ensures
        r.deep_view() == unsafe_pattern_line(*u),
{
    let r = vec![
        span("   ", Style::Plain),
        span("->", Style::Yellow),
        span(" Line ", Style::Plain),
        Span { text: decimal_string(u.line), style: Style::Plain },
        span(": ", Style::Plain),
        span_of(&u.snippet, Style::Plain),
        span(" (", Style::Plain),
        Span { text: to_lowercase(u.pattern_type.as_str()), style: Style::Plain },
        span(")", Style::Plain),
    ];
    assert(r.deep_view() =~= unsafe_pattern_line(*u));
    r
}

fn size_warning_spans(w: &SizeWarning) -> (r: Vec<Span>)
    ensures
        r.deep_view() == size_warning_line(*w),
{
    let r = vec![
        span("   ", Style::Plain),
        span("->", Style::Yellow),
        span(" Struct: ", Style::Plain),
        span_of(&w.struct_name, Style::Bold),
        span(" (", Style::Plain),
        Span { text: decimal_string(w.estimated_size), style: Style::Plain },
        span(" / ", Style::Plain),
        Span { text: decimal_string(w.limit), style: Style::Plain },
        span(" bytes)", Style::Plain),
    ];
    assert(r.deep_view() =~= size_warning_line(*w));
    r
}

/// Appends one line to a report.
fn push_line(lines: &mut Vec<Vec<Span>>, line: Vec<Span>)
    ensures
        final(lines).deep_view() == old(lines).deep_view().push(line.deep_view()),
{
    let ghost line_view = line.deep_view();
    lines.push(line);
    assert(lines.deep_view() =~= old(lines).deep_view().push(line_view));
}

/// Appends the four lines of a collision to a report.
fn push_collision_lines(lines: &mut Vec<Vec<Span>>, c: &StorageCollisionIssue)
    ensures
        final(lines).deep_view() == old(lines).deep_view() + collision_lines(*c),
{
    let first = vec![
        span("   ", Style::Plain),
        span("->", Style::Red),
        span(" Value: ", Style::Plain),
        span_of(&c.key_value, Style::Bold),
    ];
    let second = vec![span("      Type: ", Style::Plain), span_of(&c.key_type, Style::Plain)];
    let third = vec![span("      Location: ", Style::Plain), span_of(&c.location, Style::Plain)];
    let fourth = vec![span("      Message: ", Style::Plain), span_of(&c.message, Style::Plain)];
    let ghost lines_of = collision_lines(*c);
    assert(first.deep_view() =~= lines_of[0]);
    assert(second.deep_view() =~= lines_of[1]);
    assert(third.deep_view() =~= lines_of[2]);
    assert(fourth.deep_view() =~= lines_of[3]);
    push_line(lines, first);
    push_line(lines, second);
    push_line(lines, third);
    push_line(lines, fourth);
    assert(lines.deep_view() =~= old(lines).deep_view() + lines_of);
}

fn push_auth_section(lines: &mut Vec<Vec<Span>>, gaps: &Vec<String>)
    ensures
        final(lines).deep_view() == old(lines).deep_view() + auth_section(gaps@),
{
    if gaps.len() == 0 {
        assert(lines.deep_view() =~= old(lines).deep_view() + auth_section(gaps@));
        return;
    }
    push_line(lines, heading_line("🛑", Style::Red, " Found potential Authentication Gaps!"));
    let ghost base = lines.deep_view();
    let mut i: usize = 0;
    while i < gaps.len()
        invariant
            i <= gaps.len(),
            lines.deep_view() == base + auth_gap_lines(gaps@.take(i as int)),
        decreases gaps.len() - i,
    {
        push_line(lines, auth_gap_spans(&gaps[i]));
        assert(auth_gap_lines(gaps@.take(i + 1)) =~= auth_gap_lines(gaps@.take(i as int)).push(
            auth_gap_line(gaps@[i as int]@),
        ));
        i += 1;
    }
    assert(gaps@.take(gaps.len() as int) =~= gaps@);
    assert(lines.deep_view() =~= old(lines).deep_view() + auth_section(gaps@));
}

fn push_panic_section(lines: &mut Vec<Vec<Span>>, ps: &Vec<PanicIssue>)
    ensures
        final(lines).deep_view() == old(lines).deep_view() + panic_section(ps@),
{
    if ps.len() == 0 {
        assert(lines.deep_view() =~= old(lines).deep_view() + panic_section(ps@));
        return;
    }
    push_line(lines, heading_line("🛑", Style::Red, " Found explicit Panics/Unwraps!"));
    let ghost base = lines.deep_view();
    let mut i: usize = 0;
    while i < ps.len()
        invariant
            i <= ps.len(),
            lines.deep_view() == base + panic_lines(ps@.take(i as int)),
        decreases ps.len() - i,
    {
        push_line(lines, panic_spans(&ps[i]));
        assert(panic_lines(ps@.take(i + 1)) =~= panic_lines(ps@.take(i as int)).push(
            panic_line(ps@[i as int]),
        ));
        i += 1;
    }
    assert(ps@.take(ps.len() as int) =~= ps@);
    assert(lines.deep_view() =~= old(lines).deep_view() + panic_section(ps@));
}

fn push_arithmetic_section(lines: &mut Vec<Vec<Span>>, xs: &Vec<ArithmeticIssue>)
    ensures
        final(lines).deep_view() == old(lines).deep_view() + arithmetic_section(xs@),
{
    if xs.len() == 0 {
        assert(lines.deep_view() =~= old(lines).deep_view() + arithmetic_section(xs@));
        return;
    }
    push_line(lines, heading_line("🛑", Style::Red, " Found unchecked Arithmetic Operations!"));
    let ghost base = lines.deep_view();
    let mut i: usize = 0;
    while i < xs.len()
        invariant
            i <= xs.len(),
            lines.deep_view() == base + arithmetic_lines(xs@.take(i as int)),
        decreases xs.len() - i,
    {
        push_line(lines, arithmetic_spans(&xs[i]));
        assert(arithmetic_lines(xs@.take(i + 1)) =~= arithmetic_lines(xs@.take(i as int)).push(
            arithmetic_line(xs@[i as int]),
        ));
        i += 1;
    }
    assert(xs@.take(xs.len() as int) =~= xs@);
    assert(lines.deep_view() =~= old(lines).deep_view() + arithmetic_section(xs@));
}

fn push_unsafe_section(lines: &mut Vec<Vec<Span>>, us: &Vec<UnsafePattern>)
    ensures
        final(lines).deep_view() == old(lines).deep_view() + unsafe_section(us@),
{
    if us.len() == 0 {
        assert(lines.deep_view() =~= old(lines).deep_view() + unsafe_section(us@));
        return;
    }
    push_line(lines, heading_line("⚠️", Style::Yellow, " Found unsafe patterns!"));
    let ghost base = lines.deep_view();
    let mut i: usize = 0;
    while i < us.len()
        invariant
            i <= us.len(),
            lines.deep_view() == base + unsafe_pattern_lines(us@.take(i as int)),
        decreases us.len() - i,
    {
        push_line(lines, unsafe_pattern_spans(&us[i]));
        assert(unsafe_pattern_lines(us@.take(i + 1)) =~= unsafe_pattern_lines(
            us@.take(i as int),
        ).push(unsafe_pattern_line(us@[i as int])));
        i += 1;
    }
    assert(us@.take(us.len() as int) =~= us@);
    assert(lines.deep_view() =~= old(lines).deep_view() + unsafe_section(us@));
}

fn push_size_section(lines: &mut Vec<Vec<Span>>, ws: &Vec<SizeWarning>)
    ensures
        final(lines).deep_view() == old(lines).deep_view() + size_section(ws@),
{
    if ws.len() == 0 {
        push_line(lines, heading_line("✅", Style::Green, " No ledger size issues found."));
        assert(lines.deep_view() =~= old(lines).deep_view() + size_section(ws@));
        return;
    }
    push_line(lines, heading_line("⚠️", Style::Yellow, " Found ledger size issues!"));
    let ghost base = lines.deep_view();
    let mut i: usize = 0;
    while i < ws.len()
        invariant
            i <= ws.len(),
            lines.deep_view() == base + size_warning_lines(ws@.take(i as int)),
        decreases ws.len() - i,
    {
        push_line(lines, size_warning_spans(&ws[i]));
        assert(size_warning_lines(ws@.take(i + 1)) =~= size_warning_lines(ws@.take(i as int)).push(
            size_warning_line(ws@[i as int]),
        ));
        i += 1;
    }
    assert(ws@.take(ws.len() as int) =~= ws@);
    assert(lines.deep_view() =~= old(lines).deep_view() + size_section(ws@));
}

fn push_collision_section(lines: &mut Vec<Vec<Span>>, cs: &Vec<StorageCollisionIssue>)
    ensures
        final(lines).deep_view() == old(lines).deep_view() + collision_section(cs@),
{
    if cs.len() == 0 {
        push_line(lines, heading_line("✅", Style::Green, " No storage key collisions found."));
        assert(lines.deep_view() =~= old(lines).deep_view() + collision_section(cs@));
        return;
    }
    push_line(lines, heading_line("⚠️", Style::Yellow, " Found potential Storage Key Collisions!"));
    let ghost base = lines.deep_view();
    let mut i: usize = 0;
    while i < cs.len()
        invariant
            i <= cs.len(),
            lines.deep_view() == base + all_collision_lines(cs@.take(i as int)),
        decreases cs.len() - i,
    {
        push_collision_lines(lines, &cs[i]);
        assert(cs@.take(i + 1).drop_last() =~= cs@.take(i as int));
        assert(lines.deep_view() =~= base + all_collision_lines(cs@.take(i + 1)));
        i += 1;
    }
    assert(cs@.take(cs.len() as int) =~= cs@);
    assert(lines.deep_view() =~= old(lines).deep_view() + collision_section(cs@));
}

/// The text report of an analysis, line by line: for each kind of finding a
/// heading and a line per finding (four per storage collision) where there are
/// findings of that kind, an all-clear line for ledger sizes and for storage
/// collisions where there are none, and a closing line.
pub fn render_text_report(buckets: &AnalysisBuckets) -> (r: Vec<Vec<Span>>)
    ensures
        r.deep_view() == spec_text_report(*buckets),
{
    let mut lines: Vec<Vec<Span>> = Vec::new();
    assert(lines.deep_view() =~= Seq::<SpecLine>::empty());
    push_auth_section(&mut lines, &buckets.auth_gaps);
    push_panic_section(&mut lines, &buckets.panics);
    push_arithmetic_section(&mut lines, &buckets.arithmetic_issues);
    push_unsafe_section(&mut lines, &buckets.unsafe_patterns);
    push_size_section(&mut lines, &buckets.size_warnings);
    push_collision_section(&mut lines, &buckets.collisions);
    push_line(&mut lines, heading_line("✅", Style::Green, " Static analysis complete."));
    assert(lines.deep_view() =~= spec_text_report(*buckets));
    lines
}

} // verus!
