//! Which form an analysis reports in, and what it reports for a path that is
//! not a Soroban project.
use vstd::prelude::*;

use crate::text::{json_escaped, push_json_escaped, text_equals};
use crate::text_report::{Span, SpecLine, Style};

verus! {

/// The form of an analysis report.
#[derive(Clone, Copy, Debug, PartialEq, Eq, Structural)]
pub enum OutputFormat {
    Text,
    Json,
}

/// The report form a `--format` value selects: `json` selects JSON, any other value text.
pub fn output_format(format: &str) -> (r: OutputFormat)
    ensures
        r == (if format@ == "json"@ {
            OutputFormat::Json
        } else {
            OutputFormat::Text
        }),
{
    if text_equals(format, "json") {
        OutputFormat::Json
    } else {
        OutputFormat::Text
    }
}

/// What follows the path in the message for a path that is not a Soroban project.
pub open spec fn not_a_project_tail() -> Seq<char> {
    " is not a valid Soroban project. (Missing Cargo.toml with 'soroban-sdk' dependency)"@
}

/// The message for a path that is not a Soroban project; `path_shown` is the
/// path as the message shows it.
pub fn not_a_project_message(path_shown: &str) -> (r: String)
    ensures
        r@ == path_shown@ + not_a_project_tail(),
{
    let mut r = String::from_str(path_shown);
    r.append(" is not a valid Soroban project. (Missing Cargo.toml with 'soroban-sdk' dependency)");
    r
}

/// The JSON report for a path that is not a Soroban project: an object whose
/// only member, `error`, is the message as a JSON string (its quotes,
/// backslashes and control characters escaped).
pub fn not_a_project_json(path_shown: &str) -> (r: String)
    ensures
        r@ == "{\"error\": \""@ + json_escaped(path_shown@ + not_a_project_tail()) + "\"}"@,
{
    let message = not_a_project_message(path_shown);
    let mut r = String::from_str("{\"error\": \"");
    push_json_escaped(&mut r, message.as_str());
    r.append("\"}");
    r
}

/// The text report line for a path that is not a Soroban project.
pub open spec fn not_a_project_line(path_shown: Seq<char>) -> SpecLine {
    seq![
        ("❌"@, Style::Red),
        (" Error: "@, Style::Plain),
        (path_shown + not_a_project_tail(), Style::Plain),
    ]
}

/// The text report line for a path that is not a Soroban project.
pub fn not_a_project_spans(path_shown: &str) -> (r: Vec<Span>)
    ensures
        r.deep_view() == not_a_project_line(path_shown@),
{
    let r = vec![
        Span { text: String::from_str("❌"), style: Style::Red },
        Span { text: String::from_str(" Error: "), style: Style::Plain },
        Span { text: not_a_project_message(path_shown), style: Style::Plain },
    ];
    assert(r.deep_view() =~= not_a_project_line(path_shown@));
    r
}

} // verus!
