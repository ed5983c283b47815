//! Process exit codes of the analyzer and the rule that picks one.
use vstd::prelude::*;

verus! {

/// Process exit code: analysis succeeded with no triggered findings.
pub const SUCCESS: i32 = 0;

/// Process exit code: findings were detected and the active profile triggered on them.
pub const FINDINGS_FOUND: i32 = 1;

/// Process exit code: unrecoverable error (invalid path, config parse failure, I/O error).
pub const ERROR: i32 = 2;

/// The exit code of a finished analysis: `FINDINGS_FOUND` when the caller asked for a
/// non-zero status on findings and there is at least one, `SUCCESS` otherwise.
pub fn analysis_exit_code(exit_on_findings: bool, total_findings: usize) -> (code: i32)
    ensures
        code == (if exit_on_findings && total_findings > 0 { FINDINGS_FOUND } else { SUCCESS }),
{
    if exit_on_findings && total_findings > 0 {
        FINDINGS_FOUND
    } else {
        SUCCESS
    }
}

/// The exit code of the analyze command: `ERROR` when the path given is not a
/// Soroban project (nothing is analysed then), otherwise that of the finished
/// analysis (`analysis_exit_code`).
pub fn command_exit_code(path_accepted: bool, exit_on_findings: bool, total_findings: usize) -> (code: i32)
    ensures
        !path_accepted ==> code == ERROR,
        path_accepted ==> code == (if exit_on_findings && total_findings > 0 {
            FINDINGS_FOUND
        } else {
            SUCCESS
        }),
{
    if !path_accepted {
        ERROR
    } else {
        analysis_exit_code(exit_on_findings, total_findings)
    }
}

} // verus!
