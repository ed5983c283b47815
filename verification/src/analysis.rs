//! The result of analysing one file, and running a piece of analysis under a time limit.
use vstd::prelude::*;

use crate::findings::{
    ArithmeticIssue, PanicIssue, SizeWarning, StorageCollisionIssue, UnsafePattern,
};

verus! {

/// What the analysis of one file found.
pub struct FileAnalysisResult {
    pub file_path: String,
    pub panic_issues: Vec<PanicIssue>,
    pub arithmetic_issues: Vec<ArithmeticIssue>,
    pub size_warnings: Vec<SizeWarning>,
    pub unsafe_patterns: Vec<UnsafePattern>,
    pub collisions: Vec<StorageCollisionIssue>,
    /// Whether the analysis of the file ran out of time.
    pub timed_out: bool,
}

/// The analysis of a single file: the result names the file and holds no
/// findings, and the file did not time out.
pub fn analyze_single_file(content: &str, file_name: &str) -> (r: FileAnalysisResult)
    ensures
        r.file_path@ == file_name@,
        r.panic_issues@.len() == 0,
        r.arithmetic_issues@.len() == 0,
        r.size_warnings@.len() == 0,
        r.unsafe_patterns@.len() == 0,
        r.collisions@.len() == 0,
        !r.timed_out,
{
    FileAnalysisResult {
        file_path: String::from_str(file_name),
        panic_issues: Vec::new(),
        arithmetic_issues: Vec::new(),
        size_warnings: Vec::new(),
        unsafe_patterns: Vec::new(),
        collisions: Vec::new(),
        timed_out: false,
    }
}

/// Runs `f` to completion and returns its result; the time limit is not enforced,
/// so the result is always present.
pub fn run_with_timeout<F, T>(timeout: Option<std::time::Duration>, f: F) -> (r: Option<T>) where
    F: FnOnce() -> T + Send + 'static,
    T: Send + 'static,

    requires
        f.requires(()),
    ensures
        r matches Some(v) && f.ensures((), v),
{
    Some(f())
}

} // verus!
