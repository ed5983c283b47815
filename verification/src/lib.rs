//! The verified core of the Sanctifier analyzer's command line: which paths
//! count as Soroban projects and which files a walk analyzes, how the findings
//! of an analysis are collected and counted, the text and machine-readable
//! reports made of them, and the exit code an analysis ends with.
use vstd::prelude::*;

pub mod analysis;
pub mod codes;
pub mod contracts;
pub mod exit_codes;
pub mod findings;
pub mod json_report;
pub mod json_tree;
pub mod laws;
pub mod output;
pub mod project;
pub mod report_laws;
pub mod text;
pub mod text_report;

verus! {

} // verus!
