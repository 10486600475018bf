//! The diagnostic sink: one-way trace records emitted by the parser and
//! the operand resolver. A record carries a source line, a message and
//! an alignment severity; consumers may drain, log or ignore them.
use vstd::prelude::*;

verus! {

/// How strongly a diagnostic suggests downstream failure.
#[derive(Debug, PartialEq, Eq, Structural, Clone, Copy)]
pub enum Severity {
    /// Aligned: no failure expected.
    Valid,
    /// Slight divergence from the expected shape.
    Drifted,
    /// Unstable meaning; re-resolution advised.
    Shadowed,
    /// Structurally broken; downstream failure likely.
    Broken,
}

/// What a consumer is advised to do with a finding.
#[derive(Debug, PartialEq, Eq, Structural, Clone, Copy)]
pub enum DebugResponse {
    Ignore,
    Retry,
    Halt,
    Patch,
    Prompt,
}

/// One trace record bound for the watchtower.
#[derive(Debug)]
pub struct DebugEntry {
    pub line: usize,
    pub message: String,
    pub severity: Severity,
}

impl DebugEntry {
    /// Builds a trace record.
    pub fn new(line: usize, message: &str, severity: Severity) -> (r: DebugEntry)
        ensures
            r.line == line,
            r.message@ == message@,
            r.severity == severity,
    {
        DebugEntry { line, message: message.to_owned(), severity }
    }
}

} // verus!
