//! Log-line rendering.
//!
//! The engine only builds the text of its log lines; writing them to the
//! console, and colouring them, is the caller's business.  Nested sub-flows
//! indent their lines by two spaces per level.

use vstd::prelude::*;

use crate::strutil::{indent_spaces, spec_indent};

verus! {

/// Renders log lines with a fixed icon per severity.
pub struct Logger;

impl Logger {
    /// An informational line.
    pub fn info_line(message: &str, indent_level: usize) -> (r: String)
        ensures
            r@ == spec_indent(indent_level as nat) + "ℹ️  "@ + message@,
    {
        let mut s = indent_spaces(indent_level);
        s.append("ℹ️  ");
        s.append(message);
        s
    }

    /// A success line.
    pub fn success_line(message: &str, indent_level: usize) -> (r: String)
        ensures
            r@ == spec_indent(indent_level as nat) + "✅ "@ + message@,
    {
        let mut s = indent_spaces(indent_level);
        s.append("✅ ");
        s.append(message);
        s
    }

    /// An error line.
    pub fn error_line(message: &str, indent_level: usize) -> (r: String)
        ensures
            r@ == spec_indent(indent_level as nat) + "❌ "@ + message@,
    {
        let mut s = indent_spaces(indent_level);
        s.append("❌ ");
        s.append(message);
        s
    }

    /// A warning line.
    pub fn warning_line(message: &str, indent_level: usize) -> (r: String)
        ensures
            r@ == spec_indent(indent_level as nat) + "⚠️  "@ + message@,
    {
        let mut s = indent_spaces(indent_level);
        s.append("⚠️  ");
        s.append(message);
        s
    }

    /// A line announcing a step in progress.
    pub fn step_line(message: &str, indent_level: usize) -> (r: String)
        ensures
            r@ == spec_indent(indent_level as nat) + "⏳ "@ + message@,
    {
        let mut s = indent_spaces(indent_level);
        s.append("⏳ ");
        s.append(message);
        s
    }
}

/// The state of one announced step: its message and the indentation it was
/// announced at, kept so the closing line matches the opening one.
#[derive(Debug, PartialEq)]
pub struct PlainLogger {
    pub message: String,
    pub indent_level: usize,
}

/// Announces a step: returns its state, whose opening line the caller
/// writes with [`Logger::step_line`].
pub fn start_spinner(message: String, indent_level: usize) -> (r: PlainLogger)
    ensures
        r.message == message,
        r.indent_level == indent_level,
{
    PlainLogger { message, indent_level }
}

/// Closes an announced step: the success line that reports it completed.
pub fn stop_spinner(logger: &PlainLogger) -> (r: String)
    ensures
        r@ == spec_indent(logger.indent_level as nat) + "✅ "@ + logger.message@
            + " - Completed"@,
{
    let mut body = logger.message.clone();
    body.append(" - Completed");
    Logger::success_line(body.as_str(), logger.indent_level)
}

impl PlainLogger {
    /// Closes an announced step with a custom message, rendered as an
    /// informational line at the step's indentation.
    pub fn stop_with_symbol(&self, message: &str) -> (r: String)
        ensures
            r@ == spec_indent(self.indent_level as nat) + "ℹ️  "@ + message@,
    {
        Logger::info_line(message, self.indent_level)
    }
}

} // verus!
