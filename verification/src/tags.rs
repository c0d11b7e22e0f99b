//! Short textual tags that prefix console messages.
//!
//! The engine itself never prints; these tags are part of the message text it
//! hands to the caller, which may colour them before writing them out.

use vstd::prelude::*;

verus! {

/// Tag marking a successful operation.
pub fn ok_tag() -> (r: String)
    ensures
        r@ == "[OK]"@,
{
    String::from_str("[OK]")
}

/// Tag marking a failed operation.
pub fn error_tag() -> (r: String)
    ensures
        r@ == "[ERR]"@,
{
    String::from_str("[ERR]")
}

/// Tag marking a message logged by a flow step.
pub fn log_tag() -> (r: String)
    ensures
        r@ == "[LOG]"@,
{
    String::from_str("[LOG]")
}

/// Tag marking an informational message.
pub fn info_tag() -> (r: String)
    ensures
        r@ == "[INFO]"@,
{
    String::from_str("[INFO]")
}

/// Tag marking a warning.
pub fn warning_tag() -> (r: String)
    ensures
        r@ == "[WARN]"@,
{
    String::from_str("[WARN]")
}

} // verus!
