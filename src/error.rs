//! Classified failures of a tool call.
use vstd::prelude::*;

verus! {

/// Every failed attempt ends in exactly one of these.
#[derive(Clone, Debug)]
pub enum ToolError {
    /// The library refused to go on by itself (an empty command, an
    /// executable it could not resolve).
    Rejected(String),
    /// The sandbox refused the attempt; `message` is the backend's reason.
    SandboxDenied { message: String },
    /// The process ran and failed, or ran out of time.
    ExecutionFailed { message: String, timed_out: bool },
    /// A approver declined. `sandbox_denial` keeps the reason of the earlier
    /// sandbox refusal when the decline answered a retry prompt.
    ApprovalDenied { sandbox_denial: Option<String> },
    /// A approver aborted the turn.
    Aborted,
}

} // verus!
