//! Approval policies, review decisions and the capability answers a tool
//! runtime gives the attempt controller.
use vstd::prelude::*;

verus! {

/// When the session asks a human before running a command.
#[derive(Clone, Copy, Debug, PartialEq, Eq, Structural)]
pub enum AskForApproval {
    /// Ask unless the command is known to be safe.
    UnlessTrusted,
    /// Run in the sandbox first; ask only when the sandbox refuses.
    OnFailure,
    /// The model decides when to ask.
    OnRequest,
    /// Never ask; failures are reported back instead.
    Never,
}

/// Outcome of a review.
#[derive(Clone, Copy, Debug, PartialEq, Eq, Structural)]
pub enum ReviewDecision {
    /// Granted for this one request.
    Approved,
    /// Granted for this request and for every later one with the same key
    /// within the session.
    ApprovedForSession,
    /// Refused; the agent may go on with something else.
    Denied,
    /// Refused; the whole turn stops.
    Abort,
}

impl ReviewDecision {
    pub open spec fn spec_is_granted(self) -> bool {
        self == ReviewDecision::Approved || self == ReviewDecision::ApprovedForSession
    }

    /// Whether the decision lets the request go ahead.
    pub fn is_granted(&self) -> (r: bool)
        ensures
            r == self.spec_is_granted(),
    {
        match self {
            ReviewDecision::Approved | ReviewDecision::ApprovedForSession => true,
            _ => false,
        }
    }
}

/// Whether a tool kind wants to run inside the sandbox.
#[derive(Clone, Copy, Debug, PartialEq, Eq, Structural)]
pub enum SandboxablePreference {
    /// Sandbox whenever the session's sandbox policy asks for it.
    Auto,
    /// Always sandbox.
    Require,
    /// Never sandbox.
    Forbid,
}

/// Per-request override of the session's approval policy.
#[derive(Clone, Copy, Debug, PartialEq, Eq, Structural)]
pub enum ApprovalRequirement {
    /// The request is already approved: no prompt.
    Skip,
    /// The request must be reviewed before it runs.
    NeedsApproval,
    /// The request may not run at all.
    Forbidden,
}

} // verus!
