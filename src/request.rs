//! Typed tool requests. A request is built once and only read afterwards.
use vstd::prelude::*;
use crate::policy::ApprovalRequirement;

verus! {

/// A shell command proposed by the model.
#[derive(Clone, Debug)]
pub struct ShellRequest {
    /// Program followed by its arguments.
    pub command: Vec<String>,
    pub cwd: String,
    pub timeout_ms: Option<u64>,
    /// Environment as ordered name/value pairs.
    pub env: Vec<(String, String)>,
    pub with_escalated_permissions: Option<bool>,
    pub justification: Option<String>,
    pub approval_requirement: ApprovalRequirement,
}

/// A patch to apply by re-launching the agent's own executable.
#[derive(Clone, Debug)]
pub struct ApplyPatchRequest {
    pub patch: String,
    pub cwd: String,
    pub timeout_ms: Option<u64>,
    /// The user approved this exact patch before it reached the runtime.
    pub user_explicitly_approved: bool,
    /// Executable to launch instead of the running one.
    pub codex_exe: Option<String>,
}

/// What a approver is shown when a sandboxed attempt is retried.
#[derive(Clone, Debug)]
pub struct SandboxRetryData {
    pub command: Vec<String>,
    pub cwd: String,
}

/// Copies a list of strings one by one.
pub fn clone_strings(v: &Vec<String>) -> (r: Vec<String>)
    ensures
        r@ == v@,
{
    let mut out: Vec<String> = Vec::new();
    let mut i: usize = 0;
    while i < v.len()
        invariant
            i <= v.len(),
            out@ == v@.take(i as int),
        decreases v.len() - i,
    {
        out.push(v[i].clone());
        i = i + 1;
        assert(out@ =~= v@.take(i as int));
    }
    assert(out@ =~= v@);
    out
}

impl ShellRequest {
    /// Retry facts for a shell request: its command and working directory.
    pub fn sandbox_retry_data(&self) -> (r: Option<SandboxRetryData>)
        ensures
            r is Some,
            r->Some_0.command@ == self.command@,
            r->Some_0.cwd == self.cwd,
    {
        Some(SandboxRetryData { command: clone_strings(&self.command), cwd: self.cwd.clone() })
    }
}

impl ApplyPatchRequest {
    /// A patch request gives no retry facts: the approver is shown the
    /// patch itself.
    pub fn sandbox_retry_data(&self) -> (r: Option<SandboxRetryData>)
        ensures
            r is None,
    {
        None
    }
}

} // verus!
