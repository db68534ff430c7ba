//! Binding of requests to the commands the execution backend runs.
use vstd::prelude::*;
use crate::command::{CommandSpec, build_apply_patch_spec, build_shell_spec, patch_executable};
use crate::error::ToolError;
use crate::request::{ApplyPatchRequest, ShellRequest};

verus! {

/// Turns each kind of request into the command one attempt runs. A fresh
/// command is built for every attempt.
pub trait ToolExecutor {
    fn shell_command(&self, req: &ShellRequest) -> (r: Result<CommandSpec, ToolError>)
        ensures
            r is Ok <==> req.command@.len() > 0,
            r is Ok ==> r->Ok_0.is_shell_command(
                req.command@,
                req.cwd,
                req.env@,
                req.timeout_ms,
                req.with_escalated_permissions,
                req.justification,
            ),
            r is Err ==> r->Err_0 is Rejected;

    /// `current_exe` is the running executable, or why it is unknown.
    fn apply_patch_command(&self, req: &ApplyPatchRequest, current_exe: Result<String, String>) -> (r: Result<CommandSpec, ToolError>)
        ensures
            r is Ok <==> patch_executable(*req, current_exe) is Some,
            r is Ok ==> r->Ok_0.is_apply_patch_command(*req, patch_executable(*req, current_exe)->Some_0),
            r is Err ==> r->Err_0 is Rejected;
}

/// The executor every session uses; it holds no per-call state.
#[derive(Debug, Default)]
pub struct DefaultToolExecutor;

impl ToolExecutor for DefaultToolExecutor {
    fn shell_command(&self, req: &ShellRequest) -> (r: Result<CommandSpec, ToolError>) {
        build_shell_spec(req)
    }

    fn apply_patch_command(&self, req: &ApplyPatchRequest, current_exe: Result<String, String>) -> (r: Result<CommandSpec, ToolError>) {
        build_apply_patch_spec(req, current_exe)
    }
}

pub fn default_tool_executor() -> DefaultToolExecutor {
    DefaultToolExecutor
}

/// Where live output of a call is sent: the turn's submission id and the
/// call id.
#[derive(Clone, Debug)]
pub struct StdoutStream {
    pub sub_id: String,
    pub call_id: String,
}

/// The live-output stream of a call.
pub fn stdout_stream(sub_id: &String, call_id: &String) -> (r: Option<StdoutStream>)
    ensures
        r is Some,
        r->Some_0.sub_id == *sub_id,
        r->Some_0.call_id == *call_id,
{
    Some(StdoutStream { sub_id: sub_id.clone(), call_id: call_id.clone() })
}

} // verus!
