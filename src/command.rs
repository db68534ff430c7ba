//! Turning a request into a fully resolved description of one process
//! invocation.
use vstd::prelude::*;
use crate::error::ToolError;
use crate::request::{ApplyPatchRequest, ShellRequest, clone_strings};

verus! {

/// Marker argument that makes the agent's executable apply the patch given
/// as the next argument.
pub const CODEX_APPLY_PATCH_ARG1: &'static str = "--codex-run-as-apply-patch";

pub open spec fn apply_patch_marker() -> Seq<char> {
    CODEX_APPLY_PATCH_ARG1@
}

/// The characters of each string of a list.
pub open spec fn string_views(v: Seq<String>) -> Seq<Seq<char>> {
    v.map_values(|s: String| s@)
}

/// One process invocation. Each attempt builds its own.
#[derive(Clone, Debug)]
pub struct CommandSpec {
    pub program: String,
    pub args: Vec<String>,
    pub cwd: String,
    pub env: Vec<(String, String)>,
    pub timeout_ms: Option<u64>,
    pub with_escalated_permissions: Option<bool>,
    pub justification: Option<String>,
}

impl CommandSpec {
    /// Field-for-field equality, strings compared by their characters.
    pub open spec fn same_as(self, other: CommandSpec) -> bool {
        &&& self.program@ == other.program@
        &&& string_views(self.args@) == string_views(other.args@)
        &&& self.cwd == other.cwd
        &&& self.env@ == other.env@
        &&& self.timeout_ms == other.timeout_ms
        &&& self.with_escalated_permissions == other.with_escalated_permissions
        &&& self.justification == other.justification
    }

    /// `self` is the command for the given shell fields: the first word is
    /// the program, the rest are its arguments, every other field is copied.
    pub open spec fn is_shell_command(
        self,
        command: Seq<String>,
        cwd: String,
        env: Seq<(String, String)>,
        timeout_ms: Option<u64>,
        with_escalated_permissions: Option<bool>,
        justification: Option<String>,
    ) -> bool {
        &&& command.len() > 0
        &&& self.program == command[0]
        &&& self.args@ == command.skip(1)
        &&& self.cwd == cwd
        &&& self.env@ == env
        &&& self.timeout_ms == timeout_ms
        &&& self.with_escalated_permissions == with_escalated_permissions
        &&& self.justification == justification
    }

    /// `self` re-launches `exe` in patch mode for `req`: the marker, then the
    /// patch text as one opaque argument, no environment, no escalation.
    pub open spec fn is_apply_patch_command(self, req: ApplyPatchRequest, exe: String) -> bool {
        &&& self.program == exe
        &&& self.args@.len() == 2
        &&& self.args@[0]@ == apply_patch_marker()
        &&& self.args@[1] == req.patch
        &&& self.cwd == req.cwd
        &&& self.env@.len() == 0
        &&& self.timeout_ms == req.timeout_ms
        &&& self.with_escalated_permissions is None
        &&& self.justification is None
    }
}

/// Copies name/value pairs one by one.
fn clone_env(v: &Vec<(String, String)>) -> (r: Vec<(String, String)>)
    ensures
        r@ == v@,
{
    let mut out: Vec<(String, String)> = Vec::new();
    let mut i: usize = 0;
    while i < v.len()
        invariant
            i <= v.len(),
            out@ == v@.take(i as int),
        decreases v.len() - i,
    {
        out.push((v[i].0.clone(), v[i].1.clone()));
        i = i + 1;
        assert(out@ =~= v@.take(i as int));
    }
    assert(out@ =~= v@);
    out
}

/// Builds the command for a program and its arguments. An empty command is
/// rejected.
pub fn build_command_spec(
    command: &Vec<String>,
    cwd: &String,
    env: &Vec<(String, String)>,
    timeout_ms: Option<u64>,
    with_escalated_permissions: Option<bool>,
    justification: Option<String>,
) -> (r: Result<CommandSpec, ToolError>)
    ensures
        r is Ok <==> command@.len() > 0,
        r is Ok ==> r->Ok_0.is_shell_command(
            command@,
            *cwd,
            env@,
            timeout_ms,
            with_escalated_permissions,
            justification,
        ),
        r is Err ==> r->Err_0 is Rejected,
{
    if command.len() == 0 {
        return Err(ToolError::Rejected(String::from_str("command args are empty")));
    }
    let mut args: Vec<String> = Vec::new();
    let mut i: usize = 1;
    while i < command.len()
        invariant
            1 <= i <= command.len(),
            args@ == command@.subrange(1, i as int),
        decreases command.len() - i,
    {
        args.push(command[i].clone());
        i = i + 1;
        assert(args@ =~= command@.subrange(1, i as int));
    }
    Ok(CommandSpec {
        program: command[0].clone(),
        args,
        cwd: cwd.clone(),
        env: clone_env(env),
        timeout_ms,
        with_escalated_permissions,
        justification,
    })
}

/// Builds the command for a shell request.
pub fn build_shell_spec(req: &ShellRequest) -> (r: Result<CommandSpec, ToolError>)
    ensures
        r is Ok <==> req.command@.len() > 0,
        r is Ok ==> r->Ok_0.is_shell_command(
            req.command@,
            req.cwd,
            req.env@,
            req.timeout_ms,
            req.with_escalated_permissions,
            req.justification,
        ),
        r is Err ==> r->Err_0 is Rejected,
{
    let justification = match &req.justification {
        Some(j) => Some(j.clone()),
        None => None,
    };
    build_command_spec(
        &req.command,
        &req.cwd,
        &req.env,
        req.timeout_ms,
        req.with_escalated_permissions,
        justification,
    )
}

/// The executable that applies a patch: the request's override if it has
/// one, else the running executable as `current_exe` reports it.
pub open spec fn patch_executable(req: ApplyPatchRequest, current_exe: Result<String, String>) -> Option<String> {
    match req.codex_exe {
        Some(p) => Some(p),
        None => match current_exe {
            Ok(p) => Some(p),
            Err(_) => None,
        },
    }
}

/// Builds the self-invocation command for a patch request. `current_exe` is
/// the running executable's path, or why it could not be found; it is read
/// only when the request names no executable.
pub fn build_apply_patch_spec(req: &ApplyPatchRequest, current_exe: Result<String, String>) -> (r: Result<CommandSpec, ToolError>)
    ensures
        r is Ok <==> patch_executable(*req, current_exe) is Some,
        r is Ok ==> r->Ok_0.is_apply_patch_command(*req, patch_executable(*req, current_exe)->Some_0),
        r is Err ==> r->Err_0 is Rejected,
        (r is Err && current_exe is Err) ==> r->Err_0->Rejected_0@ == "failed to determine codex exe: "@ + current_exe->Err_0@,
{
    let exe = match &req.codex_exe {
        Some(path) => path.clone(),
        None => match current_exe {
            Ok(path) => path,
            Err(e) => {
                let msg = String::from_str("failed to determine codex exe: ").concat(e.as_str());
                return Err(ToolError::Rejected(msg));
            },
        },
    };
    let mut args: Vec<String> = Vec::new();
    args.push(String::from_str(CODEX_APPLY_PATCH_ARG1));
    args.push(req.patch.clone());
    Ok(CommandSpec {
        program: exe,
        args,
        cwd: req.cwd.clone(),
        env: Vec::new(),
        timeout_ms: req.timeout_ms,
        with_escalated_permissions: None,
        justification: None,
    })
}

/// Reads a self-invocation argument list back: the patch text when the list
/// is the marker followed by one argument.
pub open spec fn decoded_patch(args: Seq<String>) -> Option<String> {
    if args.len() == 2 && args[0]@ == apply_patch_marker() {
        Some(args[1])
    } else {
        None
    }
}

/// Decodes the arguments of a self-invocation into the patch text.
pub fn decode_apply_patch_args(args: &Vec<String>) -> (r: Option<String>)
    ensures
        r == decoded_patch(args@),
{
    if args.len() != 2 {
        return None;
    }
    let marker = String::from_str(CODEX_APPLY_PATCH_ARG1);
    if args[0] == marker {
        Some(args[1].clone())
    } else {
        None
    }
}

/// Decoding the self-invocation arguments of a built patch command gives
/// back the request's patch text exactly.
pub proof fn lemma_apply_patch_round_trip(req: ApplyPatchRequest, exe: String, spec: CommandSpec)
    requires
        spec.is_apply_patch_command(req, exe),
    ensures
        decoded_patch(spec.args@) == Some(req.patch),
        decoded_patch(spec.args@)->Some_0@ == req.patch@,
{
}

/// Two commands built from the same shell request agree field for field.
pub proof fn lemma_shell_spec_idempotent(req: ShellRequest, a: CommandSpec, b: CommandSpec)
    requires
        a.is_shell_command(req.command@, req.cwd, req.env@, req.timeout_ms, req.with_escalated_permissions, req.justification),
        b.is_shell_command(req.command@, req.cwd, req.env@, req.timeout_ms, req.with_escalated_permissions, req.justification),
    ensures
        a.same_as(b),
{
}

/// Two commands built from the same patch request and the same executable
/// agree field for field.
pub proof fn lemma_apply_patch_spec_idempotent(req: ApplyPatchRequest, exe: String, a: CommandSpec, b: CommandSpec)
    requires
        a.is_apply_patch_command(req, exe),
        b.is_apply_patch_command(req, exe),
    ensures
        a.same_as(b),
{
    assert(string_views(a.args@) =~= string_views(b.args@));
    assert(a.env@ =~= b.env@);
}

} // verus!
