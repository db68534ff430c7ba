//! The two tool runtimes: what each wants from the sandbox, what its
//! approval key is, and how it starts an approval.
use vstd::prelude::*;
use crate::approval::{ApprovalKey, ApprovalKeyView, ApprovalLookup, ApprovalStore};
use crate::policy::{ApprovalRequirement, AskForApproval, ReviewDecision, SandboxablePreference};
use crate::request::{ApplyPatchRequest, ShellRequest, clone_strings};

verus! {

/// What a approver is asked.
#[derive(Clone, Debug)]
pub struct ApprovalPrompt {
    pub command: Vec<String>,
    pub cwd: String,
    pub reason: Option<String>,
}

/// Where an approval stands once it is started.
#[derive(Clone, Debug)]
pub enum ApprovalStep {
    /// Decided without a prompt of this caller: by a for-session grant, or
    /// by the runtime itself.
    Decided(ReviewDecision),
    /// Show `prompt` and report the decision under `ticket`.
    Ask { ticket: usize, prompt: ApprovalPrompt },
    /// An open prompt for the same key answers this one: wait for `ticket`.
    Wait(usize),
}

/// The cache lookup a step stands for, when it came straight from one.
pub open spec fn step_lookup(s: ApprovalStep) -> ApprovalLookup {
    match s {
        ApprovalStep::Decided(d) => ApprovalLookup::Cached(d),
        ApprovalStep::Ask { ticket, .. } => ApprovalLookup::Prompt(ticket),
        ApprovalStep::Wait(t) => ApprovalLookup::Join(t),
    }
}

pub open spec fn shell_key_view(req: ShellRequest) -> ApprovalKeyView {
    ApprovalKeyView::Shell {
        command: req.command@.map_values(|s: String| s@),
        cwd: req.cwd@,
        escalated: req.with_escalated_permissions == Some(true),
    }
}

pub open spec fn patch_key_view(req: ApplyPatchRequest) -> ApprovalKeyView {
    ApprovalKeyView::ApplyPatch { patch: req.patch@, cwd: req.cwd@ }
}

/// Whether an attempt outside the sandbox needs approval when a runtime
/// does not say otherwise.
pub open spec fn default_no_sandbox_approval(policy: AskForApproval) -> bool {
    policy != AskForApproval::Never && policy != AskForApproval::OnRequest
}

fn copy_reason(r: &Option<String>) -> (out: Option<String>)
    ensures
        out == *r,
{
    match r {
        Some(s) => Some(s.clone()),
        None => None,
    }
}

/// Runs shell commands.
#[derive(Debug, Default)]
pub struct ShellRuntime;

impl ShellRuntime {
    pub fn new() -> Self {
        ShellRuntime
    }

    pub fn sandbox_preference(&self) -> (r: SandboxablePreference)
        ensures
            r == SandboxablePreference::Auto,
    {
        SandboxablePreference::Auto
    }

    pub fn escalate_on_failure(&self) -> (r: bool)
        ensures
            r,
    {
        true
    }

    /// Command, working directory and whether it asks to run escalated.
    pub fn approval_key(&self, req: &ShellRequest) -> (r: ApprovalKey)
        ensures
            r@ == shell_key_view(*req),
    {
        let escalated = match req.with_escalated_permissions {
            Some(e) => e,
            None => false,
        };
        let k = ApprovalKey::Shell { command: clone_strings(&req.command), cwd: req.cwd.clone(), escalated };
        proof {
            assert(req.command@ == k->Shell_command@);
        }
        k
    }

    /// A shell request carries its own approval requirement.
    pub fn approval_requirement(&self, req: &ShellRequest) -> (r: Option<ApprovalRequirement>)
        ensures
            r == Some(req.approval_requirement),
    {
        Some(req.approval_requirement)
    }

    /// A request that asks for escalated permissions skips the sandbox from
    /// the first attempt.
    pub fn wants_escalated_first_attempt(&self, req: &ShellRequest) -> (r: bool)
        ensures
            r == (req.with_escalated_permissions == Some(true)),
    {
        match req.with_escalated_permissions {
            Some(e) => e,
            None => false,
        }
    }

    pub fn wants_no_sandbox_approval(&self, policy: AskForApproval) -> (r: bool)
        ensures
            r == default_no_sandbox_approval(policy),
    {
        !matches!(policy, AskForApproval::Never | AskForApproval::OnRequest)
    }

    /// Starts the approval of a shell request. Unless a grant or an open
    /// prompt answers it, the approver is shown the command, the directory
    /// and the retry reason, or failing that the request's justification.
    pub fn start_approval(&self, req: &ShellRequest, retry_reason: &Option<String>, store: &mut ApprovalStore) -> (r: ApprovalStep)
        requires
            old(store).wf(),
        ensures
            final(store).wf(),
            ApprovalStore::begin_post(*old(store), shell_key_view(*req), *final(store), step_lookup(r)),
            r is Ask ==> r->Ask_prompt.command@ == req.command@,
            r is Ask ==> r->Ask_prompt.cwd == req.cwd,
            r is Ask ==> r->Ask_prompt.reason == (if retry_reason is Some { *retry_reason } else { req.justification }),
    {
        let key = self.approval_key(req);
        match store.begin(&key) {
            ApprovalLookup::Cached(d) => ApprovalStep::Decided(d),
            ApprovalLookup::Join(t) => ApprovalStep::Wait(t),
            ApprovalLookup::Prompt(t) => {
                let reason = match retry_reason {
                    Some(_) => copy_reason(retry_reason),
                    None => copy_reason(&req.justification),
                };
                let prompt = ApprovalPrompt { command: clone_strings(&req.command), cwd: req.cwd.clone(), reason };
                ApprovalStep::Ask { ticket: t, prompt }
            },
        }
    }
}

/// The decision a patch runtime takes by itself when no retry reason calls
/// for a prompt.
pub open spec fn patch_self_decision(user_explicitly_approved: bool) -> ReviewDecision {
    if user_explicitly_approved {
        ReviewDecision::ApprovedForSession
    } else {
        ReviewDecision::Approved
    }
}

/// Applies patches through the agent's own executable.
#[derive(Debug, Default)]
pub struct ApplyPatchRuntime;

impl ApplyPatchRuntime {
    pub fn new() -> Self {
        ApplyPatchRuntime
    }

    pub fn sandbox_preference(&self) -> (r: SandboxablePreference)
        ensures
            r == SandboxablePreference::Auto,
    {
        SandboxablePreference::Auto
    }

    pub fn escalate_on_failure(&self) -> (r: bool)
        ensures
            r,
    {
        true
    }

    /// Patch text and working directory.
    pub fn approval_key(&self, req: &ApplyPatchRequest) -> (r: ApprovalKey)
        ensures
            r@ == patch_key_view(*req),
    {
        ApprovalKey::ApplyPatch { patch: req.patch.clone(), cwd: req.cwd.clone() }
    }

    /// A patch request keeps the session's approval policy.
    pub fn approval_requirement(&self, req: &ApplyPatchRequest) -> (r: Option<ApprovalRequirement>)
        ensures
            r is None,
    {
        None
    }

    /// A patch is always tried in the sandbox first.
    pub fn wants_escalated_first_attempt(&self, req: &ApplyPatchRequest) -> (r: bool)
        ensures
            !r,
    {
        false
    }

    /// A patch outside the sandbox needs approval under every policy but
    /// never-ask.
    pub fn wants_no_sandbox_approval(&self, policy: AskForApproval) -> (r: bool)
        ensures
            r == (policy != AskForApproval::Never),
    {
        !matches!(policy, AskForApproval::Never)
    }

    /// Starts the approval of a patch. Unless a grant or an open prompt
    /// answers it: with a retry reason the approver is asked about
    /// `apply_patch` in the request's directory; without one the runtime
    /// decides at once, for the session when the user already approved the
    /// patch, and that decision is reported to the store.
    pub fn start_approval(&self, req: &ApplyPatchRequest, retry_reason: &Option<String>, store: &mut ApprovalStore) -> (r: ApprovalStep)
        requires
            old(store).wf(),
        ensures
            final(store).wf(),
            old(store).granted(patch_key_view(*req)) ==> r == ApprovalStep::Decided(ReviewDecision::ApprovedForSession)
                && *final(store) == *old(store),
            !old(store).granted(patch_key_view(*req)) && old(store).asking(patch_key_view(*req)) ==> r is Wait
                && old(store).pending(patch_key_view(*req), r->Wait_0 as int) && *final(store) == *old(store),
            !old(store).granted(patch_key_view(*req)) && !old(store).asking(patch_key_view(*req)) && retry_reason is Some ==> {
                &&& r is Ask
                &&& ApprovalStore::begin_post(*old(store), patch_key_view(*req), *final(store), step_lookup(r))
                &&& r->Ask_prompt.command@.len() == 1
                &&& r->Ask_prompt.command@[0]@ == "apply_patch"@
                &&& r->Ask_prompt.cwd == req.cwd
                &&& r->Ask_prompt.reason == *retry_reason
            },
            !old(store).granted(patch_key_view(*req)) && !old(store).asking(patch_key_view(*req)) && retry_reason is None ==> {
                let d = patch_self_decision(req.user_explicitly_approved);
                &&& r == ApprovalStep::Decided(d)
                &&& final(store).issued() == old(store).issued() + 1
                &&& final(store).outcome_of(old(store).issued()) == Some(d)
                &&& !final(store).asking(patch_key_view(*req))
                &&& forall|k: ApprovalKeyView| #[trigger] final(store).granted(k)
                    == (old(store).granted(k) || (k == patch_key_view(*req) && d == ReviewDecision::ApprovedForSession))
            },
    {
        let key = self.approval_key(req);
        match store.begin(&key) {
            ApprovalLookup::Cached(d) => ApprovalStep::Decided(d),
            ApprovalLookup::Join(t) => ApprovalStep::Wait(t),
            ApprovalLookup::Prompt(t) => {
                if retry_reason.is_some() {
                    let mut command: Vec<String> = Vec::new();
                    command.push(String::from_str("apply_patch"));
                    let prompt = ApprovalPrompt { command, cwd: req.cwd.clone(), reason: copy_reason(retry_reason) };
                    ApprovalStep::Ask { ticket: t, prompt }
                } else {
                    let d = if req.user_explicitly_approved {
                        ReviewDecision::ApprovedForSession
                    } else {
                        ReviewDecision::Approved
                    };
                    let ghost s1 = *store;
                    assert(s1.pending(key@, t as int));
                    store.finish(t, d);
                    assert(ApprovalStore::finish_post(s1, key@, t as int, d, *store));
                    ApprovalStep::Decided(d)
                }
            },
        }
    }
}

} // verus!
