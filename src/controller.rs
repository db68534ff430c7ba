//! The attempt controller: one sandboxed (or escalated-from-the-start)
//! attempt, and on a sandbox refusal at most one escalated retry, granted by
//! a review. The caller performs each action and reports what came of it.
use vstd::prelude::*;
use crate::error::ToolError;
use crate::policy::{ApprovalRequirement, AskForApproval, ReviewDecision};

verus! {

/// What a finished process left behind.
#[derive(Clone, Debug)]
pub struct ExecToolCallOutput {
    pub exit_code: i32,
    pub stdout: String,
    pub stderr: String,
    pub duration_ms: u64,
}

/// How one attempt ended, as the execution backend reports it.
#[derive(Clone, Debug)]
pub enum AttemptOutcome {
    Success(ExecToolCallOutput),
    /// The sandbox refused; the reason is shown to a approver on retry.
    SandboxDenied(String),
    /// The process failed or ran out of time. Never retried.
    Failed { message: String, timed_out: bool },
}

/// What the controller is told.
#[derive(Clone, Debug)]
pub enum Event {
    Start,
    Decision(ReviewDecision),
    Finished(AttemptOutcome),
}

/// What the controller asks its caller to do next.
#[derive(Debug)]
pub enum Action {
    /// Obtain a review decision, citing the reason when there is one.
    RequestApproval { retry_reason: Option<String> },
    /// Run one attempt, inside the sandbox unless `escalated`.
    Run { escalated: bool },
    /// The request is over.
    Complete(Result<ExecToolCallOutput, ToolError>),
    /// The event does not fit the current phase and is ignored.
    Nothing,
}

#[derive(Clone, Copy, Debug, PartialEq, Eq, Structural)]
pub enum Phase {
    Ready,
    InitialApproval,
    Sandboxed,
    RetryApproval,
    Escalated,
    Done,
}

/// What the controller has to know of the runtime and the policy.
#[derive(Clone, Copy, Debug, PartialEq, Eq, Structural)]
pub struct AttemptPlan {
    /// A review comes before the first attempt.
    pub needs_initial_approval: bool,
    /// The first attempt already runs outside the sandbox.
    pub escalated_first: bool,
    /// A sandbox refusal may be retried escalated, once, after a grant.
    pub retry_allowed: bool,
}

/// The session's approval requirement when the runtime gives none.
pub open spec fn default_requirement(policy: AskForApproval) -> ApprovalRequirement {
    if policy == AskForApproval::UnlessTrusted {
        ApprovalRequirement::NeedsApproval
    } else {
        ApprovalRequirement::Skip
    }
}

pub open spec fn effective_requirement(policy: AskForApproval, requirement: Option<ApprovalRequirement>) -> ApprovalRequirement {
    match requirement {
        Some(r) => r,
        None => default_requirement(policy),
    }
}

/// The plan for a request that is not forbidden.
pub open spec fn planned(
    policy: AskForApproval,
    requirement: Option<ApprovalRequirement>,
    escalate_on_failure: bool,
    escalated_first: bool,
    no_sandbox_approval: bool,
) -> AttemptPlan {
    AttemptPlan {
        needs_initial_approval: effective_requirement(policy, requirement) == ApprovalRequirement::NeedsApproval
            || (escalated_first && no_sandbox_approval),
        escalated_first,
        retry_allowed: escalate_on_failure && policy != AskForApproval::Never,
    }
}

/// Plans the attempts of one request from the runtime's answers: its
/// approval requirement, whether it escalates on failure, whether it runs
/// escalated from the start, and whether an unsandboxed run needs approval
/// under `policy`. A forbidden request is rejected.
pub fn plan_attempts(
    policy: AskForApproval,
    requirement: Option<ApprovalRequirement>,
    escalate_on_failure: bool,
    escalated_first: bool,
    no_sandbox_approval: bool,
) -> (r: Result<AttemptPlan, ToolError>)
    ensures
        r is Err <==> effective_requirement(policy, requirement) == ApprovalRequirement::Forbidden,
        r is Err ==> r->Err_0 is Rejected,
        r is Ok ==> r->Ok_0 == planned(policy, requirement, escalate_on_failure, escalated_first, no_sandbox_approval),
{
    let req = match requirement {
        Some(r) => r,
        None => if matches!(policy, AskForApproval::UnlessTrusted) {
            ApprovalRequirement::NeedsApproval
        } else {
            ApprovalRequirement::Skip
        },
    };
    if matches!(req, ApprovalRequirement::Forbidden) {
        return Err(ToolError::Rejected(String::from_str("request forbidden by approval policy")));
    }
    let needs = matches!(req, ApprovalRequirement::NeedsApproval) || (escalated_first && no_sandbox_approval);
    Ok(AttemptPlan {
        needs_initial_approval: needs,
        escalated_first,
        retry_allowed: escalate_on_failure && !matches!(policy, AskForApproval::Never),
    })
}

/// The state of one request.
pub struct Controller {
    pub plan: AttemptPlan,
    pub phase: Phase,
    /// Reason of the sandbox refusal being retried.
    pub denial: Option<String>,
}

/// The action that starts an attempt once any initial review is done.
pub open spec fn first_run(plan: AttemptPlan) -> (Phase, bool) {
    if plan.escalated_first {
        (Phase::Escalated, true)
    } else {
        (Phase::Sandboxed, false)
    }
}

/// The terminal result of an attempt that was not refused by the sandbox,
/// or that may not be retried.
pub open spec fn attempt_result(o: AttemptOutcome) -> Result<ExecToolCallOutput, ToolError> {
    match o {
        AttemptOutcome::Success(out) => Ok(out),
        AttemptOutcome::SandboxDenied(m) => Err(ToolError::SandboxDenied { message: m }),
        AttemptOutcome::Failed { message, timed_out } => Err(ToolError::ExecutionFailed { message, timed_out }),
    }
}

impl Controller {
    pub open spec fn wf(self) -> bool {
        self.phase == Phase::RetryApproval ==> self.denial is Some
    }

    /// One transition: from `c0` on `ev` to `c1`, asking for `a`.
    pub open spec fn step_post(c0: Controller, ev: Event, c1: Controller, a: Action) -> bool {
        &&& c1.plan == c0.plan
        &&& match (c0.phase, ev) {
            (Phase::Ready, Event::Start) => if c0.plan.needs_initial_approval {
                c1.phase == Phase::InitialApproval && a == (Action::RequestApproval { retry_reason: None })
            } else {
                c1.phase == first_run(c0.plan).0 && a == (Action::Run { escalated: first_run(c0.plan).1 })
            },
            (Phase::InitialApproval, Event::Decision(d)) => if d.spec_is_granted() {
                c1.phase == first_run(c0.plan).0 && a == (Action::Run { escalated: first_run(c0.plan).1 })
            } else if d == ReviewDecision::Denied {
                c1.phase == Phase::Done && a == Action::Complete(Err(ToolError::ApprovalDenied { sandbox_denial: None }))
            } else {
                c1.phase == Phase::Done && a == Action::Complete(Err(ToolError::Aborted))
            },
            (Phase::Sandboxed, Event::Finished(o)) => if o is SandboxDenied && c0.plan.retry_allowed {
                &&& c1.phase == Phase::RetryApproval
                &&& c1.denial == Some(o->SandboxDenied_0)
                &&& a == (Action::RequestApproval { retry_reason: Some(o->SandboxDenied_0) })
            } else {
                c1.phase == Phase::Done && a == Action::Complete(attempt_result(o))
            },
            (Phase::RetryApproval, Event::Decision(d)) => if d.spec_is_granted() {
                c1.phase == Phase::Escalated && a == (Action::Run { escalated: true })
            } else if d == ReviewDecision::Denied {
                c1.phase == Phase::Done && a == Action::Complete(Err(ToolError::ApprovalDenied { sandbox_denial: c0.denial }))
            } else {
                c1.phase == Phase::Done && a == Action::Complete(Err(ToolError::Aborted))
            },
            (Phase::Escalated, Event::Finished(o)) => c1.phase == Phase::Done && a == Action::Complete(attempt_result(o)),
            _ => c1.phase == c0.phase && c1.denial == c0.denial && a == Action::Nothing,
        }
    }

    /// A controller for a request planned as `plan`.
    pub fn new(plan: AttemptPlan) -> (r: Controller)
        ensures
            r.wf(),
            r.plan == plan,
            r.phase == Phase::Ready,
            r.denial is None,
    {
        Controller { plan, phase: Phase::Ready, denial: None }
    }

    fn start_attempt(&mut self) -> (a: Action)
        ensures
            final(self).plan == old(self).plan,
            final(self).denial == old(self).denial,
            final(self).phase == first_run(old(self).plan).0,
            a == (Action::Run { escalated: first_run(old(self).plan).1 }),
    {
        if self.plan.escalated_first {
            self.phase = Phase::Escalated;
            Action::Run { escalated: true }
        } else {
            self.phase = Phase::Sandboxed;
            Action::Run { escalated: false }
        }
    }

    fn finish_attempt(&mut self, o: AttemptOutcome) -> (a: Action)
        ensures
            final(self).plan == old(self).plan,
            final(self).denial == old(self).denial,
            final(self).phase == Phase::Done,
            a == Action::Complete(attempt_result(o)),
    {
        self.phase = Phase::Done;
        match o {
            AttemptOutcome::Success(out) => Action::Complete(Ok(out)),
            AttemptOutcome::SandboxDenied(m) => Action::Complete(Err(ToolError::SandboxDenied { message: m })),
            AttemptOutcome::Failed { message, timed_out } => Action::Complete(
                Err(ToolError::ExecutionFailed { message, timed_out }),
            ),
        }
    }

    /// Advances the request by one event.
    pub fn step(&mut self, ev: Event) -> (a: Action)
        requires
            old(self).wf(),
        ensures
            final(self).wf(),
            Self::step_post(*old(self), ev, *final(self), a),
    {
        match ev {
            Event::Start => {
                if self.phase == Phase::Ready {
                    if self.plan.needs_initial_approval {
                        self.phase = Phase::InitialApproval;
                        Action::RequestApproval { retry_reason: None }
                    } else {
                        self.start_attempt()
                    }
                } else {
                    Action::Nothing
                }
            },
            Event::Decision(d) => {
                if self.phase == Phase::InitialApproval {
                    if d.is_granted() {
                        self.start_attempt()
                    } else if d == ReviewDecision::Denied {
                        self.phase = Phase::Done;
                        Action::Complete(Err(ToolError::ApprovalDenied { sandbox_denial: None }))
                    } else {
                        self.phase = Phase::Done;
                        Action::Complete(Err(ToolError::Aborted))
                    }
                } else if self.phase == Phase::RetryApproval {
                    if d.is_granted() {
                        self.phase = Phase::Escalated;
                        Action::Run { escalated: true }
                    } else if d == ReviewDecision::Denied {
                        self.phase = Phase::Done;
                        let reason = match &self.denial {
                            Some(m) => Some(m.clone()),
                            None => None,
                        };
                        Action::Complete(Err(ToolError::ApprovalDenied { sandbox_denial: reason }))
                    } else {
                        self.phase = Phase::Done;
                        Action::Complete(Err(ToolError::Aborted))
                    }
                } else {
                    Action::Nothing
                }
            },
            Event::Finished(o) => {
                if self.phase == Phase::Sandboxed {
                    match o {
                        AttemptOutcome::SandboxDenied(m) => {
                            if self.plan.retry_allowed {
                                self.phase = Phase::RetryApproval;
                                self.denial = Some(m.clone());
                                Action::RequestApproval { retry_reason: Some(m) }
                            } else {
                                self.finish_attempt(AttemptOutcome::SandboxDenied(m))
                            }
                        },
                        other => self.finish_attempt(other),
                    }
                } else if self.phase == Phase::Escalated {
                    self.finish_attempt(o)
                } else {
                    Action::Nothing
                }
            },
        }
    }
}

/// A request whose runtime does not escalate on failure ends on its first
/// sandbox refusal: the refusal is its result, and nothing it is told later
/// starts another attempt.
pub proof fn lemma_no_retry_without_escalation(
    policy: AskForApproval,
    requirement: Option<ApprovalRequirement>,
    escalate_on_failure: bool,
    escalated_first: bool,
    no_sandbox_approval: bool,
    c0: Controller,
    m: String,
    c1: Controller,
    a: Action,
    ev: Event,
    c2: Controller,
    a2: Action,
)
    requires
        !escalate_on_failure,
        c0.plan == planned(policy, requirement, escalate_on_failure, escalated_first, no_sandbox_approval),
        c0.phase == Phase::Sandboxed,
        Controller::step_post(c0, Event::Finished(AttemptOutcome::SandboxDenied(m)), c1, a),
        Controller::step_post(c1, ev, c2, a2),
    ensures
        a == Action::Complete(Err(ToolError::SandboxDenied { message: m })),
        c1.phase == Phase::Done,
        c2.phase == Phase::Done,
        a2 == Action::Nothing,
{
}

/// An escalated attempt is asked for only as the first attempt of a request
/// planned to run escalated, or right after a review granted the retry of a
/// sandbox refusal that the plan allows to retry.
pub proof fn lemma_escalation_needs_grant(c0: Controller, ev: Event, c1: Controller)
    requires
        Controller::step_post(c0, ev, c1, Action::Run { escalated: true }),
    ensures
        c0.plan.escalated_first && (c0.phase == Phase::Ready || c0.phase == Phase::InitialApproval)
            || (c0.phase == Phase::RetryApproval && ev is Decision && ev->Decision_0.spec_is_granted()),
{
}

/// A retry prompt is issued only from a sandboxed attempt the sandbox
/// refused, under a plan that allows the retry, and carries the refusal.
pub proof fn lemma_retry_prompt_carries_denial(c0: Controller, ev: Event, c1: Controller, reason: Option<String>)
    requires
        reason is Some,
        Controller::step_post(c0, ev, c1, Action::RequestApproval { retry_reason: reason }),
    ensures
        c0.phase == Phase::Sandboxed,
        c0.plan.retry_allowed,
        ev == Event::Finished(AttemptOutcome::SandboxDenied(reason->Some_0)),
        c1.denial == reason,
{
}

} // verus!
