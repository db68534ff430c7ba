use codex_core::approval::{ApprovalLookup, ApprovalStore};
use codex_core::command::build_apply_patch_spec;
use codex_core::command::build_shell_spec;
use codex_core::controller::{plan_attempts, Action, AttemptOutcome, Controller, Event, ExecToolCallOutput, Phase};
use codex_core::error::ToolError;
use codex_core::policy::{ApprovalRequirement, AskForApproval, ReviewDecision};
use codex_core::request::{ApplyPatchRequest, ShellRequest};
use codex_core::runtime::{ApplyPatchRuntime, ApprovalStep, ShellRuntime};

fn shell_request(words: &[&str]) -> ShellRequest {
    ShellRequest {
        command: words.iter().map(|w| w.to_string()).collect(),
        cwd: "/work".to_string(),
        timeout_ms: Some(1000),
        env: vec![],
        with_escalated_permissions: None,
        justification: None,
        approval_requirement: ApprovalRequirement::Skip,
    }
}

fn output(text: &str) -> ExecToolCallOutput {
    ExecToolCallOutput { exit_code: 0, stdout: text.to_string(), stderr: String::new(), duration_ms: 5 }
}

fn shell_plan(req: &ShellRequest, policy: AskForApproval) -> Controller {
    let rt = ShellRuntime::new();
    let plan = plan_attempts(
        policy,
        rt.approval_requirement(req),
        rt.escalate_on_failure(),
        rt.wants_escalated_first_attempt(req),
        rt.wants_no_sandbox_approval(policy),
    )
    .ok()
    .expect("plan");
    Controller::new(plan)
}

#[test]
fn never_ask_runs_one_sandboxed_attempt() {
    let req = shell_request(&["echo", "hi"]);
    let spec = build_shell_spec(&req).ok().expect("spec");
    assert_eq!(spec.program, "echo");
    assert_eq!(spec.args, vec!["hi".to_string()]);
    let mut c = shell_plan(&req, AskForApproval::Never);
    assert!(!c.plan.needs_initial_approval);
    assert!(matches!(c.step(Event::Start), Action::Run { escalated: false }));
    match c.step(Event::Finished(AttemptOutcome::Success(output("hi")))) {
        Action::Complete(Ok(out)) => assert_eq!(out.stdout, "hi"),
        other => panic!("unexpected {:?}", other),
    }
    assert_eq!(c.phase, Phase::Done);
    assert!(matches!(c.step(Event::Start), Action::Nothing));
}

#[test]
fn denied_retry_keeps_sandbox_reason() {
    let req = shell_request(&["touch", "/etc/x"]);
    let rt = ShellRuntime::new();
    let mut store = ApprovalStore::new();
    let mut c = shell_plan(&req, AskForApproval::OnFailure);
    assert!(matches!(c.step(Event::Start), Action::Run { escalated: false }));
    let reason = match c.step(Event::Finished(AttemptOutcome::SandboxDenied("write blocked".to_string()))) {
        Action::RequestApproval { retry_reason: Some(r) } => r,
        other => panic!("unexpected {:?}", other),
    };
    assert_eq!(reason, "write blocked");
    let ticket = match rt.start_approval(&req, &Some(reason), &mut store) {
        ApprovalStep::Ask { ticket, prompt } => {
            assert_eq!(prompt.command, req.command);
            assert_eq!(prompt.reason, Some("write blocked".to_string()));
            ticket
        }
        other => panic!("unexpected {:?}", other),
    };
    store.finish(ticket, ReviewDecision::Denied);
    match c.step(Event::Decision(ReviewDecision::Denied)) {
        Action::Complete(Err(ToolError::ApprovalDenied { sandbox_denial })) => {
            assert_eq!(sandbox_denial, Some("write blocked".to_string()))
        }
        other => panic!("unexpected {:?}", other),
    }
    assert!(matches!(c.step(Event::Finished(AttemptOutcome::Success(output("")))), Action::Nothing));
}

#[test]
fn explicitly_approved_patch_runs_without_prompt() {
    let req = ApplyPatchRequest {
        patch: "*** Begin Patch\n*** End Patch\n".to_string(),
        cwd: "/work".to_string(),
        timeout_ms: None,
        user_explicitly_approved: true,
        codex_exe: None,
    };
    let rt = ApplyPatchRuntime::new();
    let mut store = ApprovalStore::new();
    assert!(matches!(
        rt.start_approval(&req, &None, &mut store),
        ApprovalStep::Decided(ReviewDecision::ApprovedForSession)
    ));
    assert_eq!(store.outcome(0), Some(ReviewDecision::ApprovedForSession));
    let policy = AskForApproval::OnRequest;
    let plan = plan_attempts(
        policy,
        rt.approval_requirement(&req),
        rt.escalate_on_failure(),
        rt.wants_escalated_first_attempt(&req),
        rt.wants_no_sandbox_approval(policy),
    )
    .ok()
    .expect("plan");
    let mut c = Controller::new(plan);
    assert!(matches!(c.step(Event::Start), Action::Run { escalated: false }));
    let spec = build_apply_patch_spec(&req, Ok("/usr/bin/codex".to_string())).ok().expect("spec");
    assert_eq!(spec.program, "/usr/bin/codex");
    assert_eq!(spec.args, vec!["--codex-run-as-apply-patch".to_string(), req.patch.clone()]);
    assert!(spec.env.is_empty());
    assert!(matches!(c.step(Event::Finished(AttemptOutcome::Success(output("Done!")))), Action::Complete(Ok(_))));
    assert!(matches!(
        rt.start_approval(&req, &Some("again".to_string()), &mut store),
        ApprovalStep::Decided(ReviewDecision::ApprovedForSession)
    ));
}

#[test]
fn no_escalation_means_no_second_attempt() {
    let plan = plan_attempts(AskForApproval::OnFailure, None, false, false, true).ok().expect("plan");
    assert!(!plan.retry_allowed);
    let mut c = Controller::new(plan);
    assert!(matches!(c.step(Event::Start), Action::Run { escalated: false }));
    match c.step(Event::Finished(AttemptOutcome::SandboxDenied("blocked".to_string()))) {
        Action::Complete(Err(ToolError::SandboxDenied { message })) => assert_eq!(message, "blocked"),
        other => panic!("unexpected {:?}", other),
    }
    assert!(matches!(c.step(Event::Decision(ReviewDecision::Approved)), Action::Nothing));
    assert!(matches!(c.step(Event::Start), Action::Nothing));
}

#[test]
fn never_ask_policy_does_not_retry() {
    let req = shell_request(&["ls"]);
    let mut c = shell_plan(&req, AskForApproval::Never);
    c.step(Event::Start);
    assert!(matches!(
        c.step(Event::Finished(AttemptOutcome::SandboxDenied("no".to_string()))),
        Action::Complete(Err(ToolError::SandboxDenied { .. }))
    ));
}

#[test]
fn granted_retry_runs_escalated_once() {
    let req = shell_request(&["make"]);
    let mut c = shell_plan(&req, AskForApproval::OnFailure);
    c.step(Event::Start);
    c.step(Event::Finished(AttemptOutcome::SandboxDenied("net".to_string())));
    assert_eq!(c.phase, Phase::RetryApproval);
    assert!(matches!(c.step(Event::Decision(ReviewDecision::Approved)), Action::Run { escalated: true }));
    assert!(matches!(
        c.step(Event::Finished(AttemptOutcome::SandboxDenied("net".to_string()))),
        Action::Complete(Err(ToolError::SandboxDenied { .. }))
    ));
    assert_eq!(c.phase, Phase::Done);
}

#[test]
fn timeout_is_not_escalated() {
    let req = shell_request(&["sleep", "9"]);
    let mut c = shell_plan(&req, AskForApproval::OnFailure);
    c.step(Event::Start);
    match c.step(Event::Finished(AttemptOutcome::Failed { message: "timeout".to_string(), timed_out: true })) {
        Action::Complete(Err(ToolError::ExecutionFailed { timed_out, .. })) => assert!(timed_out),
        other => panic!("unexpected {:?}", other),
    }
}

#[test]
fn initial_approval_abort_and_deny() {
    let mut req = shell_request(&["rm", "x"]);
    req.approval_requirement = ApprovalRequirement::NeedsApproval;
    let mut c = shell_plan(&req, AskForApproval::OnRequest);
    assert!(matches!(c.step(Event::Start), Action::RequestApproval { retry_reason: None }));
    assert!(matches!(c.step(Event::Decision(ReviewDecision::Abort)), Action::Complete(Err(ToolError::Aborted))));
    let mut c = shell_plan(&req, AskForApproval::OnRequest);
    c.step(Event::Start);
    assert!(matches!(
        c.step(Event::Decision(ReviewDecision::Denied)),
        Action::Complete(Err(ToolError::ApprovalDenied { sandbox_denial: None }))
    ));
}

#[test]
fn escalated_first_attempt_asks_then_runs_unsandboxed() {
    let mut req = shell_request(&["apt", "install"]);
    req.with_escalated_permissions = Some(true);
    req.approval_requirement = ApprovalRequirement::Skip;
    let mut c = shell_plan(&req, AskForApproval::UnlessTrusted);
    assert!(c.plan.needs_initial_approval);
    assert!(matches!(c.step(Event::Start), Action::RequestApproval { retry_reason: None }));
    assert!(matches!(c.step(Event::Decision(ReviewDecision::ApprovedForSession)), Action::Run { escalated: true }));
}

#[test]
fn forbidden_request_is_rejected() {
    let r = plan_attempts(AskForApproval::OnRequest, Some(ApprovalRequirement::Forbidden), true, false, false);
    assert!(matches!(r, Err(ToolError::Rejected(_))));
    let r = plan_attempts(AskForApproval::UnlessTrusted, None, true, false, false).ok().expect("plan");
    assert!(r.needs_initial_approval);
}

#[test]
fn concurrent_requests_share_one_prompt() {
    let rt = ShellRuntime::new();
    let req = shell_request(&["cargo", "test"]);
    let mut store = ApprovalStore::new();
    let first = rt.start_approval(&req, &None, &mut store);
    let second = rt.start_approval(&req.clone(), &None, &mut store);
    let t = match first {
        ApprovalStep::Ask { ticket, .. } => ticket,
        other => panic!("unexpected {:?}", other),
    };
    assert!(matches!(second, ApprovalStep::Wait(w) if w == t));
    assert_eq!(store.outcome(t), None);
    store.finish(t, ReviewDecision::Approved);
    assert_eq!(store.outcome(t), Some(ReviewDecision::Approved));
    assert!(matches!(rt.start_approval(&req, &None, &mut store), ApprovalStep::Ask { ticket, .. } if ticket == t + 1));
}

#[test]
fn session_grant_is_not_prompted_again() {
    let rt = ShellRuntime::new();
    let req = shell_request(&["git", "push"]);
    let mut store = ApprovalStore::new();
    let key = rt.approval_key(&req);
    let t = match store.begin(&key) {
        ApprovalLookup::Prompt(t) => t,
        other => panic!("unexpected {:?}", other),
    };
    store.finish(t, ReviewDecision::ApprovedForSession);
    for _ in 0..3 {
        assert_eq!(store.begin(&key), ApprovalLookup::Cached(ReviewDecision::ApprovedForSession));
    }
    let other = rt.approval_key(&shell_request(&["git", "pull"]));
    assert!(matches!(store.begin(&other), ApprovalLookup::Prompt(_)));
}
