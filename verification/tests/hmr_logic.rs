use hmr::cdp::ExceptionDetails;
use hmr::cdp::Notification;
use hmr::cdp::SetScriptSourceResponse;
use hmr::cdp::Status;
use hmr::hmr::explain;
use hmr::hmr::is_swap_candidate;
use hmr::hmr::plan_change_batch;
use hmr::hmr::should_retry;
use hmr::hmr::BatchPlan;
use hmr::hmr::HmrOrchestrator;
use hmr::hmr::NotificationStep;
use hmr::hmr::PathStep;
use hmr::hmr::SwapAttempt;
use hmr::hmr::SwapStep;

fn response(status: Status) -> SetScriptSourceResponse {
    SetScriptSourceResponse { status, exception_details: None }
}

/// What one simulated run of the swap loop did, mirroring the driver: feed
/// the scripted responses one at a time until the attempt ends.
struct LoopOutcome {
    delays: usize,
    dispatched: Vec<String>,
    success_lines: Vec<String>,
    failure_lines: Vec<String>,
    restarts: usize,
    attempts_made: usize,
}

fn run_swap_loop(responses: &[SetScriptSourceResponse]) -> LoopOutcome {
    let mut attempt =
        SwapAttempt::begin("file:///app/mod.js".to_string(), "42".to_string());
    let mut out = LoopOutcome {
        delays: 0,
        dispatched: Vec::new(),
        success_lines: Vec::new(),
        failure_lines: Vec::new(),
        restarts: 0,
        attempts_made: 0,
    };
    for resp in responses {
        out.attempts_made += 1;
        match attempt.on_response(resp) {
            SwapStep::Replaced { notify_expression, log_line } => {
                out.dispatched.push(notify_expression);
                out.success_lines.push(log_line);
                return out;
            }
            SwapStep::RetryAfterDelay { log_line, delay_ms } => {
                assert_eq!(delay_ms, 100);
                out.failure_lines.push(log_line);
                out.delays += 1;
            }
            SwapStep::GiveUp { log_line } => {
                out.failure_lines.push(log_line);
                out.restarts += 1;
                return out;
            }
        }
    }
    panic!("the swap loop ran out of scripted responses");
}

#[test]
fn should_retry_only_for_active_blockers() {
    assert!(!should_retry(&Status::Accepted));
    assert!(!should_retry(&Status::CompileError));
    assert!(should_retry(&Status::BlockedByActiveGenerator));
    assert!(should_retry(&Status::BlockedByActiveFunction));
    assert!(!should_retry(&Status::BlockedByTopLevelEsModuleChange));
}

#[test]
fn explain_fixed_statuses() {
    assert_eq!(explain(&response(Status::Accepted)), "OK");
    assert_eq!(
        explain(&response(Status::BlockedByActiveGenerator)),
        "blocked by active generator"
    );
    assert_eq!(
        explain(&response(Status::BlockedByActiveFunction)),
        "blocked by active function"
    );
    assert_eq!(
        explain(&response(Status::BlockedByTopLevelEsModuleChange)),
        "blocked by top-level ES module change"
    );
}

#[test]
fn explain_compile_error_without_details() {
    assert_eq!(
        explain(&response(Status::CompileError)),
        "compile error: No exception details available"
    );
}

#[test]
fn explain_compile_error_with_description() {
    let resp = SetScriptSourceResponse {
        status: Status::CompileError,
        exception_details: Some(ExceptionDetails {
            text: "Unexpected token".to_string(),
            exception_description: Some("SyntaxError at line 3".to_string()),
        }),
    };
    assert_eq!(
        explain(&resp),
        "compile error: Unexpected token - SyntaxError at line 3"
    );
}

#[test]
fn explain_compile_error_with_placeholder_description() {
    // The literal placeholder "undefined" is not meaningful and is dropped.
    let resp = SetScriptSourceResponse {
        status: Status::CompileError,
        exception_details: Some(ExceptionDetails {
            text: "Unexpected token".to_string(),
            exception_description: Some("undefined".to_string()),
        }),
    };
    assert_eq!(explain(&resp), "compile error: Unexpected token");
    let resp = SetScriptSourceResponse {
        status: Status::CompileError,
        exception_details: Some(ExceptionDetails {
            text: "Unexpected token".to_string(),
            exception_description: None,
        }),
    };
    assert_eq!(explain(&resp), "compile error: Unexpected token");
}

#[test]
fn extension_filter() {
    assert!(is_swap_candidate(&"/a/b.js".to_string()));
    assert!(is_swap_candidate(&"/a/b.ts".to_string()));
    assert!(is_swap_candidate(&"a/b.jsx".to_string()));
    assert!(is_swap_candidate(&"/q.tsx".to_string()));
    assert!(!is_swap_candidate(&"/a/b.JS".to_string()));
    assert!(!is_swap_candidate(&"/a/b.mjs".to_string()));
    assert!(!is_swap_candidate(&"/a/readme.md".to_string()));
    assert!(!is_swap_candidate(&"/a/noextension".to_string()));
    assert!(!is_swap_candidate(&"/a/.ts".to_string()));
    assert!(!is_swap_candidate(&"/a/archive.tar.gz".to_string()));
    assert!(!is_swap_candidate(&"".to_string()));
}

#[test]
fn absent_batch_forces_restart() {
    // An unusable batch forces exactly one restart, before any other state
    // is consulted.
    assert!(matches!(plan_change_batch(None), BatchPlan::ForceRestart));
}

#[test]
fn irrelevant_batch_forces_restart() {
    // Only unrecognized extensions: one forced restart, zero swap attempts.
    let batch = vec!["/a/readme.md".to_string(), "/a/photo.png".to_string()];
    assert!(matches!(plan_change_batch(Some(batch)), BatchPlan::ForceRestart));
    assert!(matches!(plan_change_batch(Some(Vec::new())), BatchPlan::ForceRestart));
}

#[test]
fn mixed_batch_keeps_candidates_in_order() {
    let batch = vec![
        "/a/b.js".to_string(),
        "/c/d.rs".to_string(),
        "/e/f.tsx".to_string(),
    ];
    match plan_change_batch(Some(batch)) {
        BatchPlan::AttemptSwaps(kept) => {
            assert_eq!(kept, vec!["/a/b.js".to_string(), "/e/f.tsx".to_string()]);
        }
        BatchPlan::ForceRestart => panic!("expected swap attempts"),
    }
}

#[test]
fn exception_notification_is_fatal() {
    let orchestrator = HmrOrchestrator::new();
    let step = orchestrator.on_notification(&Notification::ExceptionThrown {
        details: ExceptionDetails {
            text: "Uncaught Error: boom".to_string(),
            exception_description: Some("Error: boom at a.js:1".to_string()),
        },
    });
    match step {
        NotificationStep::Fatal(message) => {
            assert_eq!(message, "Uncaught Error: boom Error: boom at a.js:1");
        }
        _ => panic!("expected a fatal step"),
    }
}

#[test]
fn script_parsed_with_file_url_asks_for_canonicalization() {
    let orchestrator = HmrOrchestrator::new();
    let step = orchestrator.on_notification(&Notification::ScriptParsed {
        script_id: "7".to_string(),
        url: "file:///app/mod.js".to_string(),
    });
    match step {
        NotificationStep::Canonicalize { path, script_id } => {
            assert_eq!(path, "/app/mod.js");
            assert_eq!(script_id, "7");
        }
        _ => panic!("expected a canonicalize step"),
    }
}

#[test]
fn foreign_scheme_and_unknown_notifications_are_ignored() {
    let orchestrator = HmrOrchestrator::new();
    let step = orchestrator.on_notification(&Notification::ScriptParsed {
        script_id: "7".to_string(),
        url: "https://example.com/lib.js".to_string(),
    });
    assert!(matches!(step, NotificationStep::Ignore));
    let step = orchestrator.on_notification(&Notification::Unrecognized);
    assert!(matches!(step, NotificationStep::Ignore));
}

#[test]
fn recorded_script_round_trips_through_lookup() {
    // A parsed script's canonical path, once recorded, is found again from
    // the changed path, and the URL offered for the swap is the registry key.
    let mut orchestrator = HmrOrchestrator::new();
    orchestrator
        .on_script_canonicalized("7".to_string(), Some("/app/mod.js".to_string()));
    assert_eq!(
        orchestrator.lookup_script_id(&"file:///app/mod.js".to_string()),
        Some(&"7".to_string())
    );
    match orchestrator.plan_path_swap(&"/app/mod.js".to_string()) {
        PathStep::EmitAndSwap { module_url, script_id } => {
            assert_eq!(module_url, "file:///app/mod.js");
            assert_eq!(script_id, "7");
        }
        PathStep::ForceRestart => panic!("expected a swap plan"),
    }
}

#[test]
fn failed_canonicalization_is_ignored() {
    let mut orchestrator = HmrOrchestrator::new();
    orchestrator.on_script_canonicalized("7".to_string(), None);
    assert!(orchestrator
        .lookup_script_id(&"file:///app/mod.js".to_string())
        .is_none());
}

#[test]
fn re_parsed_script_overwrites_its_identifier() {
    let mut orchestrator = HmrOrchestrator::new();
    orchestrator
        .on_script_canonicalized("7".to_string(), Some("/app/mod.js".to_string()));
    orchestrator
        .on_script_canonicalized("8".to_string(), Some("/app/mod.js".to_string()));
    assert_eq!(
        orchestrator.lookup_script_id(&"file:///app/mod.js".to_string()),
        Some(&"8".to_string())
    );
}

#[test]
fn unknown_script_forces_restart() {
    let orchestrator = HmrOrchestrator::new();
    let step = orchestrator.plan_path_swap(&"/app/mod.js".to_string());
    assert!(matches!(step, PathStep::ForceRestart));
    let step = orchestrator.plan_path_swap(&"not absolute.js".to_string());
    assert!(matches!(step, PathStep::ForceRestart));
}

#[test]
fn blocked_twice_then_accepted() {
    // Blocked on attempts 1 and 2, accepted on attempt 3: exactly 2 retry
    // delays, exactly one dispatched event, exactly one success line, no
    // restart.
    let out = run_swap_loop(&[
        response(Status::BlockedByActiveGenerator),
        response(Status::BlockedByActiveGenerator),
        response(Status::Accepted),
    ]);
    assert_eq!(out.delays, 2);
    assert_eq!(out.dispatched.len(), 1);
    assert_eq!(
        out.dispatched[0],
        "dispatchEvent(new CustomEvent(\"hmr\", { detail: { path: \"file:///app/mod.js\" } }));"
    );
    assert_eq!(out.success_lines.len(), 1);
    assert_eq!(out.success_lines[0], "Replaced changed module file:///app/mod.js");
    assert_eq!(out.restarts, 0);
}

#[test]
fn compile_error_is_never_retried() {
    // A compile error ends the loop at once: zero retries, one failure line
    // naming the compile error, one forced restart.
    let out = run_swap_loop(&[response(Status::CompileError)]);
    assert_eq!(out.attempts_made, 1);
    assert_eq!(out.delays, 0);
    assert_eq!(out.dispatched.len(), 0);
    assert_eq!(out.failure_lines.len(), 1);
    assert!(out.failure_lines[0].contains("compile error:"));
    assert_eq!(out.restarts, 1);
}

#[test]
fn blocked_three_times_gives_up_after_third_attempt() {
    // Three rejections in a row exhaust the budget: the loop stops after the
    // 3rd attempt, prints a failure line, and requests a forced restart.
    let out = run_swap_loop(&[
        response(Status::BlockedByActiveFunction),
        response(Status::BlockedByActiveFunction),
        response(Status::BlockedByActiveFunction),
    ]);
    assert_eq!(out.attempts_made, 3);
    assert_eq!(out.delays, 2);
    assert_eq!(out.dispatched.len(), 0);
    assert_eq!(out.restarts, 1);
    assert_eq!(
        out.failure_lines[2],
        "Failed to reload module file:///app/mod.js: blocked by active function."
    );
}

#[test]
fn non_retryable_module_change_gives_up_at_once() {
    let out = run_swap_loop(&[response(Status::BlockedByTopLevelEsModuleChange)]);
    assert_eq!(out.attempts_made, 1);
    assert_eq!(out.delays, 0);
    assert_eq!(out.restarts, 1);
    assert_eq!(
        out.failure_lines[0],
        "Failed to reload module file:///app/mod.js: blocked by top-level ES module change."
    );
}
