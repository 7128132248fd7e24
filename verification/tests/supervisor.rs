use openchamber_core::supervisor::{
    base_url, check_endpoints, error_message, first_signal_step, ready_timeout_message, graceful_stop_step, is_success_status,
    merge_paths, normalize_api_prefix, resolve_opencode_binary, restart_steps, rewrite_path,
    shutdown_steps, wait_for_ready, LifecycleStep, OpenCodeManager,
    StartDecision, StopAction, StopEvent, StopPhase, SupervisorError, WaitStep, KILL_WAIT_MS,
    READY_CHECK_INTERVAL_MS, RESTART_SETTLE_MS, TERMINATE_WAIT_MS,
};

fn manager(port_setting: Option<&str>) -> OpenCodeManager {
    OpenCodeManager::new_with_directory(
        Some("/usr/local/bin/opencode".to_string()),
        Some("/work".to_string()),
        ".".to_string(),
        port_setting.map(|s| s.to_string()),
        None,
    )
}

#[test]
fn normalize_api_prefix_cases() {
    assert_eq!(normalize_api_prefix(""), "");
    assert_eq!(normalize_api_prefix("   "), "");
    assert_eq!(normalize_api_prefix("/"), "");
    assert_eq!(normalize_api_prefix(" / "), "");
    assert_eq!(normalize_api_prefix("/api"), "/api");
    assert_eq!(normalize_api_prefix("api"), "/api");
    assert_eq!(normalize_api_prefix("/api/"), "/api");
    assert_eq!(normalize_api_prefix("  api/v1//  "), "/api/v1");
    assert_eq!(normalize_api_prefix("//"), "/");
}

#[test]
fn merge_paths_keeps_first_order_without_repeats() {
    assert_eq!(merge_paths("/a:/b", "/b:/c"), "/a:/b:/c");
    assert_eq!(merge_paths("", "/usr/bin::/bin"), "/usr/bin:/bin");
    assert_eq!(merge_paths("/x:/x:", ""), "/x");
    assert_eq!(merge_paths("", ""), "");
    assert_eq!(merge_paths("/opt/bin:/usr/bin", "/usr/bin:/opt/bin:/sbin"), "/opt/bin:/usr/bin:/sbin");
}

#[test]
fn rewrite_path_strips_the_external_prefix() {
    assert_eq!(rewrite_path("/api/session"), "/session");
    assert_eq!(rewrite_path("/api"), "/");
    assert_eq!(rewrite_path("/api/"), "/");
    assert_eq!(rewrite_path("/health"), "/health");
    assert_eq!(rewrite_path("/apiary"), "ary");
    let m = manager(None);
    assert_eq!(m.rewrite_path("/api/event"), "/event");
}

#[test]
fn base_url_is_loopback_with_port_and_prefix() {
    assert_eq!(base_url(4096, ""), "http://127.0.0.1:4096");
    assert_eq!(base_url(65535, "/api"), "http://127.0.0.1:65535/api");
    assert_eq!(base_url(0, ""), "http://127.0.0.1:0");
}

#[test]
fn new_manager_builds_the_launch_arguments() {
    let m = manager(None);
    assert_eq!(m.launch_arguments(), vec!["serve", "--port", "0"]);
    assert_eq!(m.desired_port(), 0);
    assert_eq!(m.current_port(), None);
    assert_eq!(m.api_prefix(), "");
    assert!(!m.is_ready());
    assert!(!m.is_shutting_down());
    assert!(m.is_cli_available());
    assert_eq!(m.get_working_directory(), "/work");
    let m = OpenCodeManager::new_with_directory(
        None,
        None,
        "/fallback".to_string(),
        Some("+8080".to_string()),
        Some("/etc/oc.json".to_string()),
    );
    assert_eq!(m.launch_arguments(), vec!["serve", "--port", "8080", "--config", "/etc/oc.json"]);
    assert_eq!(m.desired_port(), 8080);
    assert!(!m.is_cli_available());
    assert_eq!(m.get_working_directory(), "/fallback");
}

#[test]
fn a_desired_port_that_is_no_port_means_auto() {
    for raw in ["", "abc", "65536", "-1", "+", "80 ", "1e3", "99999999999999999999"] {
        assert_eq!(manager(Some(raw)).desired_port(), 0, "{raw}");
    }
    assert_eq!(manager(Some("65535")).desired_port(), 65535);
    assert_eq!(manager(Some("0080")).desired_port(), 80);
    let m = OpenCodeManager::new_with_directory(None, None, ".".to_string(), None, Some(String::new()));
    assert_eq!(m.launch_arguments(), vec!["serve", "--port", "0"]);
}

#[test]
fn ensure_running_without_binary_is_unavailable() {
    let mut m = OpenCodeManager::new_with_directory(None, None, ".".to_string(), None, None);
    assert_eq!(m.ensure_running(false), Err(SupervisorError::Unavailable));
}

#[test]
fn ensure_running_is_idempotent_when_ready() {
    let mut m = manager(None);
    assert_eq!(m.ensure_running(false), Ok(StartDecision::Spawn));
    m.spawn_process();
    m.ingest_output_line("listening on http://127.0.0.1:5000");
    m.mark_ready();
    assert_eq!(m.ensure_running(true), Ok(StartDecision::AlreadyRunning));
    assert!(m.is_ready());
    assert_eq!(m.ensure_running(false), Ok(StartDecision::Spawn));
    assert!(!m.is_ready());
}

#[test]
fn first_matching_port_is_adopted_once() {
    let mut m = manager(None);
    m.spawn_process();
    m.ingest_output_line("starting up...");
    assert_eq!(m.current_port(), None);
    m.ingest_output_line("port: 1234");
    assert_eq!(m.current_port(), None);
    m.ingest_output_line("opencode server listening on http://127.0.0.1:4567");
    assert_eq!(m.current_port(), Some(4567));
    assert_eq!(m.api_prefix(), "");
    m.ingest_output_line("no address here");
    assert_eq!(m.current_port(), Some(4567));
    m.ingest_output_line("docs at https://example.org:8443/docs");
    assert_eq!(m.current_port(), Some(4567));
    assert_eq!(m.api_prefix(), "/docs");
}

#[test]
fn a_port_out_of_range_is_not_adopted() {
    let mut m = manager(None);
    m.ingest_output_line("http://localhost:70000/x");
    assert_eq!(m.current_port(), None);
    assert_eq!(m.api_prefix(), "/x");
    m.ingest_output_line("http://localhost:65535/");
    assert_eq!(m.current_port(), Some(65535));
    assert_eq!(m.api_prefix(), "/x");
}

#[test]
fn a_preconfigured_port_is_known_at_spawn_and_kept_over_restart() {
    let mut m = manager(Some("7000"));
    m.spawn_process();
    assert_eq!(m.current_port(), Some(7000));
    m.ingest_output_line("http://127.0.0.1:7001/api");
    assert_eq!(m.current_port(), Some(7001));
    assert_eq!(m.api_prefix(), "/api");
    m.begin_restart();
    m.restart();
    assert_eq!(m.current_port(), Some(7001));
    assert_eq!(m.api_prefix(), "");
    assert!(!m.is_ready());
}

#[test]
fn restart_clears_an_auto_assigned_port() {
    let mut m = manager(None);
    m.spawn_process();
    m.ingest_output_line("http://127.0.0.1:4567/api");
    m.mark_ready();
    m.begin_restart();
    assert!(!m.is_ready());
    assert_eq!(m.current_port(), Some(4567));
    m.restart();
    assert_eq!(m.current_port(), None);
    assert_eq!(m.api_prefix(), "");
    assert_eq!(RESTART_SETTLE_MS, 250);
}

#[test]
fn shutdown_marks_and_never_restarts() {
    let mut m = manager(None);
    m.spawn_process();
    m.mark_ready();
    m.shutdown();
    assert!(m.is_shutting_down());
    assert!(!m.is_ready());
}

#[test]
fn set_working_directory_only_stores() {
    let mut m = manager(None);
    m.spawn_process();
    m.ingest_output_line("http://127.0.0.1:4567");
    m.mark_ready();
    m.set_working_directory("/other".to_string());
    assert_eq!(m.get_working_directory(), "/other");
    assert_eq!(m.current_port(), Some(4567));
    assert!(m.is_ready());
}

#[test]
fn port_wait_times_out_after_fifteen_seconds() {
    let mut m = manager(None);
    assert_eq!(m.wait_for_port_detection(0), WaitStep::Sleep(100));
    assert_eq!(m.wait_for_port_detection(14999), WaitStep::Sleep(100));
    assert_eq!(m.wait_for_port_detection(15000), WaitStep::Fail(SupervisorError::PortTimeout));
    m.ingest_output_line("http://127.0.0.1:4567");
    assert_eq!(m.wait_for_port_detection(14999), WaitStep::Proceed);
    assert_eq!(m.wait_for_port_detection(15000), WaitStep::Fail(SupervisorError::PortTimeout));
}

#[test]
fn first_signal_wait() {
    assert_eq!(first_signal_step(0, false, false), WaitStep::Sleep(50));
    assert_eq!(first_signal_step(0, true, false), WaitStep::Proceed);
    assert_eq!(first_signal_step(100, false, true), WaitStep::Fail(SupervisorError::ImmediateExit));
    assert_eq!(first_signal_step(749, false, false), WaitStep::Sleep(50));
    assert_eq!(first_signal_step(750, false, false), WaitStep::Proceed);
    assert_eq!(first_signal_step(750, false, true), WaitStep::Proceed);
}

#[test]
fn prefix_probe_accepts_json_bodies_only() {
    let mut m = manager(None);
    assert!(!m.detect_api_prefix("/api", true, Some("<html>")));
    assert!(!m.detect_api_prefix("/api", false, Some("{}")));
    assert!(!m.detect_api_prefix("/api", true, None));
    assert!(!m.detect_api_prefix("/api", true, Some("   ")));
    assert_eq!(m.api_prefix(), "");
    assert!(m.detect_api_prefix("/api", true, Some("  [1]")));
    assert_eq!(m.api_prefix(), "/api");
    assert!(m.detect_api_prefix("", true, Some("{\"a\":1}")));
    assert_eq!(m.api_prefix(), "");
    m.detect_api_prefix("api/", true, Some("{}"));
    assert_eq!(m.api_prefix(), "/api");
    m.use_default_prefix();
    assert_eq!(m.api_prefix(), "");
}

#[test]
fn readiness_needs_all_three_endpoints() {
    assert_eq!(check_endpoints(Some(200), Some(204), Some(299)), Ok(()));
    assert_eq!(check_endpoints(Some(500), Some(200), Some(200)), Err("/health".to_string()));
    assert_eq!(check_endpoints(None, None, None), Err("/health".to_string()));
    assert_eq!(check_endpoints(Some(200), Some(404), Some(200)), Err("/config".to_string()));
    assert_eq!(check_endpoints(Some(200), Some(200), None), Err("/agent".to_string()));
    assert_eq!(check_endpoints(Some(200), Some(200), Some(300)), Err("/agent".to_string()));
    assert!(is_success_status(200));
    assert!(!is_success_status(199));
    assert!(!is_success_status(300));
}

#[test]
fn readiness_wait_polls_every_400_ms_for_20_s() {
    assert_eq!(wait_for_ready(0, None), WaitStep::Sleep(0));
    assert_eq!(wait_for_ready(10, Some(false)), WaitStep::Sleep(READY_CHECK_INTERVAL_MS));
    assert_eq!(READY_CHECK_INTERVAL_MS, 400);
    assert_eq!(wait_for_ready(19999, Some(false)), WaitStep::Sleep(400));
    assert_eq!(wait_for_ready(20000, Some(false)), WaitStep::Fail(SupervisorError::ReadyTimeout));
    assert_eq!(wait_for_ready(20000, None), WaitStep::Fail(SupervisorError::ReadyTimeout));
    assert_eq!(wait_for_ready(25000, Some(true)), WaitStep::Proceed);
}

#[test]
fn graceful_stop_without_child_is_a_no_op() {
    let mut m = manager(None);
    assert_eq!(m.graceful_stop(Some(false)), (StopPhase::Stopped, StopAction::Finish));
    assert_eq!(m.graceful_stop(None), (StopPhase::Stopped, StopAction::Finish));
    assert!(!m.has_child());
    m.spawn_process();
    assert!(m.has_child());
    assert_eq!(m.graceful_stop(Some(true)), (StopPhase::Stopped, StopAction::Finish));
    assert!(!m.has_child());
}

#[test]
fn graceful_stop_escalates_from_terminate_to_kill() {
    let mut m = manager(None);
    m.spawn_process();
    let (phase, action) = m.graceful_stop(Some(false));
    assert_eq!(phase, StopPhase::Terminating);
    assert_eq!(action, StopAction::Terminate { wait_ms: 3000 });
    let (phase, action) = m.advance_stop(phase, StopEvent::TimedOut);
    assert_eq!(phase, StopPhase::Killing);
    assert_eq!(action, StopAction::Kill { wait_ms: 5000 });
    let (phase, action) = m.advance_stop(phase, StopEvent::TimedOut);
    assert_eq!(phase, StopPhase::Stopped);
    assert_eq!(action, StopAction::Finish);
    assert_eq!(TERMINATE_WAIT_MS + KILL_WAIT_MS, 8000);
}

#[test]
fn the_handle_stays_until_the_exit_is_confirmed() {
    let mut m = manager(None);
    m.spawn_process();
    let (phase, _) = m.graceful_stop(Some(false));
    assert!(m.has_child());
    let (phase, _) = m.advance_stop(phase, StopEvent::TimedOut);
    assert!(m.has_child());
    let (phase, action) = m.advance_stop(phase, StopEvent::TimedOut);
    assert_eq!((phase, action), (StopPhase::Stopped, StopAction::Finish));
    assert!(m.has_child());

    let mut m = manager(None);
    m.spawn_process();
    let (phase, _) = m.graceful_stop(Some(false));
    let (phase, action) = m.advance_stop(phase, StopEvent::Exited);
    assert_eq!((phase, action), (StopPhase::Stopped, StopAction::Finish));
    assert!(!m.has_child());

    let mut m = manager(None);
    m.spawn_process();
    let (phase, _) = m.graceful_stop(None);
    assert_eq!(phase, StopPhase::Terminating);
    let (phase, _) = m.advance_stop(phase, StopEvent::TimedOut);
    m.advance_stop(phase, StopEvent::Exited);
    assert!(!m.has_child());
}

#[test]
fn graceful_stop_ends_when_the_process_exits() {
    assert_eq!(
        graceful_stop_step(StopPhase::Terminating, StopEvent::Exited),
        (StopPhase::Stopped, StopAction::Finish)
    );
    assert_eq!(
        graceful_stop_step(StopPhase::Killing, StopEvent::Exited),
        (StopPhase::Stopped, StopAction::Finish)
    );
    assert_eq!(
        graceful_stop_step(StopPhase::Idle, StopEvent::TimedOut),
        (StopPhase::Idle, StopAction::Ignore)
    );
    assert_eq!(
        graceful_stop_step(StopPhase::Stopped, StopEvent::TimedOut),
        (StopPhase::Stopped, StopAction::Finish)
    );
}

#[test]
fn failures_have_messages() {
    assert_eq!(error_message(SupervisorError::Unavailable), "OpenCode CLI is not available");
    assert_eq!(
        error_message(SupervisorError::ImmediateExit),
        "OpenCode process exited immediately after spawn"
    );
    assert_eq!(
        error_message(SupervisorError::PortTimeout),
        "OpenCode did not report port within 15 seconds"
    );
    assert_eq!(error_message(SupervisorError::ReadyTimeout), "OpenCode not ready after 20000ms");
    assert_eq!(
        ready_timeout_message(Some("/health returned 503")),
        "OpenCode not ready after 20000ms: /health returned 503"
    );
    assert_eq!(ready_timeout_message(None), "OpenCode not ready after 20000ms: no error details");
    let m = manager(None);
    assert_eq!(m.binary_path().as_deref(), Some("/usr/local/bin/opencode"));
}

#[test]
fn the_binary_is_the_configured_one_or_the_one_on_the_search_path() {
    let s = |text: &str| Some(text.to_string());
    assert_eq!(resolve_opencode_binary(true, s("/opt/oc"), true, s("/usr/bin/oc")), None);
    assert_eq!(resolve_opencode_binary(false, s("/opt/oc"), true, s("/usr/bin/oc")), s("/opt/oc"));
    assert_eq!(resolve_opencode_binary(false, s("/opt/oc"), false, s("/usr/bin/oc")), s("/usr/bin/oc"));
    assert_eq!(resolve_opencode_binary(false, s(""), true, s("/usr/bin/oc")), s("/usr/bin/oc"));
    assert_eq!(resolve_opencode_binary(false, None, false, s("  ")), None);
    assert_eq!(resolve_opencode_binary(false, None, false, None), None);
}

#[test]
fn a_restart_stops_settles_clears_and_starts() {
    assert_eq!(
        restart_steps(),
        vec![
            LifecycleStep::MarkNotReady,
            LifecycleStep::Stop,
            LifecycleStep::Settle(250),
            LifecycleStep::ClearDetected,
            LifecycleStep::Start,
        ]
    );
    assert_eq!(shutdown_steps(), vec![LifecycleStep::MarkShuttingDown, LifecycleStep::Stop]);
}
