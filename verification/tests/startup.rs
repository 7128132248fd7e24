use openchamber_core::startup::{
    advance_startup, begin_startup, candidate_prefix, PrefixCandidate, StartupAction, StartupEvent,
    StartupStage,
};
use openchamber_core::supervisor::{OpenCodeManager, SupervisorError};

fn manager(port_setting: Option<&str>) -> OpenCodeManager {
    let mut m = OpenCodeManager::new_with_directory(
        Some("opencode".to_string()),
        Some("/work".to_string()),
        ".".to_string(),
        port_setting.map(|s| s.to_string()),
        None,
    );
    m.spawn_process();
    m
}

fn probe(success: bool, body: Option<&str>) -> StartupEvent {
    StartupEvent::ConfigProbe { success, body: body.map(|b| b.to_string()) }
}

fn all_ok() -> StartupEvent {
    StartupEvent::Endpoints { health: Some(200), config: Some(200), agent: Some(200) }
}

#[test]
fn startup_begins_with_a_look() {
    assert_eq!(begin_startup(), (StartupStage::FirstSignal, StartupAction::LookAfter(0)));
    assert_eq!(candidate_prefix(PrefixCandidate::Root), "");
    assert_eq!(candidate_prefix(PrefixCandidate::Api), "/api");
}

#[test]
fn an_exit_before_any_output_fails_the_start() {
    let mut m = manager(None);
    let look = StartupEvent::Look { elapsed_ms: 100, signal_seen: false, exited: true };
    let failed = StartupStage::Failed(SupervisorError::ImmediateExit);
    assert_eq!(
        advance_startup(&mut m, StartupStage::FirstSignal, &look),
        (failed, StartupAction::Failed(SupervisorError::ImmediateExit))
    );
    assert_eq!(
        advance_startup(&mut m, failed, &all_ok()),
        (failed, StartupAction::Failed(SupervisorError::ImmediateExit))
    );
    assert!(!m.is_ready());
}

#[test]
fn silence_for_750_ms_lets_the_start_go_on() {
    let mut m = manager(None);
    let look = |elapsed_ms| StartupEvent::Look { elapsed_ms, signal_seen: false, exited: false };
    assert_eq!(
        advance_startup(&mut m, StartupStage::FirstSignal, &look(0)),
        (StartupStage::FirstSignal, StartupAction::LookAfter(50))
    );
    assert_eq!(
        advance_startup(&mut m, StartupStage::FirstSignal, &look(750)),
        (StartupStage::PortDetection, StartupAction::WaitAfter(0))
    );
}

#[test]
fn an_auto_assigned_port_is_waited_for() {
    let mut m = manager(None);
    let elapsed = |elapsed_ms| StartupEvent::Elapsed { elapsed_ms };
    assert_eq!(
        advance_startup(&mut m, StartupStage::PortDetection, &elapsed(0)),
        (StartupStage::PortDetection, StartupAction::WaitAfter(100))
    );
    assert_eq!(
        advance_startup(&mut m, StartupStage::PortDetection, &elapsed(15000)),
        (
            StartupStage::Failed(SupervisorError::PortTimeout),
            StartupAction::Failed(SupervisorError::PortTimeout)
        )
    );
    m.ingest_output_line("listening on http://127.0.0.1:4567");
    assert_eq!(
        advance_startup(&mut m, StartupStage::PortDetection, &elapsed(200)),
        (StartupStage::PrefixProbe(PrefixCandidate::Root), StartupAction::ProbeConfig(PrefixCandidate::Root))
    );
}

#[test]
fn a_preconfigured_port_skips_the_wait_for_the_port() {
    let mut m = manager(Some("7000"));
    let look = StartupEvent::Look { elapsed_ms: 10, signal_seen: true, exited: false };
    assert_eq!(
        advance_startup(&mut m, StartupStage::FirstSignal, &look),
        (StartupStage::PrefixProbe(PrefixCandidate::Root), StartupAction::ProbeConfig(PrefixCandidate::Root))
    );
}

#[test]
fn a_whole_start_ends_ready() {
    let mut m = manager(None);
    m.ingest_output_line("listening on http://127.0.0.1:4567");
    let root = StartupStage::PrefixProbe(PrefixCandidate::Root);
    let (stage, action) = advance_startup(&mut m, root, &probe(true, Some("<html>")));
    assert_eq!(stage, StartupStage::PrefixProbe(PrefixCandidate::Api));
    assert_eq!(action, StartupAction::ProbeConfig(PrefixCandidate::Api));
    let (stage, action) = advance_startup(&mut m, stage, &probe(true, Some(" {\"a\":1}")));
    assert_eq!((stage, action), (StartupStage::ReadinessWait, StartupAction::WaitAfter(0)));
    assert_eq!(m.api_prefix(), "/api");
    let (stage, action) = advance_startup(&mut m, stage, &StartupEvent::Elapsed { elapsed_ms: 0 });
    assert_eq!((stage, action), (StartupStage::ReadinessRound, StartupAction::ProbeEndpoints));
    let failing = StartupEvent::Endpoints { health: Some(200), config: Some(503), agent: None };
    let (stage, action) = advance_startup(&mut m, stage, &failing);
    assert_eq!((stage, action), (StartupStage::ReadinessWait, StartupAction::WaitAfter(400)));
    let (stage, _) = advance_startup(&mut m, stage, &StartupEvent::Elapsed { elapsed_ms: 400 });
    let (stage, action) = advance_startup(&mut m, stage, &all_ok());
    assert_eq!(stage, StartupStage::FinalProbe(PrefixCandidate::Root));
    assert_eq!(action, StartupAction::ProbeConfig(PrefixCandidate::Root));
    assert!(!m.is_ready());
    let (stage, _) = advance_startup(&mut m, stage, &probe(false, None));
    assert_eq!(stage, StartupStage::FinalProbe(PrefixCandidate::Api));
    let (stage, action) = advance_startup(&mut m, stage, &probe(false, None));
    assert_eq!((stage, action), (StartupStage::Ready, StartupAction::Finished));
    assert!(m.is_ready());
    assert_eq!(m.api_prefix(), "");
    assert_eq!(m.current_port(), Some(4567));
    assert_eq!(advance_startup(&mut m, stage, &all_ok()), (StartupStage::Ready, StartupAction::Finished));
}

#[test]
fn readiness_times_out_after_twenty_seconds() {
    let mut m = manager(Some("7000"));
    let late = StartupEvent::Elapsed { elapsed_ms: 20000 };
    assert_eq!(
        advance_startup(&mut m, StartupStage::ReadinessWait, &late),
        (
            StartupStage::Failed(SupervisorError::ReadyTimeout),
            StartupAction::Failed(SupervisorError::ReadyTimeout)
        )
    );
    let soon = StartupEvent::Elapsed { elapsed_ms: 19999 };
    assert_eq!(
        advance_startup(&mut m, StartupStage::ReadinessWait, &soon),
        (StartupStage::ReadinessRound, StartupAction::ProbeEndpoints)
    );
}

#[test]
fn a_report_for_another_stage_is_ignored() {
    let mut m = manager(None);
    assert_eq!(
        advance_startup(&mut m, StartupStage::FirstSignal, &all_ok()),
        (StartupStage::FirstSignal, StartupAction::Ignore)
    );
    assert_eq!(
        advance_startup(&mut m, StartupStage::ReadinessRound, &probe(true, Some("{}"))),
        (StartupStage::ReadinessRound, StartupAction::Ignore)
    );
    assert_eq!(m.api_prefix(), "");
}
