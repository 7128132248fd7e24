//! The start of the supervised process, from its spawn to readiness, as
//! one machine: the driver carries out each action and reports what came
//! of it.
use vstd::prelude::*;
use crate::events::option_text;
use crate::supervisor::{
    check_endpoints, first_failing_endpoint, first_signal_step, normalize_api_prefix_seq,
    probe_accepts, OpenCodeManager, SupervisorError, SupervisorView, WaitStep,
    FIRST_SIGNAL_POLL_MS, FIRST_SIGNAL_TIMEOUT_MS, PORT_DETECTION_POLL_MS,
    PORT_DETECTION_TIMEOUT_MS, READY_CHECK_INTERVAL_MS, READY_CHECK_TIMEOUT_MS,
};

verus! {

/// A candidate for the API prefix.
#[derive(Clone, Copy, Debug, PartialEq, Eq, Structural)]
pub enum PrefixCandidate {
    /// The empty prefix, which is tried first.
    Root,
    /// The prefix `/api`.
    Api,
}

/// The text of a candidate.
pub open spec fn candidate_text(candidate: PrefixCandidate) -> Seq<char> {
    match candidate {
        PrefixCandidate::Root => ""@,
        PrefixCandidate::Api => "/api"@,
    }
}

/// The text of a candidate.
pub fn candidate_prefix(candidate: PrefixCandidate) -> (r: &'static str)
    ensures
        r@ == candidate_text(candidate),
{
    match candidate {
        PrefixCandidate::Root => "",
        PrefixCandidate::Api => "/api",
    }
}

/// Where the start of the process stands.
#[derive(Clone, Copy, Debug, PartialEq, Eq, Structural)]
pub enum StartupStage {
    /// Waiting for a first line of output.
    FirstSignal,
    /// Waiting for the port to show up in the output.
    PortDetection,
    /// Probing a candidate for the API prefix, before the readiness wait.
    PrefixProbe(PrefixCandidate),
    /// Waiting between two rounds of readiness probes.
    ReadinessWait,
    /// A round of readiness probes is under way.
    ReadinessRound,
    /// Probing a candidate for the API prefix once more, the process
    /// being ready.
    FinalProbe(PrefixCandidate),
    /// The process is ready.
    Ready,
    /// The start failed.
    Failed(SupervisorError),
}

/// What the driver reports during the start.
pub enum StartupEvent {
    /// A look at the process: how long the stage has lasted, whether a
    /// line of output was seen, whether the process has exited.
    Look { elapsed_ms: u64, signal_seen: bool, exited: bool },
    /// How long the stage has lasted.
    Elapsed { elapsed_ms: u64 },
    /// The answer to a `/config` probe: whether it was a success, and
    /// its body if it could be read.
    ConfigProbe { success: bool, body: Option<String> },
    /// The statuses of `/health`, `/config` and `/agent`, `None` for a
    /// request that failed or was not made.
    Endpoints { health: Option<u16>, config: Option<u16>, agent: Option<u16> },
}

/// What the start asks of the driver.
#[derive(Clone, Copy, Debug, PartialEq, Eq, Structural)]
pub enum StartupAction {
    /// Sleep so many milliseconds, then report a look at the process.
    LookAfter(u64),
    /// Sleep so many milliseconds, then report the time elapsed.
    WaitAfter(u64),
    /// Get `/config` under this candidate and report the answer.
    ProbeConfig(PrefixCandidate),
    /// Get `/health`, `/config` and `/agent` under the detected prefix,
    /// up to the first failure, and report the statuses.
    ProbeEndpoints,
    /// The process is ready: nothing more to do.
    Finished,
    /// The start failed for this reason.
    Failed(SupervisorError),
    /// The report does not belong to this stage and is ignored.
    Ignore,
}

/// The step after the first output: the port is waited for where it is
/// auto-assigned, and the prefix is probed at once where it is not.
pub open spec fn after_first_signal(m: SupervisorView) -> (StartupStage, StartupAction) {
    if m.desired_port == 0 {
        (StartupStage::PortDetection, StartupAction::WaitAfter(0))
    } else {
        (
            StartupStage::PrefixProbe(PrefixCandidate::Root),
            StartupAction::ProbeConfig(PrefixCandidate::Root),
        )
    }
}

/// The supervisor's knowledge, the stage and the action after a probe of
/// a prefix candidate: an accepted candidate is adopted in its normal form;
/// after a refused first candidate the second is tried; after a refused
/// second candidate the prefix is empty.
pub open spec fn after_probe(
    m: SupervisorView,
    candidate: PrefixCandidate,
    accepted: bool,
    last: bool,
) -> (SupervisorView, StartupStage, StartupAction) {
    let done_stage = if last {
        StartupStage::Ready
    } else {
        StartupStage::ReadinessWait
    };
    let done_action = if last {
        StartupAction::Finished
    } else {
        StartupAction::WaitAfter(0)
    };
    if accepted {
        (
            SupervisorView {
                api_prefix: normalize_api_prefix_seq(candidate_text(candidate)),
                ready: m.ready || last,
                ..m
            },
            done_stage,
            done_action,
        )
    } else if candidate == PrefixCandidate::Root {
        (
            m,
            if last {
                StartupStage::FinalProbe(PrefixCandidate::Api)
            } else {
                StartupStage::PrefixProbe(PrefixCandidate::Api)
            },
            StartupAction::ProbeConfig(PrefixCandidate::Api),
        )
    } else {
        (
            SupervisorView { api_prefix: Seq::empty(), ready: m.ready || last, ..m },
            done_stage,
            done_action,
        )
    }
}

/// One step of the start.
///
/// - While no output was seen, the process is looked at every 50 ms for
///   750 ms; an exit in that time fails the start, and the end of that time
///   lets it go on.
/// - An auto-assigned port is waited for in steps of 100 ms, for 15 s.
/// - The prefix candidates are probed in order.
/// - The endpoints are probed every 400 ms until all three answer with a
///   success, for 20 s.
/// - The prefix is probed once more, and the process is marked ready.
pub open spec fn startup_step(m: SupervisorView, stage: StartupStage, event: StartupEvent) -> (
    SupervisorView,
    StartupStage,
    StartupAction,
) {
    match (stage, event) {
        (StartupStage::FirstSignal, StartupEvent::Look { elapsed_ms, signal_seen, exited }) => {
            if elapsed_ms >= FIRST_SIGNAL_TIMEOUT_MS || signal_seen {
                (m, after_first_signal(m).0, after_first_signal(m).1)
            } else if exited {
                (
                    m,
                    StartupStage::Failed(SupervisorError::ImmediateExit),
                    StartupAction::Failed(SupervisorError::ImmediateExit),
                )
            } else {
                (m, StartupStage::FirstSignal, StartupAction::LookAfter(FIRST_SIGNAL_POLL_MS))
            }
        },
        (StartupStage::PortDetection, StartupEvent::Elapsed { elapsed_ms }) => {
            if elapsed_ms >= PORT_DETECTION_TIMEOUT_MS {
                (
                    m,
                    StartupStage::Failed(SupervisorError::PortTimeout),
                    StartupAction::Failed(SupervisorError::PortTimeout),
                )
            } else if m.port is Some {
                (
                    m,
                    StartupStage::PrefixProbe(PrefixCandidate::Root),
                    StartupAction::ProbeConfig(PrefixCandidate::Root),
                )
            } else {
                (m, StartupStage::PortDetection, StartupAction::WaitAfter(PORT_DETECTION_POLL_MS))
            }
        },
        (StartupStage::PrefixProbe(candidate), StartupEvent::ConfigProbe { success, body }) => {
            after_probe(m, candidate, probe_accepts(success, option_text(body)), false)
        },
        (StartupStage::ReadinessWait, StartupEvent::Elapsed { elapsed_ms }) => {
            if elapsed_ms >= READY_CHECK_TIMEOUT_MS {
                (
                    m,
                    StartupStage::Failed(SupervisorError::ReadyTimeout),
                    StartupAction::Failed(SupervisorError::ReadyTimeout),
                )
            } else {
                (m, StartupStage::ReadinessRound, StartupAction::ProbeEndpoints)
            }
        },
        (StartupStage::ReadinessRound, StartupEvent::Endpoints { health, config, agent }) => {
            if first_failing_endpoint(health, config, agent) is None {
                (
                    m,
                    StartupStage::FinalProbe(PrefixCandidate::Root),
                    StartupAction::ProbeConfig(PrefixCandidate::Root),
                )
            } else {
                (m, StartupStage::ReadinessWait, StartupAction::WaitAfter(READY_CHECK_INTERVAL_MS))
            }
        },
        (StartupStage::FinalProbe(candidate), StartupEvent::ConfigProbe { success, body }) => {
            after_probe(m, candidate, probe_accepts(success, option_text(body)), true)
        },
        (StartupStage::Ready, _) => (m, StartupStage::Ready, StartupAction::Finished),
        (StartupStage::Failed(error), _) => (
            m,
            StartupStage::Failed(error),
            StartupAction::Failed(error),
        ),
        _ => (m, stage, StartupAction::Ignore),
    }
}

/// Takes in the answer to a probe of a prefix candidate.
fn probe_outcome(
    manager: &mut OpenCodeManager,
    candidate: PrefixCandidate,
    success: bool,
    body: &Option<String>,
    last: bool,
) -> (r: (StartupStage, StartupAction))
    ensures
        (final(manager)@, r.0, r.1) == after_probe(
            old(manager)@,
            candidate,
            probe_accepts(success, option_text(*body)),
            last,
        ),
{
    let text: Option<&str> = match body {
        Some(b) => Some(b.as_str()),
        None => None,
    };
    let accepted = manager.detect_api_prefix(candidate_prefix(candidate), success, text);
    let is_root = match candidate {
        PrefixCandidate::Root => true,
        PrefixCandidate::Api => false,
    };
    if !accepted && is_root {
        let next = if last {
            StartupStage::FinalProbe(PrefixCandidate::Api)
        } else {
            StartupStage::PrefixProbe(PrefixCandidate::Api)
        };
        return (next, StartupAction::ProbeConfig(PrefixCandidate::Api));
    }
    if !accepted {
        manager.use_default_prefix();
    }
    if last {
        manager.mark_ready();
        (StartupStage::Ready, StartupAction::Finished)
    } else {
        (StartupStage::ReadinessWait, StartupAction::WaitAfter(0))
    }
}

/// The first step of the start, right after the spawn: a look at the
/// process.
pub fn begin_startup() -> (r: (StartupStage, StartupAction))
    ensures
        r == (StartupStage::FirstSignal, StartupAction::LookAfter(0)),
{
    (StartupStage::FirstSignal, StartupAction::LookAfter(0))
}

/// Decides one step of the start of the process.
pub fn advance_startup(manager: &mut OpenCodeManager, stage: StartupStage, event: &StartupEvent)
    -> (r: (StartupStage, StartupAction))
    ensures
        (final(manager)@, r.0, r.1) == startup_step(old(manager)@, stage, *event),
{
    match stage {
        StartupStage::Ready => (StartupStage::Ready, StartupAction::Finished),
        StartupStage::Failed(error) => (StartupStage::Failed(error), StartupAction::Failed(error)),
        StartupStage::FirstSignal => match event {
            StartupEvent::Look { elapsed_ms, signal_seen, exited } => {
                match first_signal_step(*elapsed_ms, *signal_seen, *exited) {
                    WaitStep::Proceed => {
                        if manager.desired_port() == 0 {
                            (StartupStage::PortDetection, StartupAction::WaitAfter(0))
                        } else {
                            (
                                StartupStage::PrefixProbe(PrefixCandidate::Root),
                                StartupAction::ProbeConfig(PrefixCandidate::Root),
                            )
                        }
                    },
                    WaitStep::Sleep(ms) => (StartupStage::FirstSignal, StartupAction::LookAfter(ms)),
                    WaitStep::Fail(error) => (
                        StartupStage::Failed(error),
                        StartupAction::Failed(error),
                    ),
                }
            },
            _ => (stage, StartupAction::Ignore),
        },
        StartupStage::PortDetection => match event {
            StartupEvent::Elapsed { elapsed_ms } => {
                match manager.wait_for_port_detection(*elapsed_ms) {
                    WaitStep::Proceed => (
                        StartupStage::PrefixProbe(PrefixCandidate::Root),
                        StartupAction::ProbeConfig(PrefixCandidate::Root),
                    ),
                    WaitStep::Sleep(ms) => (
                        StartupStage::PortDetection,
                        StartupAction::WaitAfter(ms),
                    ),
                    WaitStep::Fail(error) => (
                        StartupStage::Failed(error),
                        StartupAction::Failed(error),
                    ),
                }
            },
            _ => (stage, StartupAction::Ignore),
        },
        StartupStage::PrefixProbe(candidate) => match event {
            StartupEvent::ConfigProbe { success, body } => probe_outcome(
                manager,
                candidate,
                *success,
                body,
                false,
            ),
            _ => (stage, StartupAction::Ignore),
        },
        StartupStage::ReadinessWait => match event {
            StartupEvent::Elapsed { elapsed_ms } => {
                if *elapsed_ms >= READY_CHECK_TIMEOUT_MS {
                    (
                        StartupStage::Failed(SupervisorError::ReadyTimeout),
                        StartupAction::Failed(SupervisorError::ReadyTimeout),
                    )
                } else {
                    (StartupStage::ReadinessRound, StartupAction::ProbeEndpoints)
                }
            },
            _ => (stage, StartupAction::Ignore),
        },
        StartupStage::ReadinessRound => match event {
            StartupEvent::Endpoints { health, config, agent } => {
                if check_endpoints(*health, *config, *agent).is_ok() {
                    (
                        StartupStage::FinalProbe(PrefixCandidate::Root),
                        StartupAction::ProbeConfig(PrefixCandidate::Root),
                    )
                } else {
                    (StartupStage::ReadinessWait, StartupAction::WaitAfter(READY_CHECK_INTERVAL_MS))
                }
            },
            _ => (stage, StartupAction::Ignore),
        },
        StartupStage::FinalProbe(candidate) => match event {
            StartupEvent::ConfigProbe { success, body } => probe_outcome(
                manager,
                candidate,
                *success,
                body,
                true,
            ),
            _ => (stage, StartupAction::Ignore),
        },
    }
}

/// The process is marked ready by one step only: the last probe of the
/// prefix, after a round in which all three endpoints answered. No step
/// takes the mark away, and none touches the port or the process handle.
pub proof fn lemma_ready_only_after_final_probe(
    m: SupervisorView,
    stage: StartupStage,
    event: StartupEvent,
)
    ensures
        startup_step(m, stage, event).0.ready && !m.ready ==> stage is FinalProbe && startup_step(
            m,
            stage,
            event,
        ).1 == StartupStage::Ready,
        m.ready ==> startup_step(m, stage, event).0.ready,
        startup_step(m, stage, event).0.port == m.port,
        startup_step(m, stage, event).0.has_child == m.has_child,
        startup_step(m, stage, event).1 == StartupStage::Ready && stage != StartupStage::Ready
            ==> startup_step(m, stage, event).0.ready,
{
}


/// The supervisor's knowledge and the stage after a sequence of reports to
/// a start.
pub open spec fn startup_run(m: SupervisorView, stage: StartupStage, events: Seq<StartupEvent>)
    -> (SupervisorView, StartupStage)
    decreases events.len(),
{
    if events.len() == 0 {
        (m, stage)
    } else {
        let next = startup_step(m, stage, events[0]);
        startup_run(next.0, next.1, events.drop_first())
    }
}

/// What holds at every stage of a start that began after a spawn: a
/// pre-configured port is known throughout; the port is known once the
/// prefix is probed; and at the stage `Ready` the process is marked ready.
pub open spec fn startup_holds(m: SupervisorView, stage: StartupStage) -> bool {
    &&& m.desired_port > 0 ==> m.port is Some
    &&& (stage is PrefixProbe || stage is ReadinessWait || stage is ReadinessRound
        || stage is FinalProbe || stage is Ready) ==> m.port is Some
    &&& stage is Ready ==> m.ready
}

/// Every step of a start keeps what holds at its stages.
pub proof fn lemma_step_keeps_startup(m: SupervisorView, stage: StartupStage, event: StartupEvent)
    requires
        startup_holds(m, stage),
    ensures
        startup_holds(startup_step(m, stage, event).0, startup_step(m, stage, event).1),
{
}

/// A start that is finished leaves the process ready with a known port:
/// whatever is reported to a start that begins right after a spawn, where a
/// pre-configured port is known at once, if it arrives at the stage `Ready`
/// then the process is marked ready and its port is known.
pub proof fn lemma_finished_start_is_ready(m: SupervisorView, events: Seq<StartupEvent>)
    requires
        m.desired_port > 0 ==> m.port is Some,
    ensures
        startup_run(m, StartupStage::FirstSignal, events).1 is Ready ==> startup_run(
            m,
            StartupStage::FirstSignal,
            events,
        ).0.ready && startup_run(m, StartupStage::FirstSignal, events).0.port is Some,
{
    lemma_run_keeps_startup(m, StartupStage::FirstSignal, events);
}

/// Every run of a start keeps what holds at its stages.
pub proof fn lemma_run_keeps_startup(
    m: SupervisorView,
    stage: StartupStage,
    events: Seq<StartupEvent>,
)
    requires
        startup_holds(m, stage),
    ensures
        startup_holds(startup_run(m, stage, events).0, startup_run(m, stage, events).1),
    decreases events.len(),
{
    if events.len() > 0 {
        let next = startup_step(m, stage, events[0]);
        lemma_step_keeps_startup(m, stage, events[0]);
        lemma_run_keeps_startup(next.0, next.1, events.drop_first());
    }
}

} // verus!
