//! What holds of the session phases over whole sequences of inputs.
use vstd::prelude::*;
use crate::activity::{
    change_of_assistant_stop, change_of_cooldown_elapsed, change_of_set_phase, model_assistant_stop,
    model_cooldown_elapsed, model_reset, model_set_phase, model_valid, no_change, phase_in,
    phase_of_status, state_valid, timer_in, ActivityPhase, TrackerModel,
};

verus! {

/// One input of the tracker.
pub enum TrackerInput {
    /// A status report of kind `kind` for a session.
    Status { session: Seq<char>, kind: Seq<char> },
    /// A finished assistant turn of a session.
    AssistantStop { session: Seq<char> },
    /// The expiry of the timer `token` of a session.
    CooldownElapsed { session: Seq<char>, token: u64 },
    /// The reset before a reconnect.
    Reset,
}

/// The tracker's state after one input.
pub open spec fn model_step(m: TrackerModel, input: TrackerInput) -> TrackerModel {
    match input {
        TrackerInput::Status { session, kind } => model_set_phase(
            m,
            session,
            phase_of_status(kind),
        ),
        TrackerInput::AssistantStop { session } => model_assistant_stop(m, session),
        TrackerInput::CooldownElapsed { session, token } => model_cooldown_elapsed(
            m,
            session,
            token,
        ),
        TrackerInput::Reset => model_reset(m),
    }
}

/// The tracker's state after a sequence of inputs.
pub open spec fn model_run(m: TrackerModel, inputs: Seq<TrackerInput>) -> TrackerModel
    decreases inputs.len(),
{
    if inputs.len() == 0 {
        m
    } else {
        model_step(model_run(m, inputs.drop_last()), inputs.last())
    }
}

/// A tracker that has seen nothing.
pub open spec fn fresh() -> TrackerModel {
    TrackerModel { sessions: Map::empty(), next_token: 0 }
}

/// Whether a session is busy after the inputs, given whether it was busy
/// before them: the latest input that decides is a status report of kind
/// `busy` or `retry` for it. A status report of another kind, a finished
/// assistant turn of the session and a reset decide against; the expiry of
/// a timer and inputs for other sessions decide nothing.
pub open spec fn busy_after(was_busy: bool, inputs: Seq<TrackerInput>, id: Seq<char>) -> bool
    decreases inputs.len(),
{
    if inputs.len() == 0 {
        was_busy
    } else {
        let earlier = busy_after(was_busy, inputs.drop_last(), id);
        match inputs.last() {
            TrackerInput::Status { session, kind } => if session == id {
                phase_of_status(kind) == ActivityPhase::Busy
            } else {
                earlier
            },
            TrackerInput::AssistantStop { session } => if session == id {
                false
            } else {
                earlier
            },
            TrackerInput::CooldownElapsed { session, token } => earlier,
            TrackerInput::Reset => false,
        }
    }
}

/// Whether the inputs leave a session busy that no tracker had seen
/// before them.
pub open spec fn left_busy(inputs: Seq<TrackerInput>, id: Seq<char>) -> bool {
    busy_after(false, inputs, id)
}

/// After any sequence of inputs to any tracker, a session is busy exactly
/// when the latest status report for it was `busy` or `retry` and neither a
/// finished assistant turn of it nor a reset came later; where no input
/// decided, it is busy exactly if it was.
pub proof fn lemma_busy_iff_latest_status_from(
    m: TrackerModel,
    inputs: Seq<TrackerInput>,
    id: Seq<char>,
)
    ensures
        phase_in(model_run(m, inputs), id) == Some(ActivityPhase::Busy) <==> busy_after(
            phase_in(m, id) == Some(ActivityPhase::Busy),
            inputs,
            id,
        ),
    decreases inputs.len(),
{
    if inputs.len() > 0 {
        lemma_busy_iff_latest_status_from(m, inputs.drop_last(), id);
    }
}

/// After any sequence of inputs to a fresh tracker, a session is busy
/// exactly when the latest status report for it was `busy` or `retry` and
/// neither a finished assistant turn of it nor a reset came later.
pub proof fn lemma_busy_iff_latest_status(inputs: Seq<TrackerInput>, id: Seq<char>)
    ensures
        phase_in(model_run(fresh(), inputs), id) == Some(ActivityPhase::Busy) <==> left_busy(
            inputs,
            id,
        ),
{
    lemma_busy_iff_latest_status_from(fresh(), inputs, id);
}

/// Every input keeps the tracker valid: a timer is armed only for a
/// session in cooldown before it, and so it is after it.
pub proof fn lemma_step_keeps_valid(m: TrackerModel, input: TrackerInput)
    requires
        model_valid(m),
    ensures
        model_valid(model_step(m, input)),
{
    let after = model_step(m, input);
    assert forall|id: Seq<char>| #[trigger] after.sessions.contains_key(id) implies state_valid(
        after.sessions[id],
    ) by {
        if m.sessions.contains_key(id) {
            assert(state_valid(m.sessions[id]));
        }
    }
}

/// A status report of kind `busy` or `retry` to a valid tracker leaves the
/// session busy and without a timer. The change is announced exactly if
/// the session was not busy before, and the timer that it held, if any, is
/// handed back for cancelling.
pub proof fn lemma_busy_status_forces_busy(m: TrackerModel, id: Seq<char>)
    requires
        model_valid(m),
    ensures
        ({
            let after = model_set_phase(m, id, ActivityPhase::Busy);
            let change = change_of_set_phase(m, id, ActivityPhase::Busy);
            &&& phase_in(after, id) == Some(ActivityPhase::Busy)
            &&& timer_in(after, id) is None
            &&& change.emitted == if phase_in(m, id) == Some(ActivityPhase::Busy) {
                None
            } else {
                Some(ActivityPhase::Busy)
            }
            &&& change.cancelled == timer_in(m, id)
            &&& change.armed is None
        }),
{
    if m.sessions.contains_key(id) {
        assert(state_valid(m.sessions[id]));
    }
}

/// A timer is armed only for a session in cooldown, whatever the inputs
/// were.
pub proof fn lemma_timer_only_in_cooldown(inputs: Seq<TrackerInput>, id: Seq<char>)
    ensures
        timer_in(model_run(fresh(), inputs), id) is Some ==> phase_in(
            model_run(fresh(), inputs),
            id,
        ) == Some(ActivityPhase::Cooldown),
    decreases inputs.len(),
{
    if inputs.len() > 0 {
        lemma_timer_only_in_cooldown(inputs.drop_last(), id);
    }
}

/// After a reset the same sessions are known, each of them idle and
/// without a timer.
pub proof fn lemma_reset_makes_all_idle(m: TrackerModel, id: Seq<char>)
    ensures
        model_reset(m).sessions.dom() =~= m.sessions.dom(),
        phase_in(m, id) is Some ==> phase_in(model_reset(m), id) == Some(ActivityPhase::Idle),
        phase_in(m, id) is None ==> phase_in(model_reset(m), id) is None,
        timer_in(model_reset(m), id) is None,
{
}

/// The cooldown cycle. A finished assistant turn takes a busy session to
/// cooldown and arms a timer. If that timer expires next, the session
/// becomes idle and this is announced. If instead a busy status arrives
/// first, the session is busy again, the timer is handed back for
/// cancelling, and its expiry afterwards changes and announces nothing.
pub proof fn lemma_cooldown_cycle(m: TrackerModel, id: Seq<char>)
    requires
        phase_in(m, id) == Some(ActivityPhase::Busy),
    ensures
        ({
            let stopped = model_assistant_stop(m, id);
            let token = m.next_token;
            let rebusied = model_set_phase(stopped, id, ActivityPhase::Busy);
            &&& phase_in(stopped, id) == Some(ActivityPhase::Cooldown)
            &&& timer_in(stopped, id) == Some(token)
            &&& change_of_assistant_stop(m, id).emitted == Some(ActivityPhase::Cooldown)
            &&& change_of_assistant_stop(m, id).armed == Some(token)
            &&& change_of_assistant_stop(m, id).delay_ms == 2000
            &&& phase_in(model_cooldown_elapsed(stopped, id, token), id) == Some(
                ActivityPhase::Idle,
            )
            &&& change_of_cooldown_elapsed(stopped, id, token).emitted == Some(
                ActivityPhase::Idle,
            )
            &&& phase_in(rebusied, id) == Some(ActivityPhase::Busy)
            &&& timer_in(rebusied, id) is None
            &&& change_of_set_phase(stopped, id, ActivityPhase::Busy).cancelled == Some(token)
            &&& model_cooldown_elapsed(rebusied, id, token) == rebusied
            &&& change_of_cooldown_elapsed(rebusied, id, token) == no_change()
        }),
{
}

/// Setting the phase that a session has changes and announces nothing.
pub proof fn lemma_same_phase_is_noop(m: TrackerModel, id: Seq<char>, phase: ActivityPhase)
    requires
        phase_in(m, id) == Some(phase),
    ensures
        model_set_phase(m, id, phase) == m,
        change_of_set_phase(m, id, phase) == no_change(),
{
}

} // verus!
