//! The per-session activity phase (idle, busy, cooldown) derived from the
//! event stream, with the cooldown timers that the tracker owns.
use vstd::prelude::*;
use crate::events::{option_text, EventEnvelope};
use crate::text::{option_is, str_eq, strings_view};

verus! {

/// How long a session stays in cooldown before it falls back to idle.
pub const COOLDOWN_MS: u64 = 2000;

/// The phase of one session.
#[derive(Clone, Copy, Debug, PartialEq, Eq, Structural)]
pub enum ActivityPhase {
    Idle,
    Busy,
    Cooldown,
}

/// The name of the interface event that announces a session's phase.
pub const SESSION_ACTIVITY_EVENT: &'static str = "openchamber:session-activity";

/// The word that the interface knows a phase by.
pub fn phase_label(phase: ActivityPhase) -> (r: &'static str)
    ensures
        r@ == match phase {
            ActivityPhase::Idle => "idle"@,
            ActivityPhase::Busy => "busy"@,
            ActivityPhase::Cooldown => "cooldown"@,
        },
{
    match phase {
        ActivityPhase::Idle => "idle",
        ActivityPhase::Busy => "busy",
        ActivityPhase::Cooldown => "cooldown",
    }
}

/// What the tracker holds for one session: its phase and the token of the
/// cooldown timer that is armed for it, if any.
#[derive(Clone, Copy, Debug, PartialEq, Eq, Structural)]
pub struct SessionState {
    pub phase: ActivityPhase,
    pub timer: Option<u64>,
}

/// The tracker's state in mathematical form: the state of every tracked
/// session by its identifier, and the token that the next timer will get.
pub struct TrackerModel {
    pub sessions: Map<Seq<char>, SessionState>,
    pub next_token: u64,
}

/// What one step of the tracker asks of its driver.
#[derive(Clone, Copy, Debug, PartialEq, Eq, Structural)]
pub struct PhaseChange {
    /// The phase to announce to the user interface for the session, if
    /// its phase changed.
    pub emitted: Option<ActivityPhase>,
    /// The token of a timer to cancel.
    pub cancelled: Option<u64>,
    /// The token of a timer to start.
    pub armed: Option<u64>,
    /// After how many milliseconds the started timer expires; 0 where
    /// none is started.
    pub delay_ms: u64,
}

/// The step that changes nothing.
pub open spec fn no_change() -> PhaseChange {
    PhaseChange { emitted: None, cancelled: None, armed: None, delay_ms: 0 }
}

/// Whether the state of a session is one that the tracker can be in: a
/// timer is armed only in cooldown.
pub open spec fn state_valid(state: SessionState) -> bool {
    state.timer is Some ==> state.phase == ActivityPhase::Cooldown
}

/// Whether every session of the model is in a state that the tracker can
/// be in.
pub open spec fn model_valid(m: TrackerModel) -> bool {
    forall|id: Seq<char>| #[trigger] m.sessions.contains_key(id) ==> state_valid(m.sessions[id])
}

/// The phase of a session, `None` for one never seen.
pub open spec fn phase_in(m: TrackerModel, id: Seq<char>) -> Option<ActivityPhase> {
    if m.sessions.contains_key(id) {
        Some(m.sessions[id].phase)
    } else {
        None
    }
}

/// The armed timer of a session.
pub open spec fn timer_in(m: TrackerModel, id: Seq<char>) -> Option<u64> {
    if m.sessions.contains_key(id) {
        m.sessions[id].timer
    } else {
        None
    }
}

/// Setting a phase: nothing where the session already has it; otherwise the
/// session gets the phase, and any phase but cooldown drops its timer.
pub open spec fn model_set_phase(m: TrackerModel, id: Seq<char>, phase: ActivityPhase)
    -> TrackerModel {
    if phase_in(m, id) == Some(phase) {
        m
    } else {
        let timer = if phase == ActivityPhase::Cooldown {
            timer_in(m, id)
        } else {
            None
        };
        TrackerModel { sessions: m.sessions.insert(id, SessionState { phase, timer }), ..m }
    }
}

/// What setting a phase asks of the driver.
pub open spec fn change_of_set_phase(m: TrackerModel, id: Seq<char>, phase: ActivityPhase)
    -> PhaseChange {
    if phase_in(m, id) == Some(phase) {
        no_change()
    } else {
        PhaseChange {
            emitted: Some(phase),
            cancelled: if phase == ActivityPhase::Cooldown {
                None
            } else {
                timer_in(m, id)
            },
            armed: None,
            delay_ms: 0,
        }
    }
}

/// The phase that a status kind stands for: busy for `busy` and `retry`,
/// idle for any other.
pub open spec fn phase_of_status(kind: Seq<char>) -> ActivityPhase {
    if kind == "busy"@ || kind == "retry"@ {
        ActivityPhase::Busy
    } else {
        ActivityPhase::Idle
    }
}

/// A finished assistant turn: a busy session goes to cooldown with a fresh
/// timer that replaces any earlier one; any other session stays as it is.
pub open spec fn model_assistant_stop(m: TrackerModel, id: Seq<char>) -> TrackerModel {
    if phase_in(m, id) == Some(ActivityPhase::Busy) {
        TrackerModel {
            sessions: m.sessions.insert(
                id,
                SessionState { phase: ActivityPhase::Cooldown, timer: Some(m.next_token) },
            ),
            next_token: if m.next_token == u64::MAX {
                0
            } else {
                (m.next_token + 1) as u64
            },
        }
    } else {
        m
    }
}

/// What a finished assistant turn asks of the driver.
pub open spec fn change_of_assistant_stop(m: TrackerModel, id: Seq<char>) -> PhaseChange {
    if phase_in(m, id) == Some(ActivityPhase::Busy) {
        PhaseChange {
            emitted: Some(ActivityPhase::Cooldown),
            cancelled: timer_in(m, id),
            armed: Some(m.next_token),
            delay_ms: COOLDOWN_MS,
        }
    } else {
        no_change()
    }
}

/// Whether the timer `token` is the one armed for the session and the
/// session is still in cooldown.
pub open spec fn timer_is_live(m: TrackerModel, id: Seq<char>, token: u64) -> bool {
    phase_in(m, id) == Some(ActivityPhase::Cooldown) && timer_in(m, id) == Some(token)
}

/// The expiry of a timer: a live one makes its session idle; one that was
/// cancelled or replaced changes nothing.
pub open spec fn model_cooldown_elapsed(m: TrackerModel, id: Seq<char>, token: u64)
    -> TrackerModel {
    if timer_is_live(m, id, token) {
        TrackerModel {
            sessions: m.sessions.insert(
                id,
                SessionState { phase: ActivityPhase::Idle, timer: None },
            ),
            ..m
        }
    } else {
        m
    }
}

/// What the expiry of a timer asks of the driver.
pub open spec fn change_of_cooldown_elapsed(m: TrackerModel, id: Seq<char>, token: u64)
    -> PhaseChange {
    if timer_is_live(m, id, token) {
        PhaseChange { emitted: Some(ActivityPhase::Idle), cancelled: None, armed: None, delay_ms: 0 }
    } else {
        no_change()
    }
}

/// The state of an idle session without a timer.
pub open spec fn idle_state() -> SessionState {
    SessionState { phase: ActivityPhase::Idle, timer: None }
}

/// The reset before a reconnect: every tracked session stays tracked, idle
/// and without a timer.
pub open spec fn model_reset(m: TrackerModel) -> TrackerModel {
    TrackerModel {
        sessions: Map::new(|k: Seq<char>| m.sessions.contains_key(k), |k: Seq<char>| idle_state()),
        ..m
    }
}

/// The session that the event speaks of, where it is one that the tracker
/// acts on: a status report or a finished assistant turn with a session
/// identifier (and, for a status report, a status kind).
pub open spec fn event_session(event: EventEnvelope) -> Option<Seq<char>> {
    if event.is_status() {
        if event.status_type is Some {
            option_text(event.session_id)
        } else {
            None
        }
    } else if event.is_assistant_stop() {
        option_text(event.message_session_id)
    } else {
        None
    }
}

/// Finds the session that an event speaks of, where the tracker acts on
/// the event.
pub fn session_of(event: &EventEnvelope) -> (r: Option<String>)
    ensures
        option_text(r) == event_session(*event),
{
    if str_eq(event.event_type.as_str(), "session.status") {
        match (&event.session_id, &event.status_type) {
            (Some(id), Some(_)) => Some(id.clone()),
            _ => None,
        }
    } else if str_eq(event.event_type.as_str(), "message.updated") && option_is(
        &event.role,
        "assistant",
    ) && option_is(&event.finish, "stop") {
        match &event.message_session_id {
            Some(id) => Some(id.clone()),
            None => None,
        }
    } else {
        None
    }
}

/// The tracker's state after an event of the stream.
pub open spec fn model_event(m: TrackerModel, event: EventEnvelope) -> TrackerModel {
    match event_session(event) {
        None => m,
        Some(id) => if event.is_status() {
            model_set_phase(m, id, phase_of_status(event.status_type->0@))
        } else {
            model_assistant_stop(m, id)
        },
    }
}

/// What an event of the stream asks of the driver.
pub open spec fn change_of_event(m: TrackerModel, event: EventEnvelope) -> PhaseChange {
    match event_session(event) {
        None => no_change(),
        Some(id) => if event.is_status() {
            change_of_set_phase(m, id, phase_of_status(event.status_type->0@))
        } else {
            change_of_assistant_stop(m, id)
        },
    }
}

/// What the reset before a reconnect asks of the driver.
pub struct ResetOutcome {
    /// The sessions to announce as idle.
    pub changed: Vec<String>,
    /// The tokens of the timers to cancel.
    pub cancelled: Vec<u64>,
}

/// One tracked session.
pub struct SessionEntry {
    pub id: String,
    pub state: SessionState,
}

/// The sessions of a list of entries, a later entry overriding an earlier
/// one of the same identifier.
pub open spec fn sessions_of(entries: Seq<SessionEntry>) -> Map<Seq<char>, SessionState>
    decreases entries.len(),
{
    if entries.len() == 0 {
        Map::empty()
    } else {
        sessions_of(entries.drop_last()).insert(entries.last().id@, entries.last().state)
    }
}

/// Whether no identifier occurs twice among the entries.
pub open spec fn distinct_ids(entries: Seq<SessionEntry>) -> bool {
    forall|i: int, j: int|
        0 <= i < j < entries.len() ==> #[trigger] entries[i].id@ != #[trigger] entries[j].id@
}

/// The sessions of a list without repeated identifiers are exactly its
/// entries.
pub proof fn lemma_sessions_of(entries: Seq<SessionEntry>)
    requires
        distinct_ids(entries),
    ensures
        forall|i: int|
            0 <= i < entries.len() ==> sessions_of(entries).contains_key(
                #[trigger] entries[i].id@,
            ) && sessions_of(entries)[entries[i].id@] == entries[i].state,
        forall|k: Seq<char>| #[trigger]
            sessions_of(entries).contains_key(k) ==> exists|i: int|
                0 <= i < entries.len() && entries[i].id@ == k,
    decreases entries.len(),
{
    if entries.len() > 0 {
        let front = entries.drop_last();
        assert(distinct_ids(front)) by {
            assert forall|i: int, j: int| 0 <= i < j < front.len() implies #[trigger] front[i].id@
                != #[trigger] front[j].id@ by {
                assert(front[i] == entries[i]);
                assert(front[j] == entries[j]);
            }
        }
        lemma_sessions_of(front);
        assert forall|i: int| 0 <= i < entries.len() implies sessions_of(entries).contains_key(
            #[trigger] entries[i].id@,
        ) && sessions_of(entries)[entries[i].id@] == entries[i].state by {
            if i < entries.len() - 1 {
                assert(front[i] == entries[i]);
                assert(entries[i].id@ != entries[entries.len() - 1].id@);
            }
        }
        assert forall|k: Seq<char>| #[trigger] sessions_of(entries).contains_key(k) implies exists|
            i: int,
        |
            0 <= i < entries.len() && entries[i].id@ == k by {
            if k == entries.last().id@ {
                assert(entries[entries.len() - 1].id@ == k);
            } else {
                let i = choose|i: int| 0 <= i < front.len() && front[i].id@ == k;
                assert(entries[i].id@ == k);
            }
        }
    }
}

/// The tracker of session phases. It owns the token of every armed
/// cooldown timer; its driver starts and cancels the timers themselves.
pub struct SessionActivityTracker {
    entries: Vec<SessionEntry>,
    next_token: u64,
}

impl SessionActivityTracker {
    /// No identifier is tracked twice, and a timer is armed only for a
    /// session in cooldown.
    pub closed spec fn wf(&self) -> bool {
        distinct_ids(self.entries@) && model_valid(self.model())
    }

    /// In a valid tracker a timer is armed only for a session in
    /// cooldown.
    pub proof fn lemma_valid_model(&self)
        requires
            self.wf(),
        ensures
            model_valid(self.model()),
    {
    }

    /// The tracker's state in mathematical form.
    pub closed spec fn model(&self) -> TrackerModel {
        TrackerModel { sessions: sessions_of(self.entries@), next_token: self.next_token }
    }

    /// A tracker that has seen no session.
    pub fn new() -> (r: Self)
        ensures
            r.wf(),
            r.model().sessions == Map::<Seq<char>, SessionState>::empty(),
            r.model().next_token == 0,
    {
        SessionActivityTracker { entries: Vec::new(), next_token: 0 }
    }

    /// The position of the session among the entries.
    fn find(&self, id: &str) -> (r: Option<usize>)
        requires
            self.wf(),
        ensures
            match r {
                Some(i) => i < self.entries@.len() && self.entries@[i as int].id@ == id@
                    && self.model().sessions.contains_key(id@) && self.model().sessions[id@]
                    == self.entries@[i as int].state,
                None => !self.model().sessions.contains_key(id@) && forall|k: int|
                    0 <= k < self.entries@.len() ==> self.entries@[k].id@ != id@,
            },
    {
        let mut i: usize = 0;
        while i < self.entries.len()
            invariant
                self.wf(),
                i <= self.entries.len(),
                forall|k: int| 0 <= k < i ==> self.entries@[k].id@ != id@,
            decreases self.entries.len() - i,
        {
            if str_eq(self.entries[i].id.as_str(), id) {
                proof {
                    lemma_sessions_of(self.entries@);
                }
                return Some(i);
            }
            i += 1;
        }
        proof {
            lemma_sessions_of(self.entries@);
        }
        None
    }

    /// Gives the session the state `state`, tracking it if it is new.
    fn store(&mut self, id: &str, state: SessionState)
        requires
            old(self).wf(),
            state_valid(state),
        ensures
            final(self).wf(),
            final(self).model().sessions == old(self).model().sessions.insert(id@, state),
            final(self).model().next_token == old(self).model().next_token,
    {
        let found = self.find(id);
        let ghost before = self.entries@;
        match found {
            Some(i) => {
                let entry = SessionEntry { id: id.to_owned(), state };
                self.entries.set(i, entry);
                proof {
                    let after = self.entries@;
                    assert(distinct_ids(after)) by {
                        assert forall|a: int, b: int| 0 <= a < b < after.len() implies #[trigger]
                            after[a].id@ != #[trigger] after[b].id@ by {
                            assert(after[a].id@ == before[a].id@);
                            assert(after[b].id@ == before[b].id@);
                        }
                    }
                    lemma_sessions_of(before);
                    lemma_sessions_of(after);
                    assert forall|k: Seq<char>|
                        sessions_of(before).insert(id@, state).contains_key(k) implies #[trigger]
                        sessions_of(after).contains_key(k) by {
                        if k == id@ {
                            assert(after[i as int].id@ == k);
                        } else {
                            let j = choose|j: int| 0 <= j < before.len() && before[j].id@ == k;
                            assert(after[j].id@ == k);
                        }
                    }
                    assert forall|k: Seq<char>| #[trigger]
                        sessions_of(after).contains_key(k) implies sessions_of(before).insert(
                        id@,
                        state,
                    ).contains_key(k) && sessions_of(before).insert(id@, state)[k] == sessions_of(
                        after,
                    )[k] by {
                        let j = choose|j: int| 0 <= j < after.len() && after[j].id@ == k;
                        if j == i {
                            assert(after[j].state == state);
                        } else {
                            assert(before[j].id@ == k);
                            assert(after[j] == before[j]);
                        }
                    }
                    assert(sessions_of(after) =~= sessions_of(before).insert(id@, state));
                }
            },
            None => {
                let entry = SessionEntry { id: id.to_owned(), state };
                self.entries.push(entry);
                proof {
                    let after = self.entries@;
                    assert(after.drop_last() =~= before);
                    assert(distinct_ids(after)) by {
                        assert forall|a: int, b: int| 0 <= a < b < after.len() implies #[trigger]
                            after[a].id@ != #[trigger] after[b].id@ by {
                            assert(after[a] == before[a]);
                            if b < before.len() {
                                assert(after[b] == before[b]);
                            }
                        }
                    }
                }
            },
        }
    }

    /// The phase of the session, `None` for one never seen.
    pub fn phase_of(&self, id: &str) -> (r: Option<ActivityPhase>)
        requires
            self.wf(),
        ensures
            r == phase_in(self.model(), id@),
    {
        match self.find(id) {
            Some(i) => Some(self.entries[i].state.phase),
            None => None,
        }
    }

    /// The state of the session, `None` for one never seen.
    fn state_of(&self, id: &str) -> (r: Option<SessionState>)
        requires
            self.wf(),
        ensures
            r is Some <==> self.model().sessions.contains_key(id@),
            r matches Some(s) ==> s == self.model().sessions[id@],
    {
        match self.find(id) {
            Some(i) => Some(self.entries[i].state),
            None => None,
        }
    }

    /// How many sessions are tracked.
    pub fn session_count(&self) -> (r: usize)
        requires
            self.wf(),
        ensures
            r == self.model().sessions.dom().len(),
            self.model().sessions.dom().finite(),
    {
        proof {
            lemma_sessions_len(self.entries@);
        }
        self.entries.len()
    }

    /// Sets the phase of a session. Setting the phase that it has is a
    /// no-op; any accepted change is announced, and leaving cooldown cancels
    /// the session's timer.
    pub fn set_phase(&mut self, id: &str, phase: ActivityPhase) -> (r: PhaseChange)
        requires
            old(self).wf(),
        ensures
            final(self).wf(),
            final(self).model() == model_set_phase(old(self).model(), id@, phase),
            r == change_of_set_phase(old(self).model(), id@, phase),
    {
        let current = self.state_of(id);
        let old_timer = match current {
            Some(s) => {
                if s.phase == phase {
                    return PhaseChange { emitted: None, cancelled: None, armed: None, delay_ms: 0 };
                }
                s.timer
            },
            None => None,
        };
        let keeps_timer = phase == ActivityPhase::Cooldown;
        let timer = if keeps_timer {
            old_timer
        } else {
            None
        };
        self.store(id, SessionState { phase, timer });
        PhaseChange {
            emitted: Some(phase),
            cancelled: if keeps_timer {
                None
            } else {
                old_timer
            },
            armed: None,
            delay_ms: 0,
        }
    }

    /// Handles a finished assistant turn of a session: a busy session goes
    /// to cooldown and gets a fresh timer, which replaces any earlier one.
    pub fn assistant_stopped(&mut self, id: &str) -> (r: PhaseChange)
        requires
            old(self).wf(),
        ensures
            final(self).wf(),
            final(self).model() == model_assistant_stop(old(self).model(), id@),
            r == change_of_assistant_stop(old(self).model(), id@),
    {
        match self.state_of(id) {
            Some(s) => {
                if s.phase == ActivityPhase::Busy {
                    let token = self.next_token;
                    self.store(
                        id,
                        SessionState { phase: ActivityPhase::Cooldown, timer: Some(token) },
                    );
                    self.next_token = if token == u64::MAX {
                        0
                    } else {
                        token + 1
                    };
                    PhaseChange {
                        emitted: Some(ActivityPhase::Cooldown),
                        cancelled: s.timer,
                        armed: Some(token),
                        delay_ms: COOLDOWN_MS,
                    }
                } else {
                    PhaseChange { emitted: None, cancelled: None, armed: None, delay_ms: 0 }
                }
            },
            None => PhaseChange { emitted: None, cancelled: None, armed: None, delay_ms: 0 },
        }
    }

    /// Handles the expiry of the cooldown timer `token` of a session.
    pub fn cooldown_elapsed(&mut self, id: &str, token: u64) -> (r: PhaseChange)
        requires
            old(self).wf(),
        ensures
            final(self).wf(),
            final(self).model() == model_cooldown_elapsed(old(self).model(), id@, token),
            r == change_of_cooldown_elapsed(old(self).model(), id@, token),
    {
        match self.state_of(id) {
            Some(s) => {
                if s.phase == ActivityPhase::Cooldown && s.timer == Some(token) {
                    self.store(id, SessionState { phase: ActivityPhase::Idle, timer: None });
                    PhaseChange { emitted: Some(ActivityPhase::Idle), cancelled: None, armed: None, delay_ms: 0 }
                } else {
                    PhaseChange { emitted: None, cancelled: None, armed: None, delay_ms: 0 }
                }
            },
            None => PhaseChange { emitted: None, cancelled: None, armed: None, delay_ms: 0 },
        }
    }

    /// Handles one event of the stream.
    pub fn handle_event(&mut self, event: &EventEnvelope) -> (r: PhaseChange)
        requires
            old(self).wf(),
        ensures
            final(self).wf(),
            final(self).model() == model_event(old(self).model(), *event),
            r == change_of_event(old(self).model(), *event),
    {
        if str_eq(event.event_type.as_str(), "session.status") {
            match (&event.session_id, &event.status_type) {
                (Some(id), Some(kind)) => {
                    let busy = str_eq(kind.as_str(), "busy") || str_eq(kind.as_str(), "retry");
                    let phase = if busy {
                        ActivityPhase::Busy
                    } else {
                        ActivityPhase::Idle
                    };
                    self.set_phase(id.as_str(), phase)
                },
                _ => PhaseChange { emitted: None, cancelled: None, armed: None, delay_ms: 0 },
            }
        } else if str_eq(event.event_type.as_str(), "message.updated") && option_is(
            &event.role,
            "assistant",
        ) && option_is(&event.finish, "stop") {
            match &event.message_session_id {
                Some(id) => self.assistant_stopped(id.as_str()),
                None => PhaseChange { emitted: None, cancelled: None, armed: None, delay_ms: 0 },
            }
        } else {
            PhaseChange { emitted: None, cancelled: None, armed: None, delay_ms: 0 }
        }
    }

    /// Resets the tracker before a reconnect: every timer is handed back
    /// for cancelling and every session becomes idle. Each session whose
    /// phase changed by this is listed once, to be announced as idle.
    pub fn reset_and_emit_all_phases(&mut self) -> (r: ResetOutcome)
        requires
            old(self).wf(),
        ensures
            final(self).wf(),
            final(self).model() == model_reset(old(self).model()),
            strings_view(r.changed@).no_duplicates(),
            forall|id: Seq<char>| #[trigger]
                strings_view(r.changed@).contains(id) <==> (phase_in(old(self).model(), id)
                    is Some && phase_in(old(self).model(), id) != Some(ActivityPhase::Idle)),
            forall|t: u64| #[trigger]
                r.cancelled@.contains(t) <==> exists|id: Seq<char>| #[trigger]
                    timer_in(old(self).model(), id) == Some(t),
    {
        let ghost before = self.entries@;
        let mut changed: Vec<String> = Vec::new();
        let mut cancelled: Vec<u64> = Vec::new();
        let mut i: usize = 0;
        proof {
            assert(before.take(0) =~= Seq::<SessionEntry>::empty());
            assert(strings_view(changed@) =~= changed_ids(before.take(0)));
            assert(cancelled@ =~= armed_tokens(before.take(0)));
        }
        while i < self.entries.len()
            invariant
                i <= self.entries@.len(),
                self.entries@.len() == before.len(),
                self.next_token == old(self).next_token,
                forall|k: int|
                    0 <= k < before.len() ==> (#[trigger] self.entries@[k]).id@ == before[k].id@,
                forall|k: int| 0 <= k < i ==> (#[trigger] self.entries@[k]).state == idle_state(),
                forall|k: int| i <= k < before.len() ==> #[trigger] self.entries@[k] == before[k],
                strings_view(changed@) == changed_ids(before.take(i as int)),
                cancelled@ == armed_tokens(before.take(i as int)),
            decreases self.entries.len() - i,
        {
            let state = self.entries[i].state;
            let id = self.entries[i].id.clone();
            proof {
                assert(self.entries@[i as int] == before[i as int]);
                assert(before.take(i + 1).drop_last() =~= before.take(i as int));
                assert(before.take(i + 1).last() == before[i as int]);
            }
            if let Some(token) = state.timer {
                cancelled.push(token);
            }
            if state.phase != ActivityPhase::Idle {
                let ghost old_changed = strings_view(changed@);
                changed.push(id.clone());
                assert(strings_view(changed@) =~= old_changed.push(id@));
            }
            self.entries.set(
                i,
                SessionEntry { id, state: SessionState { phase: ActivityPhase::Idle, timer: None } },
            );
            i += 1;
        }
        proof {
            let after = self.entries@;
            assert(before.take(before.len() as int) =~= before);
            lemma_reset_entries(before, after);
            lemma_changed_ids(before);
            lemma_armed_tokens(before, old(self).next_token);
        }
        ResetOutcome { changed, cancelled }
    }
}

/// A list without repeated identifiers tracks as many sessions as it has
/// entries.
pub proof fn lemma_sessions_len(entries: Seq<SessionEntry>)
    requires
        distinct_ids(entries),
    ensures
        sessions_of(entries).dom().finite(),
        sessions_of(entries).dom().len() == entries.len(),
    decreases entries.len(),
{
    if entries.len() > 0 {
        let front = entries.drop_last();
        assert(distinct_ids(front)) by {
            assert forall|i: int, j: int| 0 <= i < j < front.len() implies #[trigger] front[i].id@
                != #[trigger] front[j].id@ by {
                assert(front[i] == entries[i]);
                assert(front[j] == entries[j]);
            }
        }
        lemma_sessions_len(front);
        lemma_sessions_of(front);
        if sessions_of(front).contains_key(entries.last().id@) {
            let i = choose|i: int| 0 <= i < front.len() && front[i].id@ == entries.last().id@;
            assert(entries[i].id@ == entries[entries.len() - 1].id@);
        }
    }
}


/// The identifiers of the entries that are not idle, in order.
pub open spec fn changed_ids(entries: Seq<SessionEntry>) -> Seq<Seq<char>>
    decreases entries.len(),
{
    if entries.len() == 0 {
        Seq::empty()
    } else if entries.last().state.phase != ActivityPhase::Idle {
        changed_ids(entries.drop_last()).push(entries.last().id@)
    } else {
        changed_ids(entries.drop_last())
    }
}

/// The tokens of the timers armed among the entries, in order.
pub open spec fn armed_tokens(entries: Seq<SessionEntry>) -> Seq<u64>
    decreases entries.len(),
{
    if entries.len() == 0 {
        Seq::empty()
    } else if entries.last().state.timer is Some {
        armed_tokens(entries.drop_last()).push(entries.last().state.timer->0)
    } else {
        armed_tokens(entries.drop_last())
    }
}

/// Dropping the last entry of a list without repeated identifiers leaves
/// one.
proof fn lemma_distinct_front(entries: Seq<SessionEntry>)
    requires
        distinct_ids(entries),
        entries.len() > 0,
    ensures
        distinct_ids(entries.drop_last()),
{
    let front = entries.drop_last();
    assert forall|i: int, j: int| 0 <= i < j < front.len() implies #[trigger] front[i].id@
        != #[trigger] front[j].id@ by {
        assert(front[i] == entries[i]);
        assert(front[j] == entries[j]);
    }
}

/// `changed_ids` lists each session that is not idle, once.
proof fn lemma_changed_ids(entries: Seq<SessionEntry>)
    requires
        distinct_ids(entries),
    ensures
        changed_ids(entries).no_duplicates(),
        forall|id: Seq<char>| #[trigger]
            changed_ids(entries).contains(id) <==> (phase_in(
                TrackerModel { sessions: sessions_of(entries), next_token: 0 },
                id,
            ) is Some && sessions_of(entries)[id].phase != ActivityPhase::Idle),
    decreases entries.len(),
{
    if entries.len() > 0 {
        let front = entries.drop_last();
        let last = entries.last();
        lemma_distinct_front(entries);
        lemma_changed_ids(front);
        lemma_sessions_of(front);
        if sessions_of(front).contains_key(last.id@) {
            let i = choose|i: int| 0 <= i < front.len() && front[i].id@ == last.id@;
            assert(entries[i].id@ == entries[entries.len() - 1].id@);
        }
        assert(!changed_ids(front).contains(last.id@));
        let ids = changed_ids(front);
        assert forall|id: Seq<char>| #[trigger]
            changed_ids(entries).contains(id) <==> (sessions_of(entries).contains_key(id)
                && sessions_of(entries)[id].phase != ActivityPhase::Idle) by {
            if last.state.phase != ActivityPhase::Idle {
                assert(changed_ids(entries) == ids.push(last.id@));
                if ids.push(last.id@).contains(id) {
                    let j = choose|j: int|
                        0 <= j < ids.push(last.id@).len() && ids.push(last.id@)[j] == id;
                    if j < ids.len() {
                        assert(ids[j] == id);
                        assert(ids.contains(id));
                    }
                }
                if id == last.id@ {
                    assert(ids.push(last.id@)[ids.len() as int] == id);
                } else if ids.contains(id) {
                    let j = choose|j: int| 0 <= j < ids.len() && ids[j] == id;
                    assert(ids.push(last.id@)[j] == id);
                }
            }
        }
    }
}

/// `armed_tokens` lists exactly the tokens of the armed timers.
proof fn lemma_armed_tokens(entries: Seq<SessionEntry>, next_token: u64)
    requires
        distinct_ids(entries),
    ensures
        forall|t: u64| #[trigger]
            armed_tokens(entries).contains(t) <==> exists|id: Seq<char>| #[trigger]
                timer_in(TrackerModel { sessions: sessions_of(entries), next_token }, id)
                    == Some(t),
    decreases entries.len(),
{
    if entries.len() > 0 {
        let front = entries.drop_last();
        let last = entries.last();
        lemma_distinct_front(entries);
        lemma_armed_tokens(front, next_token);
        lemma_sessions_of(front);
        if sessions_of(front).contains_key(last.id@) {
            let i = choose|i: int| 0 <= i < front.len() && front[i].id@ == last.id@;
            assert(entries[i].id@ == entries[entries.len() - 1].id@);
        }
        let m = TrackerModel { sessions: sessions_of(entries), next_token };
        let mf = TrackerModel { sessions: sessions_of(front), next_token };
        let toks = armed_tokens(front);
        assert forall|t: u64| #[trigger]
            armed_tokens(entries).contains(t) <==> exists|id: Seq<char>| #[trigger]
                timer_in(m, id) == Some(t) by {
            if armed_tokens(entries).contains(t) {
                if toks.contains(t) {
                    let id = choose|id: Seq<char>| #[trigger] timer_in(mf, id) == Some(t);
                    assert(timer_in(m, id) == Some(t));
                } else {
                    let j = choose|j: int|
                        0 <= j < armed_tokens(entries).len() && armed_tokens(entries)[j] == t;
                    if last.state.timer is Some {
                        if j < toks.len() {
                            assert(toks[j] == t);
                        }
                    }
                    assert(timer_in(m, last.id@) == Some(t));
                }
            }
            if exists|id: Seq<char>| #[trigger] timer_in(m, id) == Some(t) {
                let id = choose|id: Seq<char>| #[trigger] timer_in(m, id) == Some(t);
                if id == last.id@ {
                    assert(last.state.timer == Some(t));
                    assert(toks.push(t)[toks.len() as int] == t);
                } else {
                    assert(timer_in(mf, id) == Some(t));
                    assert(toks.contains(t));
                    let j = choose|j: int| 0 <= j < toks.len() && toks[j] == t;
                    if last.state.timer is Some {
                        assert(toks.push(last.state.timer->0)[j] == t);
                    }
                }
            }
        }
    }
}

/// Entries that keep their identifiers and are all idle are the reset of
/// what they were.
proof fn lemma_reset_entries(before: Seq<SessionEntry>, after: Seq<SessionEntry>)
    requires
        distinct_ids(before),
        after.len() == before.len(),
        forall|k: int| 0 <= k < before.len() ==> (#[trigger] after[k]).id@ == before[k].id@,
        forall|k: int| 0 <= k < before.len() ==> (#[trigger] after[k]).state == idle_state(),
    ensures
        distinct_ids(after),
        sessions_of(after) == model_reset(
            TrackerModel { sessions: sessions_of(before), next_token: 0 },
        ).sessions,
{
    assert(distinct_ids(after)) by {
        assert forall|a: int, b: int| 0 <= a < b < after.len() implies #[trigger] after[a].id@
            != #[trigger] after[b].id@ by {
            assert(after[a].id@ == before[a].id@);
            assert(after[b].id@ == before[b].id@);
        }
    }
    lemma_sessions_of(before);
    lemma_sessions_of(after);
    let target = model_reset(TrackerModel { sessions: sessions_of(before), next_token: 0 }).sessions;
    assert forall|k: Seq<char>| #[trigger] target.contains_key(k) implies sessions_of(
        after,
    ).contains_key(k) by {
        let j = choose|j: int| 0 <= j < before.len() && before[j].id@ == k;
        assert(after[j].id@ == k);
    }
    assert forall|k: Seq<char>| #[trigger]
        sessions_of(after).contains_key(k) implies target.contains_key(k) && target[k]
        == sessions_of(after)[k] by {
        let j = choose|j: int| 0 <= j < after.len() && after[j].id@ == k;
        assert(before[j].id@ == k);
        assert(after[j].state == idle_state());
    }
    assert(sessions_of(after) =~= target);
}

} // verus!
