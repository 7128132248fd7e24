use openchamber_core::activity::{
    phase_label, session_of, ActivityPhase, PhaseChange, SessionActivityTracker, COOLDOWN_MS,
    SESSION_ACTIVITY_EVENT,
};
use openchamber_core::events::parse_envelope;

fn status(session: &str, kind: &str) -> String {
    format!(
        "{{\"type\":\"session.status\",\"properties\":{{\"sessionID\":\"{session}\",\"status\":{{\"type\":\"{kind}\"}}}}}}"
    )
}

fn assistant_stop(session: &str, message: &str) -> String {
    format!(
        "{{\"type\":\"message.updated\",\"properties\":{{\"info\":{{\"id\":\"{message}\",\"sessionID\":\"{session}\",\"role\":\"assistant\",\"finish\":\"stop\"}}}}}}"
    )
}

fn feed(tracker: &mut SessionActivityTracker, raw: &str) -> PhaseChange {
    let envelope = parse_envelope(raw).expect("envelope");
    tracker.handle_event(&envelope)
}

#[test]
fn cooldown_is_two_seconds() {
    assert_eq!(COOLDOWN_MS, 2000);
}

#[test]
fn new_tracker_knows_no_session() {
    let tracker = SessionActivityTracker::new();
    assert_eq!(tracker.session_count(), 0);
    assert_eq!(tracker.phase_of("s1"), None);
}

#[test]
fn busy_and_retry_status_force_busy() {
    let mut tracker = SessionActivityTracker::new();
    let change = feed(&mut tracker, &status("s1", "busy"));
    assert_eq!(change.emitted, Some(ActivityPhase::Busy));
    assert_eq!(change.cancelled, None);
    assert_eq!(change.armed, None);
    assert_eq!(tracker.phase_of("s1"), Some(ActivityPhase::Busy));
    let change = feed(&mut tracker, &status("s2", "retry"));
    assert_eq!(change.emitted, Some(ActivityPhase::Busy));
    assert_eq!(tracker.phase_of("s2"), Some(ActivityPhase::Busy));
    assert_eq!(tracker.session_count(), 2);
}

#[test]
fn other_status_forces_idle() {
    let mut tracker = SessionActivityTracker::new();
    feed(&mut tracker, &status("s1", "busy"));
    let change = feed(&mut tracker, &status("s1", "idle"));
    assert_eq!(change.emitted, Some(ActivityPhase::Idle));
    assert_eq!(tracker.phase_of("s1"), Some(ActivityPhase::Idle));
    let change = feed(&mut tracker, &status("s9", "whatever"));
    assert_eq!(change.emitted, Some(ActivityPhase::Idle));
    assert_eq!(tracker.phase_of("s9"), Some(ActivityPhase::Idle));
}

#[test]
fn setting_the_same_phase_emits_nothing() {
    let mut tracker = SessionActivityTracker::new();
    feed(&mut tracker, &status("s1", "busy"));
    let change = feed(&mut tracker, &status("s1", "retry"));
    assert_eq!(change, PhaseChange { emitted: None, cancelled: None, armed: None, delay_ms: 0 });
    let change = tracker.set_phase("s1", ActivityPhase::Busy);
    assert_eq!(change, PhaseChange { emitted: None, cancelled: None, armed: None, delay_ms: 0 });
}

#[test]
fn busy_then_stop_then_expiry_goes_idle() {
    let mut tracker = SessionActivityTracker::new();
    feed(&mut tracker, &status("s1", "busy"));
    let change = feed(&mut tracker, &assistant_stop("s1", "m1"));
    assert_eq!(change.emitted, Some(ActivityPhase::Cooldown));
    assert_eq!(change.cancelled, None);
    let token = change.armed.expect("a timer is armed");
    assert_eq!(change.delay_ms, 2000);
    assert_eq!(tracker.phase_of("s1"), Some(ActivityPhase::Cooldown));
    let change = tracker.cooldown_elapsed("s1", token);
    assert_eq!(change.emitted, Some(ActivityPhase::Idle));
    assert_eq!(tracker.phase_of("s1"), Some(ActivityPhase::Idle));
}

#[test]
fn busy_within_cooldown_cancels_the_timer() {
    let mut tracker = SessionActivityTracker::new();
    feed(&mut tracker, &status("s1", "busy"));
    let token = feed(&mut tracker, &assistant_stop("s1", "m1")).armed.unwrap();
    let change = feed(&mut tracker, &status("s1", "busy"));
    assert_eq!(change.emitted, Some(ActivityPhase::Busy));
    assert_eq!(change.cancelled, Some(token));
    let late = tracker.cooldown_elapsed("s1", token);
    assert_eq!(late, PhaseChange { emitted: None, cancelled: None, armed: None, delay_ms: 0 });
    assert_eq!(tracker.phase_of("s1"), Some(ActivityPhase::Busy));
}

#[test]
fn stop_of_a_session_that_is_not_busy_changes_nothing() {
    let mut tracker = SessionActivityTracker::new();
    let change = feed(&mut tracker, &assistant_stop("s1", "m1"));
    assert_eq!(change, PhaseChange { emitted: None, cancelled: None, armed: None, delay_ms: 0 });
    assert_eq!(tracker.phase_of("s1"), None);
    feed(&mut tracker, &status("s1", "idle"));
    let change = feed(&mut tracker, &assistant_stop("s1", "m2"));
    assert_eq!(change.emitted, None);
    assert_eq!(tracker.phase_of("s1"), Some(ActivityPhase::Idle));
}

#[test]
fn a_stale_timer_token_is_ignored() {
    let mut tracker = SessionActivityTracker::new();
    feed(&mut tracker, &status("s1", "busy"));
    let first = feed(&mut tracker, &assistant_stop("s1", "m1")).armed.unwrap();
    feed(&mut tracker, &status("s1", "busy"));
    let second = feed(&mut tracker, &assistant_stop("s1", "m2")).armed.unwrap();
    assert_ne!(first, second);
    assert_eq!(tracker.cooldown_elapsed("s1", first).emitted, None);
    assert_eq!(tracker.phase_of("s1"), Some(ActivityPhase::Cooldown));
    assert_eq!(tracker.cooldown_elapsed("s1", second).emitted, Some(ActivityPhase::Idle));
}

#[test]
fn reset_makes_every_session_idle_and_lists_the_changed_ones_once() {
    let mut tracker = SessionActivityTracker::new();
    feed(&mut tracker, &status("a", "busy"));
    feed(&mut tracker, &status("b", "idle"));
    feed(&mut tracker, &status("c", "busy"));
    let token = feed(&mut tracker, &assistant_stop("c", "m1")).armed.unwrap();
    let outcome = tracker.reset_and_emit_all_phases();
    let mut changed = outcome.changed.clone();
    changed.sort();
    assert_eq!(changed, vec!["a".to_string(), "c".to_string()]);
    assert_eq!(outcome.cancelled, vec![token]);
    assert_eq!(tracker.session_count(), 3);
    assert_eq!(tracker.phase_of("a"), Some(ActivityPhase::Idle));
    assert_eq!(tracker.phase_of("b"), Some(ActivityPhase::Idle));
    assert_eq!(tracker.phase_of("c"), Some(ActivityPhase::Idle));
    assert_eq!(tracker.cooldown_elapsed("c", token).emitted, None);
    let again = tracker.reset_and_emit_all_phases();
    assert!(again.changed.is_empty());
    assert!(again.cancelled.is_empty());
}

#[test]
fn phase_is_busy_only_after_a_latest_busy_status() {
    let mut tracker = SessionActivityTracker::new();
    feed(&mut tracker, &status("s1", "busy"));
    feed(&mut tracker, &status("s2", "idle"));
    assert_eq!(tracker.phase_of("s1"), Some(ActivityPhase::Busy));
    feed(&mut tracker, &status("s1", "idle"));
    assert_ne!(tracker.phase_of("s1"), Some(ActivityPhase::Busy));
    feed(&mut tracker, &status("s1", "retry"));
    assert_eq!(tracker.phase_of("s1"), Some(ActivityPhase::Busy));
    tracker.reset_and_emit_all_phases();
    assert_ne!(tracker.phase_of("s1"), Some(ActivityPhase::Busy));
}

#[test]
fn events_without_session_or_of_other_types_are_ignored() {
    let mut tracker = SessionActivityTracker::new();
    let raw = "{\"type\":\"session.status\",\"properties\":{\"status\":{\"type\":\"busy\"}}}";
    assert_eq!(feed(&mut tracker, raw).emitted, None);
    let raw = "{\"type\":\"session.status\",\"properties\":{\"sessionID\":\"s1\"}}";
    assert_eq!(feed(&mut tracker, raw).emitted, None);
    let raw = "{\"type\":\"server.connected\",\"properties\":{}}";
    assert_eq!(feed(&mut tracker, raw).emitted, None);
    let raw = "{\"type\":\"message.updated\",\"properties\":{\"info\":{\"sessionID\":\"s1\",\"role\":\"user\",\"finish\":\"stop\"}}}";
    assert_eq!(feed(&mut tracker, raw).emitted, None);
    assert_eq!(tracker.session_count(), 0);
}

#[test]
fn phases_have_interface_words() {
    assert_eq!(phase_label(ActivityPhase::Idle), "idle");
    assert_eq!(phase_label(ActivityPhase::Busy), "busy");
    assert_eq!(phase_label(ActivityPhase::Cooldown), "cooldown");
    assert_eq!(SESSION_ACTIVITY_EVENT, "openchamber:session-activity");
}

#[test]
fn the_session_of_an_event() {
    let event = parse_envelope(&status("s1", "busy")).unwrap();
    assert_eq!(session_of(&event).as_deref(), Some("s1"));
    let event = parse_envelope(&assistant_stop("s2", "m1")).unwrap();
    assert_eq!(session_of(&event).as_deref(), Some("s2"));
    let raw = "{\"type\":\"session.status\",\"properties\":{\"sessionID\":\"s1\"}}";
    assert_eq!(session_of(&parse_envelope(raw).unwrap()), None);
    let raw = "{\"type\":\"session.idle\",\"properties\":{\"sessionID\":\"s1\"}}";
    assert_eq!(session_of(&parse_envelope(raw).unwrap()), None);
}
