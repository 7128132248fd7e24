//! What holds of port detection and of the stop of the process over whole
//! sequences of lines and reports.
use vstd::prelude::*;
use crate::patterns::group_text;
use crate::supervisor::{
    child_after_stop, distinct_nonempty, port_after_line, prefix_after_line, stop_step, StopAction, StopEvent, StopPhase, KILL_WAIT_MS,
    TERMINATE_WAIT_MS,
};
use crate::text::port_of;

verus! {

/// The port that a line of output reports, given what the match attempt on
/// it gave.
pub open spec fn line_port(groups: Option<Seq<Option<Seq<char>>>>) -> Option<u16> {
    match group_text(groups, 1) {
        Some(digits) => port_of(digits),
        None => None,
    }
}

/// The port after a sequence of lines.
pub open spec fn port_after_lines(
    desired_port: u16,
    port: Option<u16>,
    lines: Seq<Option<Seq<Option<Seq<char>>>>>,
) -> Option<u16>
    decreases lines.len(),
{
    if lines.len() == 0 {
        port
    } else {
        port_after_lines(
            desired_port,
            port_after_line(desired_port, port, lines[0]),
            lines.drop_first(),
        )
    }
}

/// The port of the first line that reports one.
pub open spec fn first_port(lines: Seq<Option<Seq<Option<Seq<char>>>>>) -> Option<u16>
    decreases lines.len(),
{
    if lines.len() == 0 {
        None
    } else {
        match line_port(lines[0]) {
            Some(p) => Some(p),
            None => first_port(lines.drop_first()),
        }
    }
}

/// A line without an address changes neither the port nor the prefix.
pub proof fn lemma_unmatched_line_changes_nothing(
    desired_port: u16,
    port: Option<u16>,
    prefix: Seq<char>,
)
    ensures
        port_after_line(desired_port, port, None) == port,
        prefix_after_line(prefix, None) == prefix,
{
}

/// An auto-assigned port, once detected, stays whatever lines follow.
pub proof fn lemma_detected_port_stays(port: u16, lines: Seq<Option<Seq<Option<Seq<char>>>>>)
    ensures
        port_after_lines(0, Some(port), lines) == Some(port),
    decreases lines.len(),
{
    if lines.len() > 0 {
        lemma_detected_port_stays(port, lines.drop_first());
    }
}

/// With an auto-assigned port, the port after any output is the one of the
/// first line that reports a port, and none where no line does.
pub proof fn lemma_first_port_is_adopted(lines: Seq<Option<Seq<Option<Seq<char>>>>>)
    ensures
        port_after_lines(0, None, lines) == first_port(lines),
    decreases lines.len(),
{
    if lines.len() > 0 {
        match line_port(lines[0]) {
            Some(p) => {
                lemma_detected_port_stays(p, lines.drop_first());
            },
            None => {
                lemma_first_port_is_adopted(lines.drop_first());
            },
        }
    }
}

/// The wait that an action grants, in milliseconds.
pub open spec fn wait_of(action: StopAction) -> nat {
    match action {
        StopAction::Terminate { wait_ms } => wait_ms as nat,
        StopAction::Kill { wait_ms } => wait_ms as nat,
        _ => 0,
    }
}

/// The phase of a stop after a sequence of reports.
pub open spec fn phase_after(phase: StopPhase, events: Seq<StopEvent>) -> StopPhase
    decreases events.len(),
{
    if events.len() == 0 {
        phase
    } else {
        phase_after(stop_step(phase, events[0]).0, events.drop_first())
    }
}

/// All the waits that a stop grants over a sequence of reports, in
/// milliseconds.
pub open spec fn total_wait(phase: StopPhase, events: Seq<StopEvent>) -> nat
    decreases events.len(),
{
    if events.len() == 0 {
        0
    } else {
        wait_of(stop_step(phase, events[0]).1) + total_wait(
            stop_step(phase, events[0]).0,
            events.drop_first(),
        )
    }
}

/// The most that a stop can still wait from a phase on.
pub open spec fn wait_budget(phase: StopPhase) -> nat {
    match phase {
        StopPhase::Idle => (TERMINATE_WAIT_MS + KILL_WAIT_MS) as nat,
        StopPhase::Terminating => KILL_WAIT_MS as nat,
        _ => 0,
    }
}

/// Whatever is reported, a stop never waits longer than its budget: eight
/// seconds in all from its beginning.
pub proof fn lemma_stop_wait_is_bounded(phase: StopPhase, events: Seq<StopEvent>)
    ensures
        total_wait(phase, events) <= wait_budget(phase),
        total_wait(StopPhase::Idle, events) <= 8000,
    decreases events.len(),
{
    if events.len() > 0 {
        lemma_stop_wait_is_bounded(stop_step(phase, events[0]).0, events.drop_first());
        lemma_stop_wait_is_bounded(stop_step(StopPhase::Idle, events[0]).0, events.drop_first());
    }
}

/// A stop escalates: the kill signal is sent only when the wait after the
/// terminate signal ran out, and the terminate signal only at the
/// beginning, to a process that has not exited.
pub proof fn lemma_stop_escalates(phase: StopPhase, event: StopEvent)
    ensures
        stop_step(phase, event).1 is Kill ==> phase == StopPhase::Terminating && event
            == StopEvent::TimedOut,
        stop_step(phase, event).1 is Terminate ==> phase == StopPhase::Idle && event
            == (StopEvent::Begin { has_child: true, exited: false }),
        stop_step(StopPhase::Idle, StopEvent::Begin { has_child: true, exited: false }) == (
            StopPhase::Terminating,
            StopAction::Terminate { wait_ms: 3000 },
        ),
        stop_step(StopPhase::Terminating, StopEvent::TimedOut) == (
            StopPhase::Killing,
            StopAction::Kill { wait_ms: 5000 },
        ),
{
}

/// A stop of a process that never exits is over after its two waits ran
/// out; one of no process, or of one that has exited, is over at once.
pub proof fn lemma_stop_ends(has_child: bool, exited: bool)
    ensures
        phase_after(
            StopPhase::Idle,
            seq![
                StopEvent::Begin { has_child: true, exited: false },
                StopEvent::TimedOut,
                StopEvent::TimedOut,
            ],
        ) == StopPhase::Stopped,
        !has_child || exited ==> stop_step(StopPhase::Idle, StopEvent::Begin { has_child, exited })
            == (StopPhase::Stopped, StopAction::Finish),
{
    let events = seq![
        StopEvent::Begin { has_child: true, exited: false },
        StopEvent::TimedOut,
        StopEvent::TimedOut,
    ];
    let second = events.drop_first();
    let third = second.drop_first();
    assert(third.drop_first().len() == 0);
    assert(second[0] == StopEvent::TimedOut);
    assert(third[0] == StopEvent::TimedOut);
    reveal_with_fuel(phase_after, 5);
}


/// Whether the handle of the process is still held after a sequence of
/// reports to a stop.
pub open spec fn child_after_reports(has_child: bool, phase: StopPhase, events: Seq<StopEvent>)
    -> bool
    decreases events.len(),
{
    if events.len() == 0 {
        has_child
    } else {
        child_after_reports(
            child_after_stop(has_child, phase, events[0]),
            stop_step(phase, events[0]).0,
            events.drop_first(),
        )
    }
}

/// Whether a report confirms the exit of the process.
pub open spec fn confirms_exit(event: StopEvent) -> bool {
    event is Exited || (event matches StopEvent::Begin { has_child: _, exited } && exited)
}

/// A stop gives up the handle of the process only when the exit is
/// confirmed: a handle that is held stays held over any reports among
/// which none confirms the exit, and a supervisor without a handle never
/// gains one by a stop.
pub proof fn lemma_handle_kept_until_exit_confirmed(phase: StopPhase, events: Seq<StopEvent>)
    ensures
        (forall|i: int| 0 <= i < events.len() ==> !confirms_exit(#[trigger] events[i]))
            ==> child_after_reports(true, phase, events),
        !child_after_reports(false, phase, events),
    decreases events.len(),
{
    if events.len() > 0 {
        let rest = events.drop_first();
        lemma_handle_kept_until_exit_confirmed(stop_step(phase, events[0]).0, rest);
        if forall|i: int| 0 <= i < events.len() ==> !confirms_exit(#[trigger] events[i]) {
            assert(!confirms_exit(events[0]));
            assert forall|i: int| 0 <= i < rest.len() implies !confirms_exit(
                #[trigger] rest[i],
            ) by {
                assert(rest[i] == events[i + 1]);
            }
        }
    }
}

/// After the stop of a process that never exits the handle is still
/// held, though the stop is over.
pub proof fn lemma_handle_stays_without_exit()
    ensures
        child_after_reports(
            true,
            StopPhase::Idle,
            seq![
                StopEvent::Begin { has_child: true, exited: false },
                StopEvent::TimedOut,
                StopEvent::TimedOut,
            ],
        ),
{
    let never = seq![
        StopEvent::Begin { has_child: true, exited: false },
        StopEvent::TimedOut,
        StopEvent::TimedOut,
    ];
    assert forall|i: int| 0 <= i < never.len() implies !confirms_exit(#[trigger] never[i]) by {}
    lemma_handle_kept_until_exit_confirmed(StopPhase::Idle, never);
}

/// The entries of a merged search path: none is empty, none occurs twice,
/// and every non-empty entry of the input is among them.
pub proof fn lemma_merged_entries_are_distinct(parts: Seq<Seq<char>>)
    ensures
        distinct_nonempty(parts).no_duplicates(),
        forall|i: int|
            0 <= i < distinct_nonempty(parts).len() ==> (#[trigger] distinct_nonempty(
                parts,
            )[i]).len() > 0,
        forall|i: int|
            0 <= i < parts.len() && parts[i].len() > 0 ==> distinct_nonempty(parts).contains(
                #[trigger] parts[i],
            ),
        forall|p: Seq<char>| #[trigger]
            distinct_nonempty(parts).contains(p) ==> parts.contains(p),
    decreases parts.len(),
{
    if parts.len() > 0 {
        let front = parts.drop_last();
        let before = distinct_nonempty(front);
        lemma_merged_entries_are_distinct(front);
        let after = distinct_nonempty(parts);
        assert forall|i: int| 0 <= i < parts.len() && parts[i].len() > 0 implies after.contains(
            #[trigger] parts[i],
        ) by {
            if i < parts.len() - 1 {
                assert(front[i] == parts[i]);
                let k = choose|k: int| 0 <= k < before.len() && before[k] == parts[i];
                assert(after[k] == parts[i]);
            } else if before.contains(parts[i]) {
                assert(after == before);
            } else {
                assert(after[before.len() as int] == parts[i]);
            }
        }
        assert forall|p: Seq<char>| #[trigger] after.contains(p) implies parts.contains(p) by {
            let k = choose|k: int| 0 <= k < after.len() && after[k] == p;
            if k < before.len() {
                assert(before[k] == p);
                assert(before.contains(p));
                let j = choose|j: int| 0 <= j < front.len() && front[j] == p;
                assert(parts[j] == p);
            } else {
                assert(parts[parts.len() - 1] == p);
            }
        }
    }
}

} // verus!
