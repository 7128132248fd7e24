//! Titles and bodies of the desktop notification for a finished assistant
//! turn, and the record of messages already announced.
use vstd::prelude::*;
use vstd::string::*;
use crate::events::{option_text, EventEnvelope};
use crate::text::{
    all_digits, append_chars, ascii_upper, capitalize_chars, capitalize_seq, chars_of, is_all_digits,
    join_chars, join_seq, option_is, pieces_view, split_chars, split_seq, str_eq, string_of,
};

verus! {

/// The predicate "this token is not empty".
pub open spec fn nonempty() -> spec_fn(Seq<char>) -> bool {
    |t: Seq<char>| t.len() > 0
}

/// The function that capitalizes a token.
pub open spec fn capitalized() -> spec_fn(Seq<char>) -> Seq<char> {
    |t: Seq<char>| capitalize_seq(t)
}

/// The display form of a mode name: its non-empty tokens between `-`, `_`
/// and space, each capitalized, joined by single spaces; `Agent` for the
/// empty name.
pub open spec fn format_mode_seq(raw: Seq<char>) -> Seq<char> {
    if raw.len() == 0 {
        "Agent"@
    } else {
        join_seq(
            split_seq(raw, seq!['-', '_', ' ']).filter(nonempty()).map_values(capitalized()),
            seq![' '],
        )
    }
}

/// Upper-cases the first character of `s`.
pub fn capitalize(s: &str) -> (r: String)
    ensures
        r@ == capitalize_seq(s@),
        s@.len() > 0 && (s@[0] as u32) < 128 ==> r@ == seq![ascii_upper(s@[0])]
            + s@.drop_first(),
{
    let chars = chars_of(s);
    let out = capitalize_chars(&chars);
    string_of(&out)
}

/// Capitalizes every token, leaving out the empty ones where `skip_empty`
/// is set.
fn capitalize_tokens(tokens: &Vec<Vec<char>>, skip_empty: bool) -> (r: Vec<Vec<char>>)
    ensures
        skip_empty ==> pieces_view(r@) == pieces_view(tokens@).filter(nonempty()).map_values(
            capitalized(),
        ),
        !skip_empty ==> pieces_view(r@) == pieces_view(tokens@).map_values(capitalized()),
{
    let mut out: Vec<Vec<char>> = Vec::new();
    let mut i: usize = 0;
    let ghost all = pieces_view(tokens@);
    proof {
        reveal(Seq::filter);
        assert(all.take(0) =~= Seq::<Seq<char>>::empty());
        assert(pieces_view(out@) =~= all.take(0).filter(nonempty()).map_values(capitalized()));
        assert(pieces_view(out@) =~= all.take(0).map_values(capitalized()));
    }
    while i < tokens.len()
        invariant
            i <= tokens.len(),
            all == pieces_view(tokens@),
            skip_empty ==> pieces_view(out@) == all.take(i as int).filter(nonempty()).map_values(
                capitalized(),
            ),
            !skip_empty ==> pieces_view(out@) == all.take(i as int).map_values(capitalized()),
        decreases tokens.len() - i,
    {
        let token = &tokens[i];
        proof {
            assert(all.take(i + 1) =~= all.take(i as int).push(token@));
            all.take(i as int).lemma_filter_push(token@, nonempty());
        }
        if !(skip_empty && token.len() == 0) {
            let ghost before = pieces_view(out@);
            let word = capitalize_chars(token);
            out.push(word);
            proof {
                assert(pieces_view(out@) =~= before.push(capitalize_seq(token@)));
                if skip_empty {
                    assert(pieces_view(out@) =~= all.take(i + 1).filter(nonempty()).map_values(
                        capitalized(),
                    ));
                } else {
                    assert(pieces_view(out@) =~= all.take(i + 1).map_values(capitalized()));
                }
            }
        }
        i += 1;
    }
    assert(all.take(tokens.len() as int) =~= all);
    out
}

/// Formats a mode name for display.
pub fn format_mode(raw: &str) -> (r: String)
    ensures
        r@ == format_mode_seq(raw@),
{
    let chars = chars_of(raw);
    if chars.len() == 0 {
        return "Agent".to_owned();
    }
    let mut seps: Vec<char> = Vec::new();
    seps.push('-');
    seps.push('_');
    seps.push(' ');
    assert(seps@ =~= seq!['-', '_', ' ']);
    let tokens = split_chars(&chars, &seps);
    let words = capitalize_tokens(&tokens, true);
    let mut space: Vec<char> = Vec::new();
    space.push(' ');
    assert(space@ =~= seq![' ']);
    let joined = join_chars(&words, &space);
    string_of(&joined)
}

/// Tokens with each pair of neighbouring all-digit tokens merged into one
/// `a.b` token, scanning from the left; a merged pair is not looked at again.
pub open spec fn merge_versions(tokens: Seq<Seq<char>>) -> Seq<Seq<char>>
    decreases tokens.len(),
{
    if tokens.len() == 0 {
        tokens
    } else if tokens.len() >= 2 && all_digits(tokens[0]) && all_digits(tokens[1]) {
        seq![tokens[0] + seq!['.'] + tokens[1]] + merge_versions(tokens.skip(2))
    } else {
        seq![tokens[0]] + merge_versions(tokens.skip(1))
    }
}

/// The display form of a model identifier: its tokens between `-` and `_`,
/// version pairs merged, each capitalized, joined by single spaces;
/// `Assistant` for the empty identifier.
pub open spec fn format_model_id_seq(raw: Seq<char>) -> Seq<char> {
    if raw.len() == 0 {
        "Assistant"@
    } else {
        join_seq(
            merge_versions(split_seq(raw, seq!['-', '_'])).map_values(capitalized()),
            seq![' '],
        )
    }
}

/// Merges neighbouring all-digit tokens into version tokens.
fn merge_version_tokens(tokens: &Vec<Vec<char>>) -> (r: Vec<Vec<char>>)
    ensures
        pieces_view(r@) == merge_versions(pieces_view(tokens@)),
{
    let mut out: Vec<Vec<char>> = Vec::new();
    let mut i: usize = 0;
    let ghost all = pieces_view(tokens@);
    assert(all.skip(0) =~= all);
    assert(pieces_view(out@) + merge_versions(all.skip(0)) =~= merge_versions(all));
    while i < tokens.len()
        invariant
            i <= tokens.len(),
            all == pieces_view(tokens@),
            pieces_view(out@) + merge_versions(all.skip(i as int)) == merge_versions(all),
        decreases tokens.len() - i,
    {
        let ghost before = pieces_view(out@);
        let ghost rest = all.skip(i as int);
        proof {
            assert(rest[0] == tokens@[i as int]@);
            assert(rest.len() == tokens.len() - i);
        }
        let current = &tokens[i];
        if is_all_digits(current) && i + 1 < tokens.len() && is_all_digits(&tokens[i + 1]) {
            let mut combined: Vec<char> = Vec::new();
            append_chars(&mut combined, current);
            combined.push('.');
            append_chars(&mut combined, &tokens[i + 1]);
            proof {
                assert(rest[1] == tokens@[i + 1]@);
                assert(combined@ =~= rest[0] + seq!['.'] + rest[1]);
                assert(rest.skip(2) =~= all.skip(i + 2));
            }
            out.push(combined);
            proof {
                assert(pieces_view(out@) =~= before + seq![rest[0] + seq!['.'] + rest[1]]);
                assert(pieces_view(out@) + merge_versions(all.skip(i + 2)) =~= before
                    + merge_versions(rest));
            }
            i += 2;
        } else {
            let mut single: Vec<char> = Vec::new();
            append_chars(&mut single, current);
            proof {
                assert(single@ =~= rest[0]);
                assert(rest.skip(1) =~= all.skip(i + 1));
                if rest.len() >= 2 {
                    assert(rest[1] == tokens@[i + 1]@);
                }
            }
            out.push(single);
            proof {
                assert(pieces_view(out@) =~= before + seq![rest[0]]);
                assert(pieces_view(out@) + merge_versions(all.skip(i + 1)) =~= before
                    + merge_versions(rest));
            }
            i += 1;
        }
    }
    assert(pieces_view(out@) + merge_versions(all.skip(tokens.len() as int)) =~= pieces_view(
        out@,
    ));
    out
}

/// Formats a model identifier for display.
pub fn format_model_id(raw: &str) -> (r: String)
    ensures
        r@ == format_model_id_seq(raw@),
{
    let chars = chars_of(raw);
    if chars.len() == 0 {
        return "Assistant".to_owned();
    }
    let mut seps: Vec<char> = Vec::new();
    seps.push('-');
    seps.push('_');
    assert(seps@ =~= seq!['-', '_']);
    let tokens = split_chars(&chars, &seps);
    let merged = merge_version_tokens(&tokens);
    let words = capitalize_tokens(&merged, false);
    let mut space: Vec<char> = Vec::new();
    space.push(' ');
    assert(space@ =~= seq![' ']);
    let joined = join_chars(&words, &space);
    string_of(&joined)
}


/// The identifiers of the messages already announced during one run of the
/// notification consumer. It only grows.
pub struct NotifiedMessages {
    ids: Vec<String>,
}

impl View for NotifiedMessages {
    type V = Set<Seq<char>>;

    closed spec fn view(&self) -> Set<Seq<char>> {
        Set::new(|k: Seq<char>| exists|i: int| 0 <= i < self.ids@.len() && self.ids@[i]@ == k)
    }
}

impl NotifiedMessages {
    /// An empty record.
    pub fn new() -> (r: Self)
        ensures
            r@ == Set::<Seq<char>>::empty(),
    {
        let r = NotifiedMessages { ids: Vec::new() };
        assert(r@ =~= Set::<Seq<char>>::empty());
        r
    }

    /// Whether the message `id` was announced before.
    pub fn contains(&self, id: &str) -> (r: bool)
        ensures
            r == self@.contains(id@),
    {
        let mut i: usize = 0;
        while i < self.ids.len()
            invariant
                i <= self.ids.len(),
                forall|k: int| 0 <= k < i ==> self.ids@[k]@ != id@,
            decreases self.ids.len() - i,
        {
            if str_eq(self.ids[i].as_str(), id) {
                return true;
            }
            i += 1;
        }
        false
    }

    /// Records the message `id`; says whether it was new.
    pub fn insert(&mut self, id: &str) -> (fresh: bool)
        ensures
            final(self)@ == old(self)@.insert(id@),
            fresh == !old(self)@.contains(id@),
    {
        if self.contains(id) {
            assert(self@ =~= old(self)@.insert(id@));
            return false;
        }
        let ghost before = self.ids@;
        self.ids.push(id.to_owned());
        proof {
            assert forall|k: Seq<char>| self@.contains(k) <==> old(self)@.insert(id@).contains(
                k,
            ) by {
                if self@.contains(k) {
                    let i = choose|i: int| 0 <= i < self.ids@.len() && self.ids@[i]@ == k;
                    if i < before.len() {
                        assert(before[i]@ == k);
                    }
                }
                if old(self)@.contains(k) {
                    let i = choose|i: int| 0 <= i < before.len() && before[i]@ == k;
                    assert(self.ids@[i]@ == k);
                }
                if k == id@ {
                    assert(self.ids@[before.len() as int]@ == k);
                }
            }
            assert(self@ =~= old(self)@.insert(id@));
        }
        true
    }
}

/// A desktop notification to hand to the notification sink.
pub struct Notification {
    pub title: String,
    pub body: String,
    pub sound: String,
}

/// The given text, or `fallback` where it is absent or empty.
pub open spec fn text_or(value: Option<String>, fallback: Seq<char>) -> Seq<char> {
    match value {
        Some(s) => if s@.len() == 0 {
            fallback
        } else {
            s@
        },
        None => fallback,
    }
}

/// The identifier that the event announces, if it reports a finished
/// assistant turn of an identified message.
pub open spec fn completed_message(event: EventEnvelope) -> Option<Seq<char>> {
    if event.is_assistant_stop() {
        option_text(event.message_id)
    } else {
        None
    }
}

/// Whether the event leads to a notification, given the messages announced
/// so far.
pub open spec fn announces(notified: Set<Seq<char>>, event: EventEnvelope) -> bool {
    completed_message(event) matches Some(id) && !notified.contains(id)
}

/// The messages announced once the event has been handled.
pub open spec fn notified_after(notified: Set<Seq<char>>, event: EventEnvelope) -> Set<
    Seq<char>,
> {
    match completed_message(event) {
        Some(id) => notified.insert(id),
        None => notified,
    }
}

/// The title of the notification for an event.
pub open spec fn title_of(event: EventEnvelope) -> Seq<char> {
    format_mode_seq(text_or(event.mode, "agent"@)) + " agent is ready"@
}

/// The body of the notification for an event.
pub open spec fn body_of(event: EventEnvelope) -> Seq<char> {
    format_model_id_seq(text_or(event.model_id, "assistant"@)) + " completed the task"@
}

/// The given text, or `fallback` where it is absent or empty.
fn text_or_default<'a>(value: &'a Option<String>, fallback: &'a str) -> (r: &'a str)
    ensures
        r@ == text_or(*value, fallback@),
{
    match value {
        Some(s) => if s.as_str().unicode_len() == 0 {
            fallback
        } else {
            s.as_str()
        },
        None => fallback,
    }
}

/// Handles one event of the stream: a finished assistant turn of a message
/// not announced before is recorded and yields its notification; any other
/// event yields nothing.
pub fn handle_event(notified: &mut NotifiedMessages, event: &EventEnvelope) -> (r: Option<
    Notification,
>)
    ensures
        final(notified)@ == notified_after(old(notified)@, *event),
        r is Some <==> announces(old(notified)@, *event),
        r matches Some(n) ==> n.title@ == title_of(*event) && n.body@ == body_of(*event)
            && n.sound@ == "Glass"@,
{
    if !str_eq(event.event_type.as_str(), "message.updated") {
        return None;
    }
    if !option_is(&event.role, "assistant") {
        return None;
    }
    if !option_is(&event.finish, "stop") {
        return None;
    }
    let fresh = match &event.message_id {
        Some(id) => notified.insert(id.as_str()),
        None => false,
    };
    if !fresh {
        return None;
    }
    let title = format_mode(text_or_default(&event.mode, "agent")).concat(" agent is ready");
    let body = format_model_id(text_or_default(&event.model_id, "assistant")).concat(
        " completed the task",
    );
    Some(Notification { title, body, sound: "Glass".to_owned() })
}

/// Whether a notification is shown: only while the main window is not in
/// the foreground, that is not focused, or minimized. A window whose state
/// cannot be read counts as neither focused nor minimized; with no main
/// window at all the notification is shown.
pub fn should_notify(window_present: bool, focused: Option<bool>, minimized: Option<bool>) -> (r:
    bool)
    ensures
        r == (!window_present || focused != Some(true) || minimized == Some(true)),
{
    if !window_present {
        return true;
    }
    let is_focused = match focused {
        Some(b) => b,
        None => false,
    };
    let is_minimized = match minimized {
        Some(b) => b,
        None => false,
    };
    !is_focused || is_minimized
}

/// The messages announced after a whole sequence of events.
pub open spec fn notified_after_all(start: Set<Seq<char>>, events: Seq<EventEnvelope>) -> Set<
    Seq<char>,
>
    decreases events.len(),
{
    if events.len() == 0 {
        start
    } else {
        notified_after(notified_after_all(start, events.drop_last()), events.last())
    }
}

/// The identifiers for which a sequence of events raises a notification,
/// one entry per notification, in order.
pub open spec fn announced(start: Set<Seq<char>>, events: Seq<EventEnvelope>) -> Seq<Seq<char>>
    decreases events.len(),
{
    if events.len() == 0 {
        Seq::empty()
    } else {
        let before = announced(start, events.drop_last());
        let seen = notified_after_all(start, events.drop_last());
        if announces(seen, events.last()) {
            before.push(completed_message(events.last())->0)
        } else {
            before
        }
    }
}

/// Whatever events arrive and however often an update is repeated, no
/// message identifier is announced twice, and none that was already
/// recorded at the start is announced at all.
pub proof fn lemma_one_notification_per_message(
    start: Set<Seq<char>>,
    events: Seq<EventEnvelope>,
)
    ensures
        announced(start, events).no_duplicates(),
        forall|i: int|
            0 <= i < announced(start, events).len() ==> {
                &&& !start.contains(#[trigger] announced(start, events)[i])
                &&& notified_after_all(start, events).contains(announced(start, events)[i])
            },
        start.subset_of(notified_after_all(start, events)),
    decreases events.len(),
{
    if events.len() > 0 {
        lemma_one_notification_per_message(start, events.drop_last());
    }
}

} // verus!
