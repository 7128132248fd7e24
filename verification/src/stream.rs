//! The consumer of the supervised server's event stream: how lines become
//! frames, where a cycle connects to, and when it retries or stops.
use vstd::prelude::*;
use vstd::string::*;
use crate::events::{json_text_at, option_text, parse_envelope, EventEnvelope};
use crate::supervisor::{base_url, base_url_seq};
use crate::text::{
    append_chars, chars_of, join_seq, slice_chars, starts_with, string_of, strings_view,
};

verus! {

/// How long a consumer waits before it connects again.
pub const RETRY_DELAY_MS: u64 = 2000;

/// The overall time limit of one stream connection: a day.
pub const STREAM_TIMEOUT_SECS: u64 = 86400;

/// The interval of the keep-alive probes on a stream connection.
pub const KEEPALIVE_SECS: u64 = 30;

/// The text that a sequence of bytes encodes in UTF-8; `None` where the
/// bytes are no well-formed UTF-8.
pub open spec fn utf8_text(bytes: Seq<u8>) -> Option<Seq<char>> {
    if vstd::utf8::valid_utf8(bytes) {
        Some(vstd::utf8::decode_utf8(bytes))
    } else {
        None
    }
}

/// Decodes a chunk of the stream.
///
/// Trusted: `std::str::from_utf8` accepts exactly the well-formed UTF-8
/// byte sequences and yields the text that they encode.
#[verifier::external_body]
pub(crate) fn decode_utf8(bytes: &[u8]) -> (r: Option<String>)
    ensures
        option_text(r) == utf8_text(bytes@),
{
    std::str::from_utf8(bytes).ok().map(|s| s.to_string())
}

/// The address `url` with the query pair `key=value` appended in
/// form-urlencoded writing; `None` where `url` is no address.
pub uninterp spec fn url_with_query_pair(url: Seq<char>, key: Seq<char>, value: Seq<char>)
    -> Option<Seq<char>>;

/// Appends a query pair to an address.
///
/// Trusted: `reqwest::Url::parse` reads the address,
/// `Url::query_pairs_mut` with `append_pair` adds the encoded pair to its
/// query, and the address is written out again. The result depends on the
/// three texts alone and is what `url_with_query_pair` names.
#[verifier::external_body]
pub(crate) fn append_query_pair(url: &str, key: &str, value: &str) -> (r: Option<String>)
    ensures
        option_text(r) == url_with_query_pair(url@, key@, value@),
{
    let mut parsed = reqwest::Url::parse(url).ok()?;
    parsed.query_pairs_mut().append_pair(key, value);
    Some(parsed.to_string())
}

/// `s` without the carriage returns and line feeds at its end.
pub open spec fn trim_line_end(s: Seq<char>) -> Seq<char>
    decreases s.len(),
{
    if s.len() > 0 && (s.last() == '\r' || s.last() == '\n') {
        trim_line_end(s.drop_last())
    } else {
        s
    }
}

/// The payload of a data line: what follows `data:`, without one leading
/// space; `None` for a line that does not begin with `data:`.
pub open spec fn data_payload(line: Seq<char>) -> Option<Seq<char>> {
    if "data:"@.is_prefix_of(line) {
        let rest = line.skip("data:"@.len() as int);
        if rest.len() > 0 && rest[0] == ' ' {
            Some(rest.drop_first())
        } else {
            Some(rest)
        }
    } else {
        None
    }
}

/// The data lines waiting for the end of their frame after one more line
/// of the stream.
pub open spec fn pending_after(pending: Seq<Seq<char>>, line: Seq<char>) -> Seq<Seq<char>> {
    let content = trim_line_end(line);
    if content.len() == 0 {
        Seq::empty()
    } else {
        match data_payload(content) {
            Some(payload) => pending.push(payload),
            None => pending,
        }
    }
}

/// The frame that a line of the stream completes: a blank line completes
/// the frame of the data lines before it, joined by line feeds, if there
/// are any.
pub open spec fn frame_after(pending: Seq<Seq<char>>, line: Seq<char>) -> Option<Seq<char>> {
    if trim_line_end(line).len() == 0 && pending.len() > 0 {
        Some(join_seq(pending, seq!['\n']))
    } else {
        None
    }
}

/// The reader of frames: it holds the data lines of the frame that is not
/// complete yet.
pub struct FrameAssembler {
    data_lines: Vec<String>,
}

impl View for FrameAssembler {
    type V = Seq<Seq<char>>;

    closed spec fn view(&self) -> Seq<Seq<char>> {
        strings_view(self.data_lines@)
    }
}

impl FrameAssembler {
    /// A reader at the start of a stream.
    pub fn new() -> (r: Self)
        ensures
            r@ == Seq::<Seq<char>>::empty(),
    {
        let r = FrameAssembler { data_lines: Vec::new() };
        assert(r@ =~= Seq::<Seq<char>>::empty());
        r
    }

    /// How many data lines wait for the end of their frame.
    pub fn pending(&self) -> (r: usize)
        ensures
            r == self@.len(),
    {
        self.data_lines.len()
    }

    /// The waiting data lines, joined by line feeds.
    fn joined(&self) -> (r: String)
        ensures
            r@ == join_seq(self@, seq!['\n']),
    {
        let mut out: Vec<char> = Vec::new();
        let mut i: usize = 0;
        let ghost all = strings_view(self.data_lines@);
        assert(all.take(0) =~= Seq::<Seq<char>>::empty());
        while i < self.data_lines.len()
            invariant
                i <= self.data_lines.len(),
                all == strings_view(self.data_lines@),
                out@ == join_seq(all.take(i as int), seq!['\n']),
            decreases self.data_lines.len() - i,
        {
            proof {
                let next = all.take(i + 1);
                assert(next.drop_last() =~= all.take(i as int));
                assert(next.last() == self.data_lines@[i as int]@);
                if i == 0 {
                    assert(out@ + next.last() =~= next.last());
                }
            }
            if i > 0 {
                out.push('\n');
                assert(out@ =~= join_seq(all.take(i as int), seq!['\n']) + seq!['\n']);
            }
            append_chars(&mut out, &chars_of(self.data_lines[i].as_str()));
            i += 1;
        }
        assert(all.take(self.data_lines.len() as int) =~= all);
        string_of(&out)
    }

    /// Takes in one line of the stream, with or without its line ending;
    /// hands out the frame that the line completes.
    pub fn push_line(&mut self, line: &str) -> (r: Option<String>)
        ensures
            final(self)@ == pending_after(old(self)@, line@),
            option_text(r) == frame_after(old(self)@, line@),
    {
        let chars = chars_of(line);
        let mut end: usize = chars.len();
        assert(chars@.subrange(0, end as int) =~= chars@);
        while end > 0 && (chars[end - 1] == '\r' || chars[end - 1] == '\n')
            invariant
                end <= chars.len(),
                trim_line_end(chars@) == trim_line_end(chars@.subrange(0, end as int)),
            decreases end,
        {
            assert(chars@.subrange(0, end as int).drop_last() =~= chars@.subrange(0, end - 1));
            end -= 1;
        }
        let content = slice_chars(&chars, 0, end);
        if content.len() == 0 {
            if self.data_lines.len() == 0 {
                assert(self@ =~= Seq::<Seq<char>>::empty());
                return None;
            }
            let raw = self.joined();
            self.data_lines = Vec::new();
            assert(self@ =~= Seq::<Seq<char>>::empty());
            return Some(raw);
        }
        let marker = chars_of("data:");
        if starts_with(&content, &marker) {
            let mut from: usize = marker.len();
            assert(content@.subrange(from as int, content.len() as int) =~= content@.skip(
                marker@.len() as int,
            ));
            if from < content.len() && content[from] == ' ' {
                from += 1;
                assert(content@.subrange(from as int, content.len() as int) =~= content@.skip(
                    marker@.len() as int,
                ).drop_first());
            }
            let payload = string_of(&slice_chars(&content, from, content.len()));
            let ghost before = self@;
            self.data_lines.push(payload);
            assert(self@ =~= before.push(payload@));
        }
        None
    }

    /// Takes in one line of the stream as bytes. A line that is no UTF-8
    /// is skipped.
    pub fn push_bytes(&mut self, line: &[u8]) -> (r: Option<String>)
        ensures
            utf8_text(line@) is None ==> final(self)@ == old(self)@ && r is None,
            utf8_text(line@) matches Some(text) ==> final(self)@ == pending_after(old(self)@, text)
                && option_text(r) == frame_after(old(self)@, text),
    {
        match decode_utf8(line) {
            Some(text) => self.push_line(text.as_str()),
            None => None,
        }
    }
}

/// Reads the envelope out of a complete frame; a frame that does not
/// parse is dropped.
pub fn frame_envelope(raw: &str) -> (r: Option<EventEnvelope>)
    ensures
        r is Some <==> json_text_at(raw@, "/type"@) is Some,
        r matches Some(e) ==> e.read_from(raw@),
{
    parse_envelope(raw)
}

/// The address of the event stream before the directory is added.
pub open spec fn event_endpoint(port: u16, prefix: Seq<char>) -> Seq<char> {
    base_url_seq(port, prefix) + "/event"@
}

/// How a cycle of a consumer begins.
pub enum CycleStart {
    /// The port of the process is not known: the cycle is skipped, and
    /// the consumer waits before the next one.
    PortUnknown,
    /// The address of the stream could not be formed.
    BadAddress,
    /// Connect to this address, asking for `text/event-stream` in identity
    /// encoding.
    Connect(String),
}

/// The view of the beginning of a cycle: `None` for an unknown port, else
/// the address to connect to, if one could be formed.
pub open spec fn cycle_start_view(start: CycleStart) -> Option<Option<Seq<char>>> {
    match start {
        CycleStart::PortUnknown => None,
        CycleStart::BadAddress => Some(None),
        CycleStart::Connect(url) => Some(Some(url@)),
    }
}

/// Decides how a cycle begins, given the address of the stream with the
/// directory added, where there is a directory.
pub fn begin_cycle(
    port: Option<u16>,
    prefix: &str,
    has_directory: bool,
    with_directory: Option<String>,
) -> (r: CycleStart)
    ensures
        cycle_start_view(r) == match port {
            None => None,
            Some(p) => if has_directory {
                Some(option_text(with_directory))
            } else {
                Some(Some(event_endpoint(p, prefix@)))
            },
        },
{
    match port {
        None => CycleStart::PortUnknown,
        Some(p) => {
            if has_directory {
                match with_directory {
                    Some(url) => CycleStart::Connect(url),
                    None => CycleStart::BadAddress,
                }
            } else {
                CycleStart::Connect(base_url(p, prefix).concat("/event"))
            }
        },
    }
}

/// Decides how a cycle of a consumer begins: with the port unknown the
/// cycle is skipped; otherwise the consumer connects to the event endpoint
/// of the process, with the working directory as the `directory` query
/// pair.
pub fn cycle_start(port: Option<u16>, prefix: &str, working_dir: Option<&str>) -> (r: CycleStart)
    ensures
        cycle_start_view(r) == start_of(
            port,
            prefix@,
            match working_dir {
                Some(dir) => Some(dir@),
                None => None,
            },
        ),
{
    match port {
        None => CycleStart::PortUnknown,
        Some(p) => match working_dir {
            Some(dir) => {
                let endpoint = base_url(p, prefix).concat("/event");
                let with_directory = append_query_pair(endpoint.as_str(), "directory", dir);
                begin_cycle(port, prefix, true, with_directory)
            },
            None => begin_cycle(port, prefix, false, None),
        },
    }
}

/// How a cycle begins: not at all with the port unknown; else at the
/// event endpoint, with the working directory as the `directory` query
/// pair where there is one.
pub open spec fn start_of(port: Option<u16>, prefix: Seq<char>, working_dir: Option<Seq<char>>)
    -> Option<Option<Seq<char>>> {
    match port {
        None => None,
        Some(p) => match working_dir {
            Some(dir) => Some(url_with_query_pair(event_endpoint(p, prefix), "directory"@, dir)),
            None => Some(Some(event_endpoint(p, prefix))),
        },
    }
}

/// What the lines of a stream hold as text, line by line; `None` for a
/// line that is no UTF-8.
pub open spec fn line_texts(lines: Seq<Vec<u8>>) -> Seq<Option<Seq<char>>> {
    Seq::new(lines.len(), |i: int| utf8_text(lines[i]@))
}

/// The data lines that wait after one more line of the stream; a line
/// that is no text is skipped.
pub open spec fn pending_after_text(pending: Seq<Seq<char>>, text: Option<Seq<char>>) -> Seq<
    Seq<char>,
> {
    match text {
        Some(t) => pending_after(pending, t),
        None => pending,
    }
}

/// The frame that one more line of the stream completes.
pub open spec fn frame_after_text(pending: Seq<Seq<char>>, text: Option<Seq<char>>) -> Option<
    Seq<char>,
> {
    match text {
        Some(t) => frame_after(pending, t),
        None => None,
    }
}

/// The data lines that wait after a sequence of lines.
pub open spec fn pending_after_lines(pending: Seq<Seq<char>>, texts: Seq<Option<Seq<char>>>)
    -> Seq<Seq<char>>
    decreases texts.len(),
{
    if texts.len() == 0 {
        pending
    } else {
        pending_after_text(pending_after_lines(pending, texts.drop_last()), texts.last())
    }
}

/// The frames that a sequence of lines completes, in the order of the
/// stream.
pub open spec fn frames_after_lines(pending: Seq<Seq<char>>, texts: Seq<Option<Seq<char>>>)
    -> Seq<Seq<char>>
    decreases texts.len(),
{
    if texts.len() == 0 {
        Seq::empty()
    } else {
        let before = frames_after_lines(pending, texts.drop_last());
        match frame_after_text(pending_after_lines(pending, texts.drop_last()), texts.last()) {
            Some(frame) => before.push(frame),
            None => before,
        }
    }
}

/// The predicate "this frame parses": it is a JSON document whose `type`
/// is a string.
pub open spec fn parses() -> spec_fn(Seq<char>) -> bool {
    |frame: Seq<char>| json_text_at(frame, "/type"@) is Some
}

/// Whether the envelopes are those of the frames, one for one and in
/// order.
pub open spec fn envelopes_are(envelopes: Seq<EventEnvelope>, frames: Seq<Seq<char>>) -> bool {
    envelopes.len() == frames.len() && forall|k: int|
        0 <= k < envelopes.len() ==> (#[trigger] envelopes[k]).read_from(frames[k])
}

/// Takes in a run of lines of the stream and hands out, in the order of
/// the stream, the envelope of every frame that they complete and that
/// parses. A frame that does not parse is dropped, a line that is no UTF-8
/// is skipped, and the frames after either are still handed out.
pub fn read_lines(frames: &mut FrameAssembler, lines: &Vec<Vec<u8>>) -> (r: Vec<EventEnvelope>)
    ensures
        final(frames)@ == pending_after_lines(old(frames)@, line_texts(lines@)),
        envelopes_are(
            r@,
            frames_after_lines(old(frames)@, line_texts(lines@)).filter(parses()),
        ),
{
    let mut envelopes: Vec<EventEnvelope> = Vec::new();
    let ghost start = frames@;
    let ghost texts = line_texts(lines@);
    let mut i: usize = 0;
    proof {
        reveal(Seq::filter);
        assert(texts.take(0) =~= Seq::<Option<Seq<char>>>::empty());
        assert(frames_after_lines(start, texts.take(0)).filter(parses()) =~= Seq::<
            Seq<char>,
        >::empty());
    }
    while i < lines.len()
        invariant
            i <= lines.len(),
            texts == line_texts(lines@),
            frames@ == pending_after_lines(start, texts.take(i as int)),
            envelopes_are(
                envelopes@,
                frames_after_lines(start, texts.take(i as int)).filter(parses()),
            ),
        decreases lines.len() - i,
    {
        let ghost done = frames_after_lines(start, texts.take(i as int));
        proof {
            assert(texts.take(i + 1).drop_last() =~= texts.take(i as int));
            assert(texts.take(i + 1).last() == utf8_text(lines@[i as int]@));
        }
        let completed = frames.push_bytes(lines[i].as_slice());
        if let Some(raw) = completed {
            proof {
                done.lemma_filter_push(raw@, parses());
            }
            if let Some(envelope) = frame_envelope(raw.as_str()) {
                let ghost before = envelopes@;
                envelopes.push(envelope);
                assert(envelopes@ =~= before.push(envelope));
            }
        }
        i += 1;
    }
    assert(texts.take(lines.len() as int) =~= texts);
    envelopes
}

/// Lines may be taken in piece by piece: the frames of two runs of lines,
/// the second taken in with what the first left waiting, are the frames of
/// the two runs taken in as one.
pub proof fn lemma_lines_in_pieces(
    pending: Seq<Seq<char>>,
    first: Seq<Option<Seq<char>>>,
    second: Seq<Option<Seq<char>>>,
)
    ensures
        pending_after_lines(pending, first + second) == pending_after_lines(
            pending_after_lines(pending, first),
            second,
        ),
        frames_after_lines(pending, first + second) == frames_after_lines(pending, first)
            + frames_after_lines(pending_after_lines(pending, first), second),
    decreases second.len(),
{
    if second.len() == 0 {
        assert(first + second =~= first);
        assert(frames_after_lines(pending, first) + Seq::<Seq<char>>::empty()
            =~= frames_after_lines(pending, first));
    } else {
        lemma_lines_in_pieces(pending, first, second.drop_last());
        assert((first + second).drop_last() =~= first + second.drop_last());
        assert((first + second).last() == second.last());
        let left = frames_after_lines(pending, first);
        let right = frames_after_lines(pending_after_lines(pending, first), second.drop_last());
        let waiting = pending_after_lines(pending, first + second.drop_last());
        match frame_after_text(waiting, second.last()) {
            Some(frame) => {
                assert((left + right).push(frame) =~= left + right.push(frame));
            },
            None => {},
        }
    }
}

/// One cycle of a consumer: the reader of its frames, and whether the
/// stream is being read.
pub struct StreamCycle {
    frames: FrameAssembler,
    reading: bool,
}

/// A cycle in mathematical form.
pub struct CycleView {
    pub pending: Seq<Seq<char>>,
    pub reading: bool,
}

impl View for StreamCycle {
    type V = CycleView;

    closed spec fn view(&self) -> CycleView {
        CycleView { pending: self.frames@, reading: self.reading }
    }
}

/// What the driver reports to a cycle.
pub enum CycleReport {
    /// A cycle begins, with what the supervisor knows at this moment.
    Begins { port: Option<u16>, prefix: String, working_dir: Option<String> },
    /// The process answered the connection with this status.
    Answered { status: u16 },
    /// These lines were read from the stream, in this order.
    Lines(Vec<Vec<u8>>),
    /// The stream ended or broke off.
    Ended,
}

/// What a cycle asks of the driver.
pub enum CycleStep {
    /// Begin as `CycleStart` says.
    Start(CycleStart),
    /// Read the stream and report its lines.
    Read,
    /// Hand these envelopes to the consumer, each once and in this order,
    /// and read on.
    Handle(Vec<EventEnvelope>),
    /// The cycle is over: wait, then begin the next one.
    Retry,
}

/// The cycle after a report. A beginning and an end leave no line
/// waiting; only an answer that is a success opens the reading; lines are
/// taken in while the stream is read, and ignored otherwise.
pub open spec fn cycle_after(cycle: CycleView, report: CycleReport) -> CycleView {
    match report {
        CycleReport::Begins { .. } => CycleView { pending: Seq::empty(), reading: false },
        CycleReport::Answered { status } => CycleView {
            reading: 200 <= status <= 299,
            ..cycle
        },
        CycleReport::Lines(lines) => if cycle.reading {
            CycleView { pending: pending_after_lines(cycle.pending, line_texts(lines@)), ..cycle }
        } else {
            cycle
        },
        CycleReport::Ended => CycleView { pending: Seq::empty(), reading: false },
    }
}

/// The frames whose envelopes a report of lines hands to the consumer:
/// those that the lines complete and that parse, while the stream is read.
pub open spec fn handled_frames(cycle: CycleView, lines: Seq<Vec<u8>>) -> Seq<Seq<char>> {
    if cycle.reading {
        frames_after_lines(cycle.pending, line_texts(lines)).filter(parses())
    } else {
        Seq::empty()
    }
}

/// Whether a step is what a cycle asks for after a report.
pub open spec fn step_is(step: CycleStep, cycle: CycleView, report: CycleReport) -> bool {
    match report {
        CycleReport::Begins { port, prefix, working_dir } => step matches CycleStep::Start(
            start,
        ) && cycle_start_view(start) == start_of(port, prefix@, option_text(working_dir)),
        CycleReport::Answered { status } => if 200 <= status <= 299 {
            step is Read
        } else {
            step is Retry
        },
        CycleReport::Lines(lines) => step matches CycleStep::Handle(envelopes) && envelopes_are(
            envelopes@,
            handled_frames(cycle, lines@),
        ),
        CycleReport::Ended => step is Retry,
    }
}

impl StreamCycle {
    /// A cycle that has not begun.
    pub fn new() -> (r: Self)
        ensures
            r@ == (CycleView { pending: Seq::empty(), reading: false }),
    {
        StreamCycle { frames: FrameAssembler::new(), reading: false }
    }

    /// Whether the stream is being read.
    pub fn is_reading(&self) -> (r: bool)
        ensures
            r == self@.reading,
    {
        self.reading
    }
}

/// Runs one cycle of a consumer, report by report. The cycle begins at
/// the event endpoint of the process, or is skipped while the port is
/// unknown. An answer that is a success opens the reading; any other ends the
/// cycle. While the stream is read, every frame that the reported lines
/// complete is parsed, and the envelopes of those that parse are handed to
/// the consumer in the order of the stream; a frame that does not parse and
/// a line that is no UTF-8 are passed over. The end of the stream ends the
/// cycle.
pub fn run_once(cycle: &mut StreamCycle, report: &CycleReport) -> (r: CycleStep)
    ensures
        final(cycle)@ == cycle_after(old(cycle)@, *report),
        step_is(r, old(cycle)@, *report),
{
    match report {
        CycleReport::Begins { port, prefix, working_dir } => {
            cycle.frames = FrameAssembler::new();
            cycle.reading = false;
            let dir: Option<&str> = match working_dir {
                Some(d) => Some(d.as_str()),
                None => None,
            };
            CycleStep::Start(cycle_start(*port, prefix.as_str(), dir))
        },
        CycleReport::Answered { status } => {
            if 200 <= *status && *status <= 299 {
                cycle.reading = true;
                CycleStep::Read
            } else {
                cycle.reading = false;
                CycleStep::Retry
            }
        },
        CycleReport::Lines(lines) => {
            if cycle.reading {
                CycleStep::Handle(read_lines(&mut cycle.frames, lines))
            } else {
                CycleStep::Handle(Vec::new())
            }
        },
        CycleReport::Ended => {
            cycle.frames = FrameAssembler::new();
            cycle.reading = false;
            CycleStep::Retry
        },
    }
}

/// Where a consumer stands.
#[derive(Clone, Copy, Debug, PartialEq, Eq, Structural)]
pub enum ConsumerState {
    /// About to begin a cycle.
    Ready,
    /// Connecting to the stream.
    Connecting,
    /// Reading the stream.
    Streaming,
    /// Waiting before the next cycle.
    Waiting,
    /// Stopped for good.
    Stopped,
}

/// What the driver reports to a consumer.
#[derive(Clone, Copy, Debug, PartialEq, Eq, Structural)]
pub enum ConsumerEvent {
    /// The shutdown signal was observed.
    Shutdown,
    /// A cycle begins with the port known or unknown.
    CycleBegins { port_known: bool },
    /// The connection failed.
    ConnectFailed,
    /// The process answered with this status.
    Answered { status: u16 },
    /// The stream ended or broke off.
    StreamEnded,
    /// The wait is over.
    DelayElapsed,
}

/// What a consumer asks of its driver.
#[derive(Clone, Copy, Debug, PartialEq, Eq, Structural)]
pub enum ConsumerAction {
    /// End the consumer.
    Stop,
    /// Connect to the stream.
    Connect,
    /// Read the stream frame by frame.
    Read,
    /// Wait for so many milliseconds, unless the shutdown signal comes
    /// first.
    Wait(u64),
    /// The report does not belong to this state and is ignored.
    Ignore,
}

/// One step of a consumer. A shutdown stops it from any state, at once. A
/// cycle with an unknown port, a failed connection, an answer that is no
/// success and the end of the stream all lead to a wait and then to the
/// next cycle.
pub open spec fn consumer_step(state: ConsumerState, event: ConsumerEvent) -> (
    ConsumerState,
    ConsumerAction,
) {
    if state == ConsumerState::Stopped || event == ConsumerEvent::Shutdown {
        (ConsumerState::Stopped, ConsumerAction::Stop)
    } else {
        match (state, event) {
            (ConsumerState::Ready, ConsumerEvent::CycleBegins { port_known }) => if port_known {
                (ConsumerState::Connecting, ConsumerAction::Connect)
            } else {
                (ConsumerState::Waiting, ConsumerAction::Wait(RETRY_DELAY_MS))
            },
            (ConsumerState::Connecting, ConsumerEvent::ConnectFailed) => (
                ConsumerState::Waiting,
                ConsumerAction::Wait(RETRY_DELAY_MS),
            ),
            (ConsumerState::Connecting, ConsumerEvent::Answered { status }) => if 200 <= status
                <= 299 {
                (ConsumerState::Streaming, ConsumerAction::Read)
            } else {
                (ConsumerState::Waiting, ConsumerAction::Wait(RETRY_DELAY_MS))
            },
            (ConsumerState::Streaming, ConsumerEvent::StreamEnded) => (
                ConsumerState::Waiting,
                ConsumerAction::Wait(RETRY_DELAY_MS),
            ),
            (ConsumerState::Waiting, ConsumerEvent::DelayElapsed) => (
                ConsumerState::Ready,
                ConsumerAction::Ignore,
            ),
            _ => (state, ConsumerAction::Ignore),
        }
    }
}

/// Decides one step of a consumer.
pub fn next_consumer_step(state: ConsumerState, event: ConsumerEvent) -> (r: (
    ConsumerState,
    ConsumerAction,
))
    ensures
        r == consumer_step(state, event),
{
    match state {
        ConsumerState::Stopped => (ConsumerState::Stopped, ConsumerAction::Stop),
        _ => match event {
            ConsumerEvent::Shutdown => (ConsumerState::Stopped, ConsumerAction::Stop),
            ConsumerEvent::CycleBegins { port_known } => match state {
                ConsumerState::Ready => if port_known {
                    (ConsumerState::Connecting, ConsumerAction::Connect)
                } else {
                    (ConsumerState::Waiting, ConsumerAction::Wait(RETRY_DELAY_MS))
                },
                _ => (state, ConsumerAction::Ignore),
            },
            ConsumerEvent::ConnectFailed => match state {
                ConsumerState::Connecting => (
                    ConsumerState::Waiting,
                    ConsumerAction::Wait(RETRY_DELAY_MS),
                ),
                _ => (state, ConsumerAction::Ignore),
            },
            ConsumerEvent::Answered { status } => match state {
                ConsumerState::Connecting => if 200 <= status && status <= 299 {
                    (ConsumerState::Streaming, ConsumerAction::Read)
                } else {
                    (ConsumerState::Waiting, ConsumerAction::Wait(RETRY_DELAY_MS))
                },
                _ => (state, ConsumerAction::Ignore),
            },
            ConsumerEvent::StreamEnded => match state {
                ConsumerState::Streaming => (
                    ConsumerState::Waiting,
                    ConsumerAction::Wait(RETRY_DELAY_MS),
                ),
                _ => (state, ConsumerAction::Ignore),
            },
            ConsumerEvent::DelayElapsed => match state {
                ConsumerState::Waiting => (ConsumerState::Ready, ConsumerAction::Ignore),
                _ => (state, ConsumerAction::Ignore),
            },
        },
    }
}

/// A shutdown stops a consumer at once, whatever it was doing, and a
/// stopped consumer never does anything again.
pub proof fn lemma_shutdown_stops_at_once(state: ConsumerState, event: ConsumerEvent)
    ensures
        consumer_step(state, ConsumerEvent::Shutdown) == (
            ConsumerState::Stopped,
            ConsumerAction::Stop,
        ),
        consumer_step(ConsumerState::Stopped, event) == (
            ConsumerState::Stopped,
            ConsumerAction::Stop,
        ),
{
}

} // verus!
