use openchamber_core::events::parse_envelope;
use openchamber_core::stream::{
    cycle_start, next_consumer_step, read_lines, run_once, ConsumerAction, ConsumerEvent,
    ConsumerState, CycleReport, CycleStart, CycleStep, FrameAssembler, StreamCycle,
    KEEPALIVE_SECS, RETRY_DELAY_MS, STREAM_TIMEOUT_SECS,
};

#[test]
fn a_frame_is_its_data_lines_joined() {
    let mut frames = FrameAssembler::new();
    assert_eq!(frames.push_line("data: {\"a\":\n"), None);
    assert_eq!(frames.push_line("data: 1}\r\n"), None);
    assert_eq!(frames.pending(), 2);
    assert_eq!(frames.push_line("\n"), Some("{\"a\":\n1}".to_string()));
    assert_eq!(frames.pending(), 0);
}

#[test]
fn blank_lines_without_data_give_no_frame() {
    let mut frames = FrameAssembler::new();
    assert_eq!(frames.push_line("\r\n"), None);
    assert_eq!(frames.push_line(""), None);
    assert_eq!(frames.push_line("event: ping\n"), None);
    assert_eq!(frames.push_line(": comment\n"), None);
    assert_eq!(frames.push_line("\n"), None);
}

#[test]
fn one_leading_space_of_a_data_line_is_stripped() {
    let mut frames = FrameAssembler::new();
    frames.push_line("data:x");
    frames.push_line("data:  y");
    frames.push_line("data:");
    assert_eq!(frames.push_line(""), Some("x\n y\n".to_string()));
}

#[test]
fn a_chunk_that_is_not_utf8_is_skipped() {
    let mut frames = FrameAssembler::new();
    assert_eq!(frames.push_bytes(b"data: one\n"), None);
    assert_eq!(frames.push_bytes(&[0x64, 0x61, 0x74, 0x61, 0x3a, 0xff, 0xfe, 0x0a]), None);
    assert_eq!(frames.pending(), 1);
    assert_eq!(frames.push_bytes(&[0xff, 0x0a]), None);
    assert_eq!(frames.pending(), 1);
    assert_eq!(frames.push_bytes("data: zw\u{00e9}i\n".as_bytes()), None);
    assert_eq!(frames.push_bytes(b"\n"), Some("one\nzw\u{00e9}i".to_string()));
}

#[test]
fn envelope_reads_type_and_properties() {
    let raw = "{\"type\":\"message.updated\",\"properties\":{\"info\":{\"id\":\"m1\",\"sessionID\":\"s1\",\"role\":\"assistant\",\"finish\":\"stop\",\"mode\":\"build\",\"modelID\":\"x-1\"}}}";
    let envelope = parse_envelope(raw).unwrap();
    assert_eq!(envelope.event_type, "message.updated");
    assert_eq!(envelope.role.as_deref(), Some("assistant"));
    assert_eq!(envelope.finish.as_deref(), Some("stop"));
    assert_eq!(envelope.message_id.as_deref(), Some("m1"));
    assert_eq!(envelope.message_session_id.as_deref(), Some("s1"));
    assert_eq!(envelope.mode.as_deref(), Some("build"));
    assert_eq!(envelope.model_id.as_deref(), Some("x-1"));
    assert_eq!(envelope.session_id, None);
    assert_eq!(envelope.status_type, None);
}

#[test]
fn a_frame_that_does_not_parse_has_no_envelope() {
    assert!(parse_envelope("{not json").is_none());
    assert!(parse_envelope("{\"properties\":{}}").is_none());
    assert!(parse_envelope("{\"type\":7}").is_none());
    assert!(parse_envelope("").is_none());
    let bare = parse_envelope("{\"type\":\"x\"}").unwrap();
    assert_eq!(bare.event_type, "x");
    assert_eq!(bare.role, None);
}

#[test]
fn a_cycle_without_port_is_skipped() {
    assert!(matches!(cycle_start(None, "", Some("/tmp")), CycleStart::PortUnknown));
}

#[test]
fn a_cycle_connects_to_the_event_endpoint() {
    match cycle_start(Some(4096), "/api", None) {
        CycleStart::Connect(url) => assert_eq!(url, "http://127.0.0.1:4096/api/event"),
        _ => panic!("expected a connection"),
    }
    match cycle_start(Some(8080), "", Some("/home/me/my project")) {
        CycleStart::Connect(url) => {
            assert_eq!(url, "http://127.0.0.1:8080/event?directory=%2Fhome%2Fme%2Fmy+project")
        }
        _ => panic!("expected a connection"),
    }
}

#[test]
fn stream_constants() {
    assert_eq!(RETRY_DELAY_MS, 2000);
    assert_eq!(STREAM_TIMEOUT_SECS, 24 * 60 * 60);
    assert_eq!(KEEPALIVE_SECS, 30);
}

#[test]
fn consumer_retries_after_two_seconds() {
    let wait = ConsumerAction::Wait(2000);
    assert_eq!(
        next_consumer_step(ConsumerState::Ready, ConsumerEvent::CycleBegins { port_known: false }),
        (ConsumerState::Waiting, wait)
    );
    assert_eq!(
        next_consumer_step(ConsumerState::Ready, ConsumerEvent::CycleBegins { port_known: true }),
        (ConsumerState::Connecting, ConsumerAction::Connect)
    );
    assert_eq!(
        next_consumer_step(ConsumerState::Connecting, ConsumerEvent::ConnectFailed),
        (ConsumerState::Waiting, wait)
    );
    assert_eq!(
        next_consumer_step(ConsumerState::Connecting, ConsumerEvent::Answered { status: 503 }),
        (ConsumerState::Waiting, wait)
    );
    assert_eq!(
        next_consumer_step(ConsumerState::Connecting, ConsumerEvent::Answered { status: 200 }),
        (ConsumerState::Streaming, ConsumerAction::Read)
    );
    assert_eq!(
        next_consumer_step(ConsumerState::Streaming, ConsumerEvent::StreamEnded),
        (ConsumerState::Waiting, wait)
    );
    assert_eq!(
        next_consumer_step(ConsumerState::Waiting, ConsumerEvent::DelayElapsed),
        (ConsumerState::Ready, ConsumerAction::Ignore)
    );
}

#[test]
fn shutdown_stops_the_consumer_from_any_state() {
    for state in [
        ConsumerState::Ready,
        ConsumerState::Connecting,
        ConsumerState::Streaming,
        ConsumerState::Waiting,
        ConsumerState::Stopped,
    ] {
        assert_eq!(
            next_consumer_step(state, ConsumerEvent::Shutdown),
            (ConsumerState::Stopped, ConsumerAction::Stop)
        );
    }
    assert_eq!(
        next_consumer_step(ConsumerState::Stopped, ConsumerEvent::DelayElapsed),
        (ConsumerState::Stopped, ConsumerAction::Stop)
    );
}

fn lines(texts: &[&str]) -> Vec<Vec<u8>> {
    texts.iter().map(|t| t.as_bytes().to_vec()).collect()
}

fn types_of(step: CycleStep) -> Vec<String> {
    match step {
        CycleStep::Handle(events) => events.into_iter().map(|e| e.event_type).collect(),
        _ => panic!("expected envelopes"),
    }
}

#[test]
fn a_run_of_lines_gives_its_envelopes_in_order() {
    let mut frames = FrameAssembler::new();
    let mut stream = lines(&[
        ": hello\n",
        "data: {\"type\":\"one\",\n",
        "data:  \"properties\":{}}\r\n",
        "\n",
        "data: {not json\n",
        "\n",
        "\n",
        "data: {\"type\":\"two\"}\n",
    ]);
    stream.push(vec![0x64, 0x61, 0x74, 0x61, 0x3a, 0xff, 0x0a]);
    stream.extend(lines(&["\n", "data: {\"type\":\"three\"}\n"]));
    let events = read_lines(&mut frames, &stream);
    let types: Vec<&str> = events.iter().map(|e| e.event_type.as_str()).collect();
    assert_eq!(types, vec!["one", "two"]);
    assert_eq!(frames.pending(), 1);
    let events = read_lines(&mut frames, &lines(&["\n"]));
    assert_eq!(events.len(), 1);
    assert_eq!(events[0].event_type, "three");
    assert_eq!(frames.pending(), 0);
}

#[test]
fn lines_taken_in_pieces_give_the_same_envelopes() {
    let stream = lines(&[
        "data: {\"type\":\"a\"}\n",
        "\n",
        "data: {\"type\":\n",
        "data: \"b\"}\n",
        "\n",
        "data: {\"type\":\"c\"}\n",
        "\n",
    ]);
    let mut whole = FrameAssembler::new();
    let all: Vec<String> = read_lines(&mut whole, &stream).into_iter().map(|e| e.event_type).collect();
    assert_eq!(all, vec!["a", "b", "c"]);
    for cut in 0..=stream.len() {
        let mut frames = FrameAssembler::new();
        let mut seen: Vec<String> = Vec::new();
        seen.extend(read_lines(&mut frames, &stream[..cut].to_vec()).into_iter().map(|e| e.event_type));
        seen.extend(read_lines(&mut frames, &stream[cut..].to_vec()).into_iter().map(|e| e.event_type));
        assert_eq!(seen, all, "cut at {cut}");
    }
}

#[test]
fn a_cycle_reads_frames_after_a_successful_answer() {
    let mut cycle = StreamCycle::new();
    let begins = CycleReport::Begins {
        port: Some(4096),
        prefix: "/api".to_string(),
        working_dir: Some("/w".to_string()),
    };
    match run_once(&mut cycle, &begins) {
        CycleStep::Start(CycleStart::Connect(url)) => {
            assert_eq!(url, "http://127.0.0.1:4096/api/event?directory=%2Fw")
        }
        _ => panic!("expected a connection"),
    }
    assert!(!cycle.is_reading());
    let early = lines(&["data: {\"type\":\"early\"}\n", "\n"]);
    assert!(types_of(run_once(&mut cycle, &CycleReport::Lines(early))).is_empty());
    assert!(matches!(run_once(&mut cycle, &CycleReport::Answered { status: 200 }), CycleStep::Read));
    assert!(cycle.is_reading());
    let first = lines(&["data: {\"type\":\"session.status\"}\n", "\n", "data: {\"type\":\n"]);
    assert_eq!(types_of(run_once(&mut cycle, &CycleReport::Lines(first))), vec!["session.status"]);
    let second = lines(&["data: \"message.updated\"}\n", "\n"]);
    assert_eq!(types_of(run_once(&mut cycle, &CycleReport::Lines(second))), vec!["message.updated"]);
    let partial = lines(&["data: {\"type\":\"lost\"}\n"]);
    assert!(types_of(run_once(&mut cycle, &CycleReport::Lines(partial))).is_empty());
    assert!(matches!(run_once(&mut cycle, &CycleReport::Ended), CycleStep::Retry));
    assert!(!cycle.is_reading());
    assert!(matches!(run_once(&mut cycle, &CycleReport::Answered { status: 200 }), CycleStep::Read));
    assert!(types_of(run_once(&mut cycle, &CycleReport::Lines(lines(&["\n"])))).is_empty());
}

#[test]
fn a_cycle_ends_on_an_answer_that_is_no_success() {
    let mut cycle = StreamCycle::new();
    let begins = CycleReport::Begins { port: None, prefix: String::new(), working_dir: None };
    assert!(matches!(run_once(&mut cycle, &begins), CycleStep::Start(CycleStart::PortUnknown)));
    for status in [199u16, 300, 404, 503] {
        assert!(matches!(run_once(&mut cycle, &CycleReport::Answered { status }), CycleStep::Retry));
        assert!(!cycle.is_reading());
    }
    assert!(matches!(run_once(&mut cycle, &CycleReport::Answered { status: 204 }), CycleStep::Read));
}
