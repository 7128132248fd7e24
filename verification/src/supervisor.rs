//! The supervisor of the server process: what it knows of the process, how
//! it reads the process's output for the port, and the decisions of start,
//! restart and stop. The driver spawns, signals, sleeps and probes; every
//! decision in between is taken here.
use vstd::prelude::*;
use vstd::string::*;
use crate::events::option_text;
use crate::patterns::{captures_view, group_of, group_text, regex_captures, regex_groups};
use crate::text::{
    append_chars, chars_eq, chars_of, decimal_chars, decimal_digits, join_chars, join_seq,
    parse_port, pieces_view, port_of, slice_chars, split_chars, split_seq, starts_with, string_of,
    strings_view, strip_trailing, strip_trailing_chars, trim_chars, trim_seq,
};

verus! {

/// How long the driver waits for a first line of output after a spawn.
pub const FIRST_SIGNAL_TIMEOUT_MS: u64 = 750;

/// How long the driver sleeps between two looks for the first line.
pub const FIRST_SIGNAL_POLL_MS: u64 = 50;

/// How long a port may take to show up in the output.
pub const PORT_DETECTION_TIMEOUT_MS: u64 = 15000;

/// How long the driver sleeps between two looks for the port.
pub const PORT_DETECTION_POLL_MS: u64 = 100;

/// How long the process may take to answer on all its endpoints.
pub const READY_CHECK_TIMEOUT_MS: u64 = 20000;

/// How long the driver sleeps between two rounds of probes.
pub const READY_CHECK_INTERVAL_MS: u64 = 400;

/// How long the process gets to exit after the terminate signal.
pub const TERMINATE_WAIT_MS: u64 = 3000;

/// How long the process gets to exit after the kill signal.
pub const KILL_WAIT_MS: u64 = 5000;

/// How long a restart pauses between stop and start.
pub const RESTART_SETTLE_MS: u64 = 250;

/// The normal form of an API prefix: empty for a blank prefix or a lone
/// slash; otherwise trimmed, without trailing slashes, with one leading
/// slash.
pub open spec fn normalize_api_prefix_seq(prefix: Seq<char>) -> Seq<char> {
    let trimmed = trim_seq(prefix);
    if trimmed.len() == 0 || trimmed == seq!['/'] {
        Seq::empty()
    } else {
        let stripped = strip_trailing(trimmed, '/');
        if stripped.len() > 0 && stripped[0] == '/' {
            stripped
        } else {
            seq!['/'] + stripped
        }
    }
}

/// Brings an API prefix into its normal form.
pub fn normalize_api_prefix(prefix: &str) -> (r: String)
    ensures
        r@ == normalize_api_prefix_seq(prefix@),
{
    let chars = chars_of(prefix);
    let trimmed = trim_chars(&chars);
    if trimmed.len() == 0 || (trimmed.len() == 1 && trimmed[0] == '/') {
        assert(trimmed.len() == 1 && trimmed@[0] == '/' ==> trimmed@ =~= seq!['/']);
        return String::new();
    }
    let stripped = strip_trailing_chars(&trimmed, '/');
    if stripped.len() > 0 && stripped[0] == '/' {
        string_of(&stripped)
    } else {
        let mut out: Vec<char> = Vec::new();
        out.push('/');
        append_chars(&mut out, &stripped);
        assert(out@ =~= seq!['/'] + stripped@);
        string_of(&out)
    }
}

/// The entries of `parts` that are not empty and did not occur earlier, in
/// their first order.
pub open spec fn distinct_nonempty(parts: Seq<Seq<char>>) -> Seq<Seq<char>>
    decreases parts.len(),
{
    if parts.len() == 0 {
        parts
    } else {
        let before = distinct_nonempty(parts.drop_last());
        if parts.last().len() == 0 || before.contains(parts.last()) {
            before
        } else {
            before.push(parts.last())
        }
    }
}

/// The search path that puts the entries of the login shell's path before
/// those of the inherited one: the entries of both between colons, without
/// the empty ones and without repeats, joined by colons.
pub open spec fn merge_paths_seq(login_path: Seq<char>, current: Seq<char>) -> Seq<char> {
    join_seq(
        distinct_nonempty(split_seq(login_path, seq![':']) + split_seq(current, seq![':'])),
        seq![':'],
    )
}

/// Whether `parts` holds the text `item`.
fn holds_piece(parts: &Vec<Vec<char>>, item: &Vec<char>) -> (r: bool)
    ensures
        r == pieces_view(parts@).contains(item@),
{
    let mut i: usize = 0;
    while i < parts.len()
        invariant
            i <= parts.len(),
            forall|k: int| 0 <= k < i ==> pieces_view(parts@)[k] != item@,
        decreases parts.len() - i,
    {
        if chars_eq(&parts[i], item) {
            assert(pieces_view(parts@)[i as int] == item@);
            return true;
        }
        i += 1;
    }
    false
}

/// Adds to `out` the entries of `parts` that are new to it and not empty.
fn add_distinct(out: &mut Vec<Vec<char>>, parts: &Vec<Vec<char>>, Ghost(earlier): Ghost<
    Seq<Seq<char>>,
>)
    requires
        pieces_view(old(out)@) == distinct_nonempty(earlier),
    ensures
        pieces_view(final(out)@) == distinct_nonempty(earlier + pieces_view(parts@)),
{
    let mut i: usize = 0;
    let ghost all = pieces_view(parts@);
    assert(earlier + all.take(0) =~= earlier);
    while i < parts.len()
        invariant
            i <= parts.len(),
            all == pieces_view(parts@),
            pieces_view(out@) == distinct_nonempty(earlier + all.take(i as int)),
        decreases parts.len() - i,
    {
        proof {
            let next = earlier + all.take(i + 1);
            assert(next.drop_last() =~= earlier + all.take(i as int));
            assert(next.last() == parts@[i as int]@);
        }
        let part = &parts[i];
        if part.len() > 0 && !holds_piece(out, part) {
            let ghost before = pieces_view(out@);
            let mut copy: Vec<char> = Vec::new();
            append_chars(&mut copy, part);
            assert(copy@ =~= part@);
            out.push(copy);
            assert(pieces_view(out@) =~= before.push(part@));
        }
        i += 1;
    }
    assert(all.take(parts.len() as int) =~= all);
}

/// Merges the login shell's search path with the inherited one.
pub fn merge_paths(login_path: &str, current: &str) -> (r: String)
    ensures
        r@ == merge_paths_seq(login_path@, current@),
{
    let mut colon: Vec<char> = Vec::new();
    colon.push(':');
    assert(colon@ =~= seq![':']);
    let first = split_chars(&chars_of(login_path), &colon);
    let second = split_chars(&chars_of(current), &colon);
    let mut segments: Vec<Vec<char>> = Vec::new();
    assert(pieces_view(segments@) =~= distinct_nonempty(Seq::empty()));
    add_distinct(&mut segments, &first, Ghost(Seq::empty()));
    assert(Seq::<Seq<char>>::empty() + pieces_view(first@) =~= pieces_view(first@));
    add_distinct(&mut segments, &second, Ghost(pieces_view(first@)));
    string_of(&join_chars(&segments, &colon))
}

/// The path that the supervised process serves for an incoming path: the
/// incoming path without its leading `/api`, `/` where nothing is left, and
/// the incoming path itself where it does not begin with `/api`.
pub open spec fn rewrite_path_seq(incoming: Seq<char>) -> Seq<char> {
    if "/api"@.is_prefix_of(incoming) {
        if incoming.len() == "/api"@.len() {
            seq!['/']
        } else {
            incoming.skip("/api"@.len() as int)
        }
    } else {
        incoming
    }
}

/// Rewrites an incoming path for the supervised process.
pub fn rewrite_path(incoming_path: &str) -> (r: String)
    ensures
        r@ == rewrite_path_seq(incoming_path@),
{
    let chars = chars_of(incoming_path);
    let prefix = chars_of("/api");
    if starts_with(&chars, &prefix) {
        if chars.len() == prefix.len() {
            let mut out: Vec<char> = Vec::new();
            out.push('/');
            assert(out@ =~= seq!['/']);
            string_of(&out)
        } else {
            let rest = slice_chars(&chars, prefix.len(), chars.len());
            assert(rest@ =~= chars@.skip(prefix@.len() as int));
            string_of(&rest)
        }
    } else {
        string_of(&chars)
    }
}

/// The base address of the supervised process on the loopback interface.
pub open spec fn base_url_seq(port: u16, prefix: Seq<char>) -> Seq<char> {
    "http://127.0.0.1:"@ + decimal_digits(port as nat) + prefix
}

/// The base address of the supervised process: scheme, loopback host, port
/// and API prefix.
pub fn base_url(port: u16, prefix: &str) -> (r: String)
    ensures
        r@ == base_url_seq(port, prefix@),
{
    let mut out = chars_of("http://127.0.0.1:");
    append_chars(&mut out, &decimal_chars(port as u64));
    append_chars(&mut out, &chars_of(prefix));
    string_of(&out)
}


/// Why the supervisor could not bring the process up.
#[derive(Clone, Copy, Debug, PartialEq, Eq, Structural)]
pub enum SupervisorError {
    /// No executable of the server was found.
    Unavailable,
    /// The process exited right after its spawn.
    ImmediateExit,
    /// The process did not report its port in time.
    PortTimeout,
    /// The process did not answer on its endpoints in time.
    ReadyTimeout,
}

/// The executable of the server to run: none where the supervisor is
/// switched off; the configured one where it is not empty and exists; else
/// the one found on the search path, if any.
pub fn resolve_opencode_binary(
    disabled: bool,
    configured: Option<String>,
    configured_exists: bool,
    on_search_path: Option<String>,
) -> (r: Option<String>)
    ensures
        r == if disabled {
            None
        } else if configured is Some && configured->0@.len() > 0 && configured_exists {
            configured
        } else if on_search_path is Some && trim_seq(on_search_path->0@).len() > 0 {
            on_search_path
        } else {
            None
        },
{
    if disabled {
        return None;
    }
    if let Some(path) = configured {
        if path.as_str().unicode_len() > 0 && configured_exists {
            return Some(path);
        }
    }
    match on_search_path {
        Some(path) => {
            if trim_chars(&chars_of(path.as_str())).len() > 0 {
                Some(path)
            } else {
                None
            }
        },
        None => None,
    }
}

/// The message of a failure of the supervisor.
pub fn error_message(error: SupervisorError) -> (r: String)
    ensures
        r@ == match error {
            SupervisorError::Unavailable => "OpenCode CLI is not available"@,
            SupervisorError::ImmediateExit => "OpenCode process exited immediately after spawn"@,
            SupervisorError::PortTimeout => "OpenCode did not report port within 15 seconds"@,
            SupervisorError::ReadyTimeout => "OpenCode not ready after 20000ms"@,
        },
{
    match error {
        SupervisorError::Unavailable => "OpenCode CLI is not available".to_owned(),
        SupervisorError::ImmediateExit => "OpenCode process exited immediately after spawn".to_owned(),
        SupervisorError::PortTimeout => "OpenCode did not report port within 15 seconds".to_owned(),
        SupervisorError::ReadyTimeout => "OpenCode not ready after 20000ms".to_owned(),
    }
}

/// The message of a readiness wait that ran out, with the last failure of
/// a probe for diagnosis.
pub fn ready_timeout_message(last_error: Option<&str>) -> (r: String)
    ensures
        r@ == "OpenCode not ready after 20000ms: "@ + match last_error {
            Some(e) => e@,
            None => "no error details"@,
        },
{
    let mut out = chars_of("OpenCode not ready after 20000ms: ");
    match last_error {
        Some(e) => append_chars(&mut out, &chars_of(e)),
        None => append_chars(&mut out, &chars_of("no error details")),
    }
    string_of(&out)
}

/// What `ensure_running` decides.
#[derive(Clone, Copy, Debug, PartialEq, Eq, Structural)]
pub enum StartDecision {
    /// The process runs and is ready: nothing to do.
    AlreadyRunning,
    /// The driver spawns the process and brings it to readiness.
    Spawn,
}

/// What a wait decides at each look.
#[derive(Clone, Copy, Debug, PartialEq, Eq, Structural)]
pub enum WaitStep {
    /// What was waited for is there.
    Proceed,
    /// Sleep for so many milliseconds and look again.
    Sleep(u64),
    /// The wait failed.
    Fail(SupervisorError),
}

/// What the supervisor knows of the process, in mathematical form.
pub struct SupervisorView {
    pub binary: Option<Seq<char>>,
    pub args: Seq<Seq<char>>,
    pub working_dir: Seq<char>,
    pub desired_port: u16,
    pub has_child: bool,
    pub port: Option<u16>,
    pub api_prefix: Seq<char>,
    pub ready: bool,
    pub shutting_down: bool,
}

/// The supervisor's record of the server process.
pub struct OpenCodeManager {
    binary: Option<String>,
    args: Vec<String>,
    working_dir: String,
    desired_port: u16,
    has_child: bool,
    port: Option<u16>,
    api_prefix: String,
    is_ready: bool,
    shutting_down: bool,
}

/// The pattern of an address in the process's output: scheme, host, port
/// and an optional path.
pub open spec fn url_pattern() -> Seq<char> {
    r#"https?://[^:\s]+:(?P<port>\d+)(?P<path>/[^\s"']*)?"#@
}

/// The port that a desired-port setting asks for: its number, which may
/// carry a leading `+`; 0, which leaves the choice to the process, where the
/// setting is absent or no port number.
pub open spec fn desired_port_of(setting: Option<Seq<char>>) -> u16 {
    match setting {
        Some(raw) => {
            let digits = if raw.len() > 1 && raw[0] == '+' {
                raw.skip(1)
            } else {
                raw
            };
            match port_of(digits) {
                Some(p) => p,
                None => 0,
            }
        },
        None => 0,
    }
}

/// The arguments of the server: `serve --port <port>`, followed by
/// `--config <path>` where a non-empty configuration path is set.
pub open spec fn launch_args(desired_port: u16, config: Option<Seq<char>>) -> Seq<Seq<char>> {
    let base = seq!["serve"@, "--port"@, decimal_digits(desired_port as nat)];
    match config {
        Some(path) => if path.len() > 0 {
            base + seq!["--config"@, path]
        } else {
            base
        },
        None => base,
    }
}

/// The port after a line of output in which an address was or was not
/// found. An auto-assigned port is adopted once and then stays; a
/// pre-configured one follows the output.
pub open spec fn port_after_line(
    desired_port: u16,
    port: Option<u16>,
    groups: Option<Seq<Option<Seq<char>>>>,
) -> Option<u16> {
    match group_text(groups, 1) {
        Some(digits) => match port_of(digits) {
            Some(found) => if desired_port != 0 || port is None {
                Some(found)
            } else {
                port
            },
            None => port,
        },
        None => port,
    }
}

/// The API prefix after a line of output: the path of the address found,
/// unless there is none or it is empty or a lone slash.
pub open spec fn prefix_after_line(prefix: Seq<char>, groups: Option<Seq<Option<Seq<char>>>>)
    -> Seq<char> {
    match group_text(groups, 2) {
        Some(path) => if path.len() > 0 && path != seq!['/'] {
            path
        } else {
            prefix
        },
        None => prefix,
    }
}

/// Whether the answer to a `/config` probe shows the API: a success whose
/// body, white space aside, begins with `{` or `[`.
pub open spec fn probe_accepts(success: bool, body: Option<Seq<char>>) -> bool {
    success && body is Some && trim_seq(body->0).len() > 0 && (trim_seq(body->0)[0] == '{'
        || trim_seq(body->0)[0] == '[')
}

impl View for OpenCodeManager {
    type V = SupervisorView;

    closed spec fn view(&self) -> SupervisorView {
        SupervisorView {
            binary: option_text(self.binary),
            args: strings_view(self.args@),
            working_dir: self.working_dir@,
            desired_port: self.desired_port,
            has_child: self.has_child,
            port: self.port,
            api_prefix: self.api_prefix@,
            ready: self.is_ready,
            shutting_down: self.shutting_down,
        }
    }
}

impl OpenCodeManager {
    /// A supervisor for the executable `binary`, if one was found. It
    /// starts in `initial_dir`, or in `fallback_dir` where none is given.
    /// `port_setting` and `config_setting` are the desired port and the
    /// configuration path as the environment gives them.
    pub fn new_with_directory(
        binary: Option<String>,
        initial_dir: Option<String>,
        fallback_dir: String,
        port_setting: Option<String>,
        config_setting: Option<String>,
    ) -> (r: Self)
        ensures
            r@ == (SupervisorView {
                binary: option_text(binary),
                args: launch_args(
                    desired_port_of(option_text(port_setting)),
                    option_text(config_setting),
                ),
                working_dir: match initial_dir {
                    Some(d) => d@,
                    None => fallback_dir@,
                },
                desired_port: desired_port_of(option_text(port_setting)),
                has_child: false,
                port: None,
                api_prefix: Seq::empty(),
                ready: false,
                shutting_down: false,
            }),
    {
        let desired_port: u16 = match &port_setting {
            Some(raw) => {
                let chars = chars_of(raw.as_str());
                let digits = if chars.len() > 1 && chars[0] == '+' {
                    let rest = slice_chars(&chars, 1, chars.len());
                    assert(rest@ =~= chars@.skip(1));
                    rest
                } else {
                    chars
                };
                match parse_port(&digits) {
                    Some(p) => p,
                    None => 0,
                }
            },
            None => 0,
        };
        let mut args: Vec<String> = Vec::new();
        args.push("serve".to_owned());
        args.push("--port".to_owned());
        args.push(string_of(&decimal_chars(desired_port as u64)));
        proof {
            assert(strings_view(args@) =~= seq![
                "serve"@,
                "--port"@,
                decimal_digits(desired_port as nat),
            ]);
        }
        if let Some(config) = config_setting {
            if config.as_str().unicode_len() > 0 {
                let ghost before = strings_view(args@);
                args.push("--config".to_owned());
                args.push(config);
                proof {
                    assert(strings_view(args@) =~= before + seq![
                        "--config"@,
                        config@,
                    ]);
                }
            }
        }
        let working_dir = match initial_dir {
            Some(d) => d,
            None => fallback_dir,
        };
        OpenCodeManager {
            binary,
            args,
            working_dir,
            desired_port,
            has_child: false,
            port: None,
            api_prefix: String::new(),
            is_ready: false,
            shutting_down: false,
        }
    }

    /// The executable of the server, if one was found.
    pub fn binary_path(&self) -> (r: Option<String>)
        ensures
            option_text(r) == self@.binary,
    {
        match &self.binary {
            Some(path) => Some(path.clone()),
            None => None,
        }
    }

    /// Whether an executable of the server was found.
    pub fn is_cli_available(&self) -> (r: bool)
        ensures
            r == self@.binary is Some,
    {
        self.binary.is_some()
    }

    /// The port of the process, once known.
    pub fn current_port(&self) -> (r: Option<u16>)
        ensures
            r == self@.port,
    {
        self.port
    }

    /// The API prefix of the process.
    pub fn api_prefix(&self) -> (r: String)
        ensures
            r@ == self@.api_prefix,
    {
        self.api_prefix.clone()
    }

    /// Whether the process was seen ready.
    pub fn is_ready(&self) -> (r: bool)
        ensures
            r == self@.ready,
    {
        self.is_ready
    }

    /// Whether a shutdown was asked for.
    pub fn is_shutting_down(&self) -> (r: bool)
        ensures
            r == self@.shutting_down,
    {
        self.shutting_down
    }

    /// The port that the process is asked to serve on; 0 leaves the choice
    /// to the process.
    pub fn desired_port(&self) -> (r: u16)
        ensures
            r == self@.desired_port,
    {
        self.desired_port
    }

    /// The directory for the next spawn.
    pub fn get_working_directory(&self) -> (r: String)
        ensures
            r@ == self@.working_dir,
    {
        self.working_dir.clone()
    }

    /// The arguments that the process is started with.
    pub fn launch_arguments(&self) -> (r: Vec<String>)
        ensures
            strings_view(r@) == self@.args,
    {
        let mut out: Vec<String> = Vec::new();
        let mut i: usize = 0;
        while i < self.args.len()
            invariant
                i <= self.args.len(),
                strings_view(out@) == strings_view(self.args@).take(
                    i as int,
                ),
            decreases self.args.len() - i,
        {
            let item = self.args[i].clone();
            let ghost before = strings_view(out@);
            out.push(item);
            i += 1;
            assert(strings_view(out@) =~= before.push(self.args@[i - 1]@));
            assert(strings_view(out@) =~= strings_view(self.args@).take(
                i as int,
            ));
        }
        assert(strings_view(self.args@).take(self.args.len() as int)
            =~= strings_view(self.args@));
        out
    }

    /// Stores the directory for the next spawn. Nothing is restarted.
    pub fn set_working_directory(&mut self, new_dir: String)
        ensures
            final(self)@ == (SupervisorView { working_dir: new_dir@, ..old(self)@ }),
    {
        self.working_dir = new_dir;
    }

    /// Rewrites an incoming path for the supervised process.
    pub fn rewrite_path(&self, incoming_path: &str) -> (r: String)
        ensures
            r@ == rewrite_path_seq(incoming_path@),
    {
        self::rewrite_path(incoming_path)
    }

    /// Decides what a request to have the process running leads to.
    /// `child_alive` says whether the spawned process, if there is one, has
    /// not exited. Without an executable this fails; a live and ready
    /// process is left alone; otherwise the process counts as not ready and
    /// is to be spawned.
    pub fn ensure_running(&mut self, child_alive: bool) -> (r: Result<
        StartDecision,
        SupervisorError,
    >)
        ensures
            old(self)@.binary is None ==> r == Err::<StartDecision, SupervisorError>(
                SupervisorError::Unavailable,
            ) && final(self)@ == old(self)@,
            old(self)@.binary is Some && old(self)@.has_child && child_alive && old(self)@.ready
                ==> r == Ok::<StartDecision, SupervisorError>(StartDecision::AlreadyRunning)
                && final(self)@ == old(self)@,
            old(self)@.binary is Some && !(old(self)@.has_child && child_alive && old(self)@.ready)
                ==> r == Ok::<StartDecision, SupervisorError>(StartDecision::Spawn) && final(self)@
                == (SupervisorView { ready: false, ..old(self)@ }),
    {
        if self.binary.is_none() {
            return Err(SupervisorError::Unavailable);
        }
        if self.has_child && child_alive && self.is_ready {
            return Ok(StartDecision::AlreadyRunning);
        }
        self.is_ready = false;
        Ok(StartDecision::Spawn)
    }

    /// Records that the process was spawned: the supervisor holds its
    /// handle, and a pre-configured port is known at once.
    pub fn spawn_process(&mut self)
        ensures
            final(self)@ == (SupervisorView {
                has_child: true,
                port: if old(self)@.desired_port > 0 {
                    Some(old(self)@.desired_port)
                } else {
                    old(self)@.port
                },
                ..old(self)@
            }),
    {
        self.has_child = true;
        if self.desired_port > 0 {
            self.port = Some(self.desired_port);
        }
    }

    /// Takes in what a match attempt on one line of output gave.
    pub fn adopt_captures(&mut self, captures: &Option<Vec<Option<String>>>)
        ensures
            final(self)@ == (SupervisorView {
                port: port_after_line(
                    old(self)@.desired_port,
                    old(self)@.port,
                    captures_view(*captures),
                ),
                api_prefix: prefix_after_line(old(self)@.api_prefix, captures_view(*captures)),
                ..old(self)@
            }),
    {
        if let Some(digits) = group_of(captures, 1) {
            if let Some(found) = parse_port(&chars_of(digits.as_str())) {
                if self.desired_port != 0 || self.port.is_none() {
                    self.port = Some(found);
                }
            }
        }
        if let Some(path) = group_of(captures, 2) {
            let chars = chars_of(path.as_str());
            if chars.len() > 0 && !(chars.len() == 1 && chars[0] == '/') {
                assert(chars@ != seq!['/']) by {
                    if chars@.len() == 1 {
                        assert(seq!['/'][0] == '/');
                    }
                }
                self.api_prefix = path.clone();
            } else {
                assert(chars@.len() == 0 || chars@ =~= seq!['/']);
            }
        }
    }

    /// Reads one line of the process's output for the address it serves
    /// on.
    pub fn ingest_output_line(&mut self, line: &str)
        ensures
            final(self)@ == (SupervisorView {
                port: port_after_line(
                    old(self)@.desired_port,
                    old(self)@.port,
                    regex_groups(url_pattern(), line@),
                ),
                api_prefix: prefix_after_line(
                    old(self)@.api_prefix,
                    regex_groups(url_pattern(), line@),
                ),
                ..old(self)@
            }),
    {
        let captures = regex_captures(r#"https?://[^:\s]+:(?P<port>\d+)(?P<path>/[^\s"']*)?"#, line);
        self.adopt_captures(&captures);
    }

    /// Decides how the wait for the port goes on after `elapsed_ms`: it is
    /// over once the port is known, fails after the time limit, and sleeps
    /// in between.
    pub fn wait_for_port_detection(&self, elapsed_ms: u64) -> (r: WaitStep)
        ensures
            r == if elapsed_ms >= PORT_DETECTION_TIMEOUT_MS {
                WaitStep::Fail(SupervisorError::PortTimeout)
            } else if self@.port is Some {
                WaitStep::Proceed
            } else {
                WaitStep::Sleep(PORT_DETECTION_POLL_MS)
            },
    {
        if elapsed_ms >= PORT_DETECTION_TIMEOUT_MS {
            WaitStep::Fail(SupervisorError::PortTimeout)
        } else if self.port.is_some() {
            WaitStep::Proceed
        } else {
            WaitStep::Sleep(PORT_DETECTION_POLL_MS)
        }
    }

    /// Takes in the answer to the `/config` probe under the prefix
    /// `candidate`; says whether the prefix was adopted.
    pub fn detect_api_prefix(&mut self, candidate: &str, success: bool, body: Option<&str>) -> (r:
        bool)
        ensures
            r == probe_accepts(
                success,
                match body {
                    Some(b) => Some(b@),
                    None => None,
                },
            ),
            r ==> final(self)@ == (SupervisorView {
                api_prefix: normalize_api_prefix_seq(candidate@),
                ..old(self)@
            }),
            !r ==> final(self)@ == old(self)@,
    {
        if !success {
            return false;
        }
        match body {
            None => false,
            Some(text) => {
                let trimmed = trim_chars(&chars_of(text));
                if trimmed.len() > 0 && (trimmed[0] == '{' || trimmed[0] == '[') {
                    self.api_prefix = normalize_api_prefix(candidate);
                    true
                } else {
                    false
                }
            },
        }
    }

    /// Falls back to the empty prefix when no candidate was accepted.
    pub fn use_default_prefix(&mut self)
        ensures
            final(self)@ == (SupervisorView { api_prefix: Seq::empty(), ..old(self)@ }),
    {
        self.api_prefix = String::new();
    }

    /// Records that the process answered on all its endpoints.
    pub fn mark_ready(&mut self)
        ensures
            final(self)@ == (SupervisorView { ready: true, ..old(self)@ }),
    {
        self.is_ready = true;
    }

    /// Opens a restart: the process counts as not ready from now on.
    pub fn begin_restart(&mut self)
        ensures
            final(self)@ == (SupervisorView { ready: false, ..old(self)@ }),
    {
        self.is_ready = false;
    }

    /// Clears what was detected of the stopped process, before it is
    /// started again: the prefix always, the port only if it was
    /// auto-assigned.
    pub fn restart(&mut self)
        ensures
            final(self)@ == (SupervisorView {
                port: if old(self)@.desired_port == 0 {
                    None
                } else {
                    old(self)@.port
                },
                api_prefix: Seq::empty(),
                ..old(self)@
            }),
    {
        if self.desired_port == 0 {
            self.port = None;
        }
        self.api_prefix = String::new();
    }

    /// Marks the supervisor as shutting down; the process counts as not
    /// ready from now on.
    pub fn shutdown(&mut self)
        ensures
            final(self)@ == (SupervisorView { shutting_down: true, ready: false, ..old(self)@ }),
    {
        self.shutting_down = true;
        self.is_ready = false;
    }

    /// Whether the supervisor holds the handle of a process whose exit is
    /// not confirmed.
    pub fn has_child(&self) -> (r: bool)
        ensures
            r == self@.has_child,
    {
        self.has_child
    }

    /// Takes in one report to a stop and decides the next step. The
    /// handle of the process is given up only when its exit is confirmed: at
    /// the start, by a process that has exited already, and later by the
    /// report of the exit. When the last wait runs out the stop is over, and
    /// the handle stays.
    pub fn advance_stop(&mut self, phase: StopPhase, event: StopEvent) -> (r: (
        StopPhase,
        StopAction,
    ))
        ensures
            final(self)@ == (SupervisorView {
                has_child: child_after_stop(old(self)@.has_child, phase, event),
                ..old(self)@
            }),
            r == stop_step(phase, event),
    {
        let confirmed = match event {
            StopEvent::Exited => match phase {
                StopPhase::Terminating => true,
                StopPhase::Killing => true,
                _ => false,
            },
            StopEvent::Begin { has_child, exited } => match phase {
                StopPhase::Idle => exited,
                _ => false,
            },
            StopEvent::TimedOut => false,
        };
        if confirmed {
            self.has_child = false;
        }
        graceful_stop_step(phase, event)
    }

    /// Opens the stop of the process and decides its first step. `exited`
    /// says whether the process, if there is one, has exited already; `None`
    /// stands for an exit state that could not be read, which counts as not
    /// exited. Nothing is asked of a supervisor without a process, nor of one
    /// whose process has exited; a live process is sent the terminate
    /// signal.
    pub fn graceful_stop(&mut self, exited: Option<bool>) -> (r: (StopPhase, StopAction))
        ensures
            final(self)@ == (SupervisorView {
                has_child: old(self)@.has_child && exited != Some(true),
                ..old(self)@
            }),
            r == stop_step(
                StopPhase::Idle,
                StopEvent::Begin { has_child: old(self)@.has_child, exited: exited == Some(true) },
            ),
    {
        let has_child = self.has_child;
        let gone = match exited {
            Some(b) => b,
            None => false,
        };
        self.advance_stop(StopPhase::Idle, StopEvent::Begin { has_child, exited: gone })
    }
}

/// One step of a restart or a shutdown, for the driver to carry out.
#[derive(Clone, Copy, Debug, PartialEq, Eq, Structural)]
pub enum LifecycleStep {
    /// Open the restart with `begin_restart`: the process counts as not
    /// ready.
    MarkNotReady,
    /// Mark the supervisor with `shutdown`.
    MarkShuttingDown,
    /// Stop the process with `graceful_stop`.
    Stop,
    /// Pause for so many milliseconds.
    Settle(u64),
    /// Clear what was detected with `restart`.
    ClearDetected,
    /// Bring the process up with `ensure_running`.
    Start,
}

/// The steps of a restart, in order: the process counts as not ready, it
/// is stopped, the system gets a moment to release what the process held,
/// what was detected is cleared, and the process is started.
pub fn restart_steps() -> (r: Vec<LifecycleStep>)
    ensures
        r@ == seq![
            LifecycleStep::MarkNotReady,
            LifecycleStep::Stop,
            LifecycleStep::Settle(RESTART_SETTLE_MS),
            LifecycleStep::ClearDetected,
            LifecycleStep::Start,
        ],
{
    let mut steps: Vec<LifecycleStep> = Vec::new();
    steps.push(LifecycleStep::MarkNotReady);
    steps.push(LifecycleStep::Stop);
    steps.push(LifecycleStep::Settle(RESTART_SETTLE_MS));
    steps.push(LifecycleStep::ClearDetected);
    steps.push(LifecycleStep::Start);
    steps
}

/// The steps of a shutdown, in order: the supervisor is marked, and the
/// process is stopped. It is never started again.
pub fn shutdown_steps() -> (r: Vec<LifecycleStep>)
    ensures
        r@ == seq![LifecycleStep::MarkShuttingDown, LifecycleStep::Stop],
{
    let mut steps: Vec<LifecycleStep> = Vec::new();
    steps.push(LifecycleStep::MarkShuttingDown);
    steps.push(LifecycleStep::Stop);
    steps
}

/// Where a stop stands.
#[derive(Clone, Copy, Debug, PartialEq, Eq, Structural)]
pub enum StopPhase {
    /// Not begun.
    Idle,
    /// The terminate signal was sent.
    Terminating,
    /// The kill signal was sent.
    Killing,
    /// Over, whether or not the exit was confirmed.
    Stopped,
}

/// What the driver reports to a stop.
#[derive(Clone, Copy, Debug, PartialEq, Eq, Structural)]
pub enum StopEvent {
    /// The stop is asked for.
    Begin { has_child: bool, exited: bool },
    /// The process exited within the wait.
    Exited,
    /// The wait ran out.
    TimedOut,
}

/// What a stop asks of the driver.
#[derive(Clone, Copy, Debug, PartialEq, Eq, Structural)]
pub enum StopAction {
    /// Nothing more: the stop is over.
    Finish,
    /// Send the terminate signal and wait for the exit.
    Terminate { wait_ms: u64 },
    /// Send the kill signal and wait for the exit.
    Kill { wait_ms: u64 },
    /// The report does not belong to this phase and is ignored.
    Ignore,
}

/// Whether the supervisor still holds the handle of the process after a
/// report to a stop: it gives the handle up when the exit is confirmed, and
/// at no other report.
pub open spec fn child_after_stop(has_child: bool, phase: StopPhase, event: StopEvent) -> bool {
    match (phase, event) {
        (StopPhase::Idle, StopEvent::Begin { has_child: _, exited }) => has_child && !exited,
        (StopPhase::Terminating, StopEvent::Exited) => false,
        (StopPhase::Killing, StopEvent::Exited) => false,
        _ => has_child,
    }
}

/// One step of a stop.
pub open spec fn stop_step(phase: StopPhase, event: StopEvent) -> (StopPhase, StopAction) {
    match phase {
        StopPhase::Idle => match event {
            StopEvent::Begin { has_child, exited } => if has_child && !exited {
                (StopPhase::Terminating, StopAction::Terminate { wait_ms: TERMINATE_WAIT_MS })
            } else {
                (StopPhase::Stopped, StopAction::Finish)
            },
            _ => (StopPhase::Idle, StopAction::Ignore),
        },
        StopPhase::Terminating => match event {
            StopEvent::Exited => (StopPhase::Stopped, StopAction::Finish),
            StopEvent::TimedOut => (StopPhase::Killing, StopAction::Kill { wait_ms: KILL_WAIT_MS }),
            _ => (StopPhase::Terminating, StopAction::Ignore),
        },
        StopPhase::Killing => match event {
            StopEvent::Begin { .. } => (StopPhase::Killing, StopAction::Ignore),
            _ => (StopPhase::Stopped, StopAction::Finish),
        },
        StopPhase::Stopped => (StopPhase::Stopped, StopAction::Finish),
    }
}

/// Decides one step of a stop, without a supervisor to record a confirmed
/// exit in; `OpenCodeManager::advance_stop` decides the same and records
/// it.
pub fn graceful_stop_step(phase: StopPhase, event: StopEvent) -> (r: (StopPhase, StopAction))
    ensures
        r == stop_step(phase, event),
{
    match phase {
        StopPhase::Idle => match event {
            StopEvent::Begin { has_child, exited } => if has_child && !exited {
                (StopPhase::Terminating, StopAction::Terminate { wait_ms: TERMINATE_WAIT_MS })
            } else {
                (StopPhase::Stopped, StopAction::Finish)
            },
            _ => (StopPhase::Idle, StopAction::Ignore),
        },
        StopPhase::Terminating => match event {
            StopEvent::Exited => (StopPhase::Stopped, StopAction::Finish),
            StopEvent::TimedOut => (StopPhase::Killing, StopAction::Kill { wait_ms: KILL_WAIT_MS }),
            _ => (StopPhase::Terminating, StopAction::Ignore),
        },
        StopPhase::Killing => match event {
            StopEvent::Begin { .. } => (StopPhase::Killing, StopAction::Ignore),
            _ => (StopPhase::Stopped, StopAction::Finish),
        },
        StopPhase::Stopped => (StopPhase::Stopped, StopAction::Finish),
    }
}

/// Decides how the wait for a first line of output goes on after
/// `elapsed_ms`: an exit before any output fails the start; a line of
/// output, or the end of the time limit, lets it go on.
pub fn first_signal_step(elapsed_ms: u64, signal_seen: bool, exited: bool) -> (r: WaitStep)
    ensures
        r == if elapsed_ms >= FIRST_SIGNAL_TIMEOUT_MS || signal_seen {
            WaitStep::Proceed
        } else if exited {
            WaitStep::Fail(SupervisorError::ImmediateExit)
        } else {
            WaitStep::Sleep(FIRST_SIGNAL_POLL_MS)
        },
{
    if elapsed_ms >= FIRST_SIGNAL_TIMEOUT_MS || signal_seen {
        WaitStep::Proceed
    } else if exited {
        WaitStep::Fail(SupervisorError::ImmediateExit)
    } else {
        WaitStep::Sleep(FIRST_SIGNAL_POLL_MS)
    }
}

/// Whether an HTTP status code is a success.
pub fn is_success_status(code: u16) -> (r: bool)
    ensures
        r == (200 <= code <= 299),
{
    200 <= code && code <= 299
}

/// The first endpoint that keeps the process from being ready, given the
/// status of `/health`, `/config` and `/agent` in this order; `None` stands
/// for a request that failed. The probes stop at the first failure.
pub open spec fn first_failing_endpoint(
    health: Option<u16>,
    config: Option<u16>,
    agent: Option<u16>,
) -> Option<Seq<char>> {
    if !(health matches Some(c) && 200 <= c <= 299) {
        Some("/health"@)
    } else if !(config matches Some(c) && 200 <= c <= 299) {
        Some("/config"@)
    } else if !(agent matches Some(c) && 200 <= c <= 299) {
        Some("/agent"@)
    } else {
        None
    }
}

/// Judges one round of readiness probes: `Ok` when all three endpoints
/// answered with a success, else the first endpoint that did not.
pub fn check_endpoints(health: Option<u16>, config: Option<u16>, agent: Option<u16>) -> (r: Result<
    (),
    String,
>)
    ensures
        r is Ok <==> first_failing_endpoint(health, config, agent) is None,
        r matches Err(e) ==> Some(e@) == first_failing_endpoint(health, config, agent),
{
    let health_ok = match health {
        Some(c) => is_success_status(c),
        None => false,
    };
    if !health_ok {
        return Err("/health".to_owned());
    }
    let config_ok = match config {
        Some(c) => is_success_status(c),
        None => false,
    };
    if !config_ok {
        return Err("/config".to_owned());
    }
    let agent_ok = match agent {
        Some(c) => is_success_status(c),
        None => false,
    };
    if !agent_ok {
        return Err("/agent".to_owned());
    }
    Ok(())
}

/// Decides how the wait for readiness goes on after `elapsed_ms`, given
/// whether the last round of probes succeeded (`None` before the first
/// round).
pub fn wait_for_ready(elapsed_ms: u64, last_round_ok: Option<bool>) -> (r: WaitStep)
    ensures
        r == if last_round_ok == Some(true) {
            WaitStep::Proceed
        } else if elapsed_ms >= READY_CHECK_TIMEOUT_MS {
            WaitStep::Fail(SupervisorError::ReadyTimeout)
        } else if last_round_ok is None {
            WaitStep::Sleep(0)
        } else {
            WaitStep::Sleep(READY_CHECK_INTERVAL_MS)
        },
{
    match last_round_ok {
        Some(true) => WaitStep::Proceed,
        _ => {
            if elapsed_ms >= READY_CHECK_TIMEOUT_MS {
                WaitStep::Fail(SupervisorError::ReadyTimeout)
            } else if last_round_ok.is_none() {
                WaitStep::Sleep(0)
            } else {
                WaitStep::Sleep(READY_CHECK_INTERVAL_MS)
            }
        },
    }
}

} // verus!
