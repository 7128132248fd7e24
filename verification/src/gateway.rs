//! The decisions of the local HTTP gateway: which route a request takes,
//! what the health and metadata routes answer, when a change of directory
//! restarts the process, and how a request is forwarded.
use vstd::prelude::*;
use vstd::string::*;
use crate::supervisor::{
    rewrite_path, rewrite_path_seq, OpenCodeManager, SupervisorError, SupervisorView,
};
use crate::text::{
    append_chars, chars_of, contains_sub, decimal_chars, decimal_digits, eq_ignore_ascii_case,
    has_sub, same_ignoring_ascii_case, starts_with, str_eq, string_of, trim_chars, trim_seq,
};

verus! {

/// How long cached model metadata counts as fresh.
pub const MODELS_METADATA_CACHE_TTL_MS: u64 = 300000;

/// Where the model metadata is fetched from.
pub const MODELS_DEV_API_URL: &'static str = "https://models.dev/api.json";

/// How long a fetch of model metadata may take.
pub const MODELS_METADATA_REQUEST_TIMEOUT_MS: u64 = 8000;

/// The most bytes of a request body that the gateway takes in.
pub const PROXY_BODY_LIMIT: usize = 33554432;

/// The kinds of failure that the gateway reports.
#[derive(Clone, Copy, Debug, PartialEq, Eq, Structural)]
pub enum ErrorKind {
    /// No executable of the server.
    Unavailable,
    /// A wait ran out.
    Timeout,
    /// The supervised process or an outside service cannot be reached.
    Unreachable,
    /// The request is malformed.
    Validation,
    /// What the request names does not exist.
    NotFound,
    /// Something else went wrong.
    Internal,
}

/// The HTTP status that a kind of failure is reported with.
pub fn status_of(kind: ErrorKind) -> (r: u16)
    ensures
        r == match kind {
            ErrorKind::Unavailable => 503u16,
            ErrorKind::Timeout => 503u16,
            ErrorKind::Unreachable => 502u16,
            ErrorKind::Validation => 400u16,
            ErrorKind::NotFound => 404u16,
            ErrorKind::Internal => 500u16,
        },
{
    match kind {
        ErrorKind::Unavailable => 503,
        ErrorKind::Timeout => 503,
        ErrorKind::Unreachable => 502,
        ErrorKind::Validation => 400,
        ErrorKind::NotFound => 404,
        ErrorKind::Internal => 500,
    }
}

/// The kind of a failure of the supervisor.
pub fn kind_of(error: SupervisorError) -> (r: ErrorKind)
    ensures
        r == match error {
            SupervisorError::Unavailable => ErrorKind::Unavailable,
            SupervisorError::ImmediateExit => ErrorKind::Internal,
            SupervisorError::PortTimeout => ErrorKind::Timeout,
            SupervisorError::ReadyTimeout => ErrorKind::Timeout,
        },
{
    match error {
        SupervisorError::Unavailable => ErrorKind::Unavailable,
        SupervisorError::ImmediateExit => ErrorKind::Internal,
        SupervisorError::PortTimeout => ErrorKind::Timeout,
        SupervisorError::ReadyTimeout => ErrorKind::Timeout,
    }
}

/// Why a request could not be forwarded. Each is a failure to reach the
/// supervised process.
#[derive(Clone, Copy, Debug, PartialEq, Eq, Structural)]
pub enum ProxyFailure {
    /// The port of the process is not known.
    NoPort,
    /// The body of the request could not be read.
    BodyUnreadable,
    /// The process did not answer.
    NoAnswer,
}

/// The HTTP status of a request that could not be forwarded: service
/// unavailable while no port is known, bad gateway otherwise.
pub fn proxy_failure_status(failure: ProxyFailure) -> (r: u16)
    ensures
        r == if failure == ProxyFailure::NoPort {
            503u16
        } else {
            502u16
        },
{
    match failure {
        ProxyFailure::NoPort => 503,
        _ => 502,
    }
}

/// Where a request goes.
#[derive(Clone, Copy, Debug, PartialEq, Eq, Structural)]
pub enum ProxyRoute {
    /// The gateway's own health report.
    Health,
    /// The cached model metadata.
    CachedMetadata,
    /// The change of the working directory.
    DirectoryChange,
    /// The configuration of an agent or a command, or the reload of the
    /// configuration.
    ConfigEntity,
    /// Forwarded to the supervised process.
    GenericProxy,
    /// The path is served, but not with this method.
    MethodNotAllowed,
    /// The path is not served.
    NotFound,
}

/// Whether a path is one of the configuration routes.
pub open spec fn is_config_path(path: Seq<char>) -> bool {
    "/api/config/agents/"@.is_prefix_of(path) || "/api/config/commands/"@.is_prefix_of(path)
        || path == "/api/config/reload"@
}

/// The route of a request, by its method and path.
pub open spec fn route_of(method: Seq<char>, path: Seq<char>) -> ProxyRoute {
    if path == "/health"@ {
        if method == "GET"@ {
            ProxyRoute::Health
        } else {
            ProxyRoute::MethodNotAllowed
        }
    } else if path == "/api/openchamber/models-metadata"@ {
        if method == "GET"@ {
            ProxyRoute::CachedMetadata
        } else {
            ProxyRoute::MethodNotAllowed
        }
    } else if path == "/api/opencode/directory"@ {
        if method == "POST"@ {
            ProxyRoute::DirectoryChange
        } else {
            ProxyRoute::MethodNotAllowed
        }
    } else if path == "/api"@ || "/api/"@.is_prefix_of(path) {
        if is_config_path(path) {
            ProxyRoute::ConfigEntity
        } else {
            ProxyRoute::GenericProxy
        }
    } else {
        ProxyRoute::NotFound
    }
}

/// Finds the route of a request.
pub fn classify_route(method: &str, path: &str) -> (r: ProxyRoute)
    ensures
        r == route_of(method@, path@),
{
    if str_eq(path, "/health") {
        if str_eq(method, "GET") {
            ProxyRoute::Health
        } else {
            ProxyRoute::MethodNotAllowed
        }
    } else if str_eq(path, "/api/openchamber/models-metadata") {
        if str_eq(method, "GET") {
            ProxyRoute::CachedMetadata
        } else {
            ProxyRoute::MethodNotAllowed
        }
    } else if str_eq(path, "/api/opencode/directory") {
        if str_eq(method, "POST") {
            ProxyRoute::DirectoryChange
        } else {
            ProxyRoute::MethodNotAllowed
        }
    } else {
        let chars = chars_of(path);
        if str_eq(path, "/api") || starts_with(&chars, &chars_of("/api/")) {
            if starts_with(&chars, &chars_of("/api/config/agents/")) || starts_with(
                &chars,
                &chars_of("/api/config/commands/"),
            ) || str_eq(path, "/api/config/reload") {
                ProxyRoute::ConfigEntity
            } else {
                ProxyRoute::GenericProxy
            }
        } else {
            ProxyRoute::NotFound
        }
    }
}

/// The gateway's health report.
pub struct HealthResponse {
    pub status: String,
    pub server_port: u16,
    pub opencode_port: Option<u16>,
    pub api_prefix: String,
    pub is_opencode_ready: bool,
    pub cli_available: bool,
}

/// Reports the health of the gateway: always `ok`, with what the
/// supervisor knows of the process at this moment.
pub fn health(manager: &OpenCodeManager, server_port: u16, cli_available: bool) -> (r:
    HealthResponse)
    ensures
        r.status@ == "ok"@,
        r.server_port == server_port,
        r.opencode_port == manager@.port,
        r.api_prefix@ == manager@.api_prefix,
        r.is_opencode_ready == manager@.ready,
        r.cli_available == cli_available,
{
    HealthResponse {
        status: "ok".to_owned(),
        server_port,
        opencode_port: manager.current_port(),
        api_prefix: manager.api_prefix(),
        is_opencode_ready: manager.is_ready(),
        cli_available,
    }
}

/// The cached model metadata: the payload and the time of its fetch, in
/// milliseconds of a clock that never goes back.
pub struct ModelsMetadataCache {
    pub payload: Option<String>,
    pub fetched_at_ms: Option<u64>,
}

/// Whether the cache holds a payload younger than five minutes at `now`.
pub open spec fn cache_is_fresh(cache: ModelsMetadataCache, now_ms: u64) -> bool {
    cache.payload is Some && cache.fetched_at_ms is Some && (now_ms < cache.fetched_at_ms->0
        || now_ms - cache.fetched_at_ms->0 < MODELS_METADATA_CACHE_TTL_MS)
}

impl ModelsMetadataCache {
    /// An empty cache.
    pub fn new() -> (r: Self)
        ensures
            r.payload is None,
            r.fetched_at_ms is None,
    {
        ModelsMetadataCache { payload: None, fetched_at_ms: None }
    }

    /// The payload to serve without a fetch: the cached one while it is
    /// fresh.
    pub fn fresh_payload(&self, now_ms: u64) -> (r: Option<String>)
        ensures
            r is Some <==> cache_is_fresh(*self, now_ms),
            r matches Some(p) ==> p@ == self.payload->0@,
    {
        match (&self.payload, self.fetched_at_ms) {
            (Some(payload), Some(fetched_at)) => {
                if now_ms < fetched_at || now_ms - fetched_at < MODELS_METADATA_CACHE_TTL_MS {
                    Some(payload.clone())
                } else {
                    None
                }
            },
            _ => None,
        }
    }

    /// Takes in a fetched payload.
    pub fn refresh(&mut self, payload: String, now_ms: u64)
        ensures
            final(self).payload == Some(payload),
            final(self).fetched_at_ms == Some(now_ms),
    {
        self.payload = Some(payload);
        self.fetched_at_ms = Some(now_ms);
    }

    /// The answer after a failed fetch: the stale payload where there is
    /// one, else the failure to reach the service.
    pub fn after_failed_fetch(&self) -> (r: Result<String, ErrorKind>)
        ensures
            r is Ok <==> self.payload is Some,
            r matches Ok(p) ==> p@ == self.payload->0@,
            r matches Err(e) ==> e == ErrorKind::Unreachable,
    {
        match &self.payload {
            Some(payload) => Ok(payload.clone()),
            None => Err(ErrorKind::Unreachable),
        }
    }
}

/// What a look at the requested path found.
#[derive(Clone, Copy, Debug, PartialEq, Eq, Structural)]
pub enum PathLookup {
    /// Nothing there, or not accessible.
    Missing,
    /// Something that is no directory.
    NotDirectory,
    /// A directory.
    Directory,
}

/// The answer to a request to change the working directory.
pub struct DirectoryChangeResponse {
    pub success: bool,
    pub restarted: bool,
    pub path: String,
}

/// The path that a request to change the directory names: the text of the
/// request without the white space at its ends, if anything is left.
pub fn requested_directory(raw: &str) -> (r: Option<String>)
    ensures
        r is Some <==> trim_seq(raw@).len() > 0,
        r matches Some(p) ==> p@ == trim_seq(raw@),
{
    let trimmed = trim_chars(&chars_of(raw));
    if trimmed.len() == 0 {
        None
    } else {
        Some(string_of(&trimmed))
    }
}

/// Whether a request for the directory `path` is met without a restart:
/// the process runs, its port being known, in that very directory.
pub open spec fn directory_is_active(manager: SupervisorView, path: Seq<char>) -> bool {
    manager.working_dir == path && manager.port is Some
}

/// What a request to change the working directory to `path` comes to,
/// given what a look at the path found: the result `r`, and the
/// supervisor's knowledge before and after.
///
/// - A path that is missing is not found, one that is no directory is
///   refused as invalid, and nothing changes.
/// - The directory that is already active needs no restart, and nothing
///   changes.
/// - Any other directory is stored for the next spawn, and the answer asks
///   for a restart.
pub open spec fn directory_change_is(
    r: Result<DirectoryChangeResponse, ErrorKind>,
    before: SupervisorView,
    after: SupervisorView,
    path: Seq<char>,
    lookup: PathLookup,
) -> bool {
    match lookup {
        PathLookup::Missing => r == Err::<DirectoryChangeResponse, ErrorKind>(
            ErrorKind::NotFound,
        ) && after == before,
        PathLookup::NotDirectory => r == Err::<DirectoryChangeResponse, ErrorKind>(
            ErrorKind::Validation,
        ) && after == before,
        PathLookup::Directory => {
            &&& r matches Ok(answer) && answer.success && answer.path@ == path
                && answer.restarted == !directory_is_active(before, path)
            &&& after == if directory_is_active(before, path) {
                before
            } else {
                SupervisorView { working_dir: path, ..before }
            }
        },
    }
}

/// Decides a request to change the working directory to `path`, given
/// what a look at the path found.
pub fn change_directory(manager: &mut OpenCodeManager, path: &str, lookup: PathLookup) -> (r:
    Result<DirectoryChangeResponse, ErrorKind>)
    ensures
        directory_change_is(r, old(manager)@, final(manager)@, path@, lookup),
{
    match lookup {
        PathLookup::Missing => Err(ErrorKind::NotFound),
        PathLookup::NotDirectory => Err(ErrorKind::Validation),
        PathLookup::Directory => {
            let current = manager.get_working_directory();
            let running = manager.current_port().is_some();
            if str_eq(current.as_str(), path) && running {
                Ok(DirectoryChangeResponse { success: true, restarted: false, path: path.to_owned() })
            } else {
                manager.set_working_directory(path.to_owned());
                Ok(DirectoryChangeResponse { success: true, restarted: true, path: path.to_owned() })
            }
        },
    }
}

/// Decides a request to change the working directory from the text of
/// the request. A blank text is refused as invalid, whatever `lookup` says,
/// and nothing changes. Otherwise the path is the text without the white
/// space at its ends, `lookup` is what a look at that path found, and the
/// request is decided as `change_directory` decides it.
pub fn change_directory_handler(manager: &mut OpenCodeManager, raw: &str, lookup: PathLookup) -> (r:
    Result<DirectoryChangeResponse, ErrorKind>)
    ensures
        trim_seq(raw@).len() == 0 ==> r == Err::<DirectoryChangeResponse, ErrorKind>(
            ErrorKind::Validation,
        ) && final(manager)@ == old(manager)@,
        trim_seq(raw@).len() > 0 ==> directory_change_is(
            r,
            old(manager)@,
            final(manager)@,
            trim_seq(raw@),
            lookup,
        ),
{
    match requested_directory(raw) {
        None => Err(ErrorKind::Validation),
        Some(path) => change_directory(manager, path.as_str(), lookup),
    }
}

/// The reply to a request to change the working directory, once the
/// restart that the answer asked for is over: a failed restart is an
/// internal error; otherwise, and where the answer asked for no restart, the
/// reply is the answer.
pub fn finish_directory_change(answer: DirectoryChangeResponse, restart_failed: bool) -> (r:
    Result<DirectoryChangeResponse, ErrorKind>)
    ensures
        r == if answer.restarted && restart_failed {
            Err::<DirectoryChangeResponse, ErrorKind>(ErrorKind::Internal)
        } else {
            Ok::<DirectoryChangeResponse, ErrorKind>(answer)
        },
{
    if answer.restarted && restart_failed {
        Err(ErrorKind::Internal)
    } else {
        Ok(answer)
    }
}

/// The address that a request is forwarded to: the loopback address of
/// the process, the rewritten path, and the query string as it came.
pub open spec fn proxy_target_seq(port: u16, origin_path: Seq<char>, query: Option<Seq<char>>)
    -> Seq<char> {
    let base = "http://127.0.0.1:"@ + decimal_digits(port as nat) + rewrite_path_seq(origin_path);
    match query {
        Some(q) => base + seq!['?'] + q,
        None => base,
    }
}

/// The address that a request is forwarded to; the failure to reach the
/// process where its port is not known.
pub fn proxy_target(port: Option<u16>, origin_path: &str, query: Option<&str>) -> (r: Result<
    String,
    ErrorKind,
>)
    ensures
        port is None ==> r == Err::<String, ErrorKind>(ErrorKind::Unreachable),
        port is Some ==> (r matches Ok(target) && target@ == proxy_target_seq(
            port->0,
            origin_path@,
            match query {
                Some(q) => Some(q@),
                None => None,
            },
        )),
{
    match port {
        None => Err(ErrorKind::Unreachable),
        Some(p) => {
            let mut out = chars_of("http://127.0.0.1:");
            append_chars(&mut out, &decimal_chars(p as u64));
            append_chars(&mut out, &chars_of(rewrite_path(origin_path).as_str()));
            if let Some(q) = query {
                out.push('?');
                append_chars(&mut out, &chars_of(q));
            }
            Ok(string_of(&out))
        },
    }
}

/// A header of a request or a response.
pub struct Header {
    pub name: String,
    pub value: String,
}

/// The names and values of a list of headers.
pub open spec fn headers_view(headers: Seq<Header>) -> Seq<(Seq<char>, Seq<char>)> {
    Seq::new(headers.len(), |i: int| (headers[i].name@, headers[i].value@))
}

/// Whether a header of the incoming request is left out of the forwarded
/// one: `host`, which is set anew, the hop-by-hop `connection` header, and
/// `content-length`.
pub open spec fn drops_request_header(name: Seq<char>) -> bool {
    same_ignoring_ascii_case(name, "host"@) || same_ignoring_ascii_case(name, "connection"@)
        || same_ignoring_ascii_case(name, "content-length"@)
}

/// Whether the request asks for an event stream: one of its `accept`
/// headers holds `text/event-stream`.
pub open spec fn accepts_event_stream(headers: Seq<(Seq<char>, Seq<char>)>) -> bool
    decreases headers.len(),
{
    if headers.len() == 0 {
        false
    } else {
        (same_ignoring_ascii_case(headers.last().0, "accept"@) && has_sub(
            headers.last().1,
            "text/event-stream"@,
        )) || accepts_event_stream(headers.drop_last())
    }
}

/// The headers of the incoming request that are forwarded, in order.
pub open spec fn kept_request_headers(headers: Seq<(Seq<char>, Seq<char>)>) -> Seq<
    (Seq<char>, Seq<char>),
>
    decreases headers.len(),
{
    if headers.len() == 0 {
        headers
    } else if drops_request_header(headers.last().0) {
        kept_request_headers(headers.drop_last())
    } else {
        kept_request_headers(headers.drop_last()).push(headers.last())
    }
}

/// The headers of the forwarded request: the host of the process, then
/// the incoming headers that are kept, then `connection: keep-alive` where
/// the request asks for an event stream.
pub open spec fn forwarded_headers(port: u16, headers: Seq<(Seq<char>, Seq<char>)>) -> Seq<
    (Seq<char>, Seq<char>),
> {
    let host = ("host"@, "127.0.0.1:"@ + decimal_digits(port as nat));
    let kept = seq![host] + kept_request_headers(headers);
    if accepts_event_stream(headers) {
        kept.push(("connection"@, "keep-alive"@))
    } else {
        kept
    }
}

/// Whether a header name is `expected`, in any ASCII case.
fn header_is(name: &str, expected: &str) -> (r: bool)
    ensures
        r == same_ignoring_ascii_case(name@, expected@),
{
    eq_ignore_ascii_case(&chars_of(name), &chars_of(expected))
}

/// Builds the headers of the forwarded request.
pub fn forward_request_headers(port: u16, headers: &Vec<Header>) -> (r: Vec<Header>)
    ensures
        headers_view(r@) == forwarded_headers(port, headers_view(headers@)),
{
    let mut out: Vec<Header> = Vec::new();
    let mut host = chars_of("127.0.0.1:");
    append_chars(&mut host, &decimal_chars(port as u64));
    out.push(Header { name: "host".to_owned(), value: string_of(&host) });
    let ghost first = ("host"@, "127.0.0.1:"@ + decimal_digits(port as nat));
    let ghost all = headers_view(headers@);
    let mut streams = false;
    let mut i: usize = 0;
    proof {
        assert(all.take(0) =~= Seq::<(Seq<char>, Seq<char>)>::empty());
        assert(headers_view(out@) =~= seq![first] + kept_request_headers(all.take(0)));
    }
    while i < headers.len()
        invariant
            i <= headers.len(),
            all == headers_view(headers@),
            headers_view(out@) == seq![first] + kept_request_headers(all.take(i as int)),
            streams == accepts_event_stream(all.take(i as int)),
        decreases headers.len() - i,
    {
        let header = &headers[i];
        proof {
            assert(all.take(i + 1).drop_last() =~= all.take(i as int));
            assert(all.take(i + 1).last() == (header.name@, header.value@));
        }
        let name = header.name.as_str();
        if header_is(name, "accept") && contains_sub(
            &chars_of(header.value.as_str()),
            &chars_of("text/event-stream"),
        ) {
            streams = true;
        }
        if !(header_is(name, "host") || header_is(name, "connection") || header_is(
            name,
            "content-length",
        )) {
            let ghost before = headers_view(out@);
            out.push(Header { name: header.name.clone(), value: header.value.clone() });
            assert(headers_view(out@) =~= before.push((header.name@, header.value@)));
            assert(headers_view(out@) =~= seq![first] + kept_request_headers(all.take(i + 1)));
        }
        i += 1;
    }
    assert(all.take(headers.len() as int) =~= all);
    if streams {
        let ghost before = headers_view(out@);
        out.push(Header { name: "connection".to_owned(), value: "keep-alive".to_owned() });
        assert(headers_view(out@) =~= before.push(("connection"@, "keep-alive"@)));
    }
    out
}

/// Whether a header of the process's response is handed back to the
/// client: all but the hop-by-hop `connection` header.
pub fn keeps_response_header(name: &str) -> (r: bool)
    ensures
        r == !same_ignoring_ascii_case(name@, "connection"@),
{
    !header_is(name, "connection")
}

} // verus!
