//! The configuration routes of the gateway: which entity a request names,
//! what it asks for, and what the gateway answers.
use vstd::prelude::*;
use vstd::string::*;
use crate::config::{is_built_in, ConfigSources};
use crate::config_update::{kind_label, kind_label_of, EntityKind};
use crate::text::{
    append_chars, chars_of, slice_chars, starts_with, str_eq, string_of, trim_chars, trim_seq,
};

verus! {

/// How long the client waits before it reloads after a change.
pub const CLIENT_RELOAD_DELAY_MS: u64 = 800;

/// What a request on a configuration path names.
pub enum ConfigRoute {
    /// The entity of this kind and name.
    Entity { kind: EntityKind, name: String },
    /// An entity of this kind, but no name.
    MissingName(EntityKind),
    /// The reload of the configuration.
    Reload,
    /// Nothing that is served.
    NotFound,
}

/// The mathematical form of what a request names.
pub enum ConfigRouteView {
    Entity { kind: EntityKind, name: Seq<char> },
    MissingName(EntityKind),
    Reload,
    NotFound,
}

impl View for ConfigRoute {
    type V = ConfigRouteView;

    open spec fn view(&self) -> ConfigRouteView {
        match *self {
            ConfigRoute::Entity { kind, name } => ConfigRouteView::Entity { kind, name: name@ },
            ConfigRoute::MissingName(kind) => ConfigRouteView::MissingName(kind),
            ConfigRoute::Reload => ConfigRouteView::Reload,
            ConfigRoute::NotFound => ConfigRouteView::NotFound,
        }
    }
}

/// The entity named by what follows the prefix of its kind: the name is
/// the rest of the path without the white space at its ends.
pub open spec fn entity_route(kind: EntityKind, rest: Seq<char>) -> ConfigRouteView {
    if trim_seq(rest).len() == 0 {
        ConfigRouteView::MissingName(kind)
    } else {
        ConfigRouteView::Entity { kind, name: trim_seq(rest) }
    }
}

/// What a request on a configuration path names.
pub open spec fn config_route_of(path: Seq<char>, method: Seq<char>) -> ConfigRouteView {
    if "/api/config/agents/"@.is_prefix_of(path) {
        entity_route(EntityKind::Agent, path.skip("/api/config/agents/"@.len() as int))
    } else if "/api/config/commands/"@.is_prefix_of(path) {
        entity_route(EntityKind::Command, path.skip("/api/config/commands/"@.len() as int))
    } else if path == "/api/config/reload"@ && method == "POST"@ {
        ConfigRouteView::Reload
    } else {
        ConfigRouteView::NotFound
    }
}

/// The entity named by the rest of a path.
fn entity_of(kind: EntityKind, chars: &Vec<char>, from: usize) -> (r: ConfigRoute)
    requires
        from <= chars.len(),
    ensures
        r@ == entity_route(kind, chars@.skip(from as int)),
{
    let rest = slice_chars(chars, from, chars.len());
    assert(rest@ =~= chars@.skip(from as int));
    let name = trim_chars(&rest);
    if name.len() == 0 {
        ConfigRoute::MissingName(kind)
    } else {
        ConfigRoute::Entity { kind, name: string_of(&name) }
    }
}

/// Finds what a request on a configuration path names.
pub fn handle_config_routes(path: &str, method: &str) -> (r: ConfigRoute)
    ensures
        r@ == config_route_of(path@, method@),
{
    let chars = chars_of(path);
    let agents = chars_of("/api/config/agents/");
    let commands = chars_of("/api/config/commands/");
    if starts_with(&chars, &agents) {
        entity_of(EntityKind::Agent, &chars, agents.len())
    } else if starts_with(&chars, &commands) {
        entity_of(EntityKind::Command, &chars, commands.len())
    } else if str_eq(path, "/api/config/reload") && str_eq(method, "POST") {
        ConfigRoute::Reload
    } else {
        ConfigRoute::NotFound
    }
}

/// What a request asks of an entity.
#[derive(Clone, Copy, Debug, PartialEq, Eq, Structural)]
pub enum ConfigOperation {
    /// Where the entity is defined.
    Read,
    /// Create it.
    Create,
    /// Update fields of it.
    Update,
    /// Delete it.
    Delete,
}

/// What a method asks of an entity; `None` for a method that is not
/// served.
pub fn config_operation(method: &str) -> (r: Option<ConfigOperation>)
    ensures
        r == if method@ == "GET"@ {
            Some(ConfigOperation::Read)
        } else if method@ == "POST"@ {
            Some(ConfigOperation::Create)
        } else if method@ == "PATCH"@ {
            Some(ConfigOperation::Update)
        } else if method@ == "DELETE"@ {
            Some(ConfigOperation::Delete)
        } else {
            None
        },
{
    if str_eq(method, "GET") {
        Some(ConfigOperation::Read)
    } else if str_eq(method, "POST") {
        Some(ConfigOperation::Create)
    } else if str_eq(method, "PATCH") {
        Some(ConfigOperation::Update)
    } else if str_eq(method, "DELETE") {
        Some(ConfigOperation::Delete)
    } else {
        None
    }
}

/// How an operation on the stores went.
pub enum ConfigOutcome {
    /// The stores were read or changed, and the process restarted after a
    /// change.
    Done,
    /// The stores could not be read or changed; the message says why.
    StoreFailed(String),
    /// The stores were changed, but the restart of the process failed.
    RestartFailed(String),
}

/// The answer to a request on a configuration route.
pub struct ConfigReply {
    /// The HTTP status.
    pub status: u16,
    /// Whether the request was carried out.
    pub success: bool,
    /// Whether the client reloads its interface.
    pub requires_reload: bool,
    /// The message for the user: of success, or of the failure.
    pub message: String,
    /// How long the client waits before it reloads.
    pub reload_delay_ms: u64,
}

/// The word for what an operation did.
pub open spec fn operation_verb(operation: ConfigOperation) -> Seq<char> {
    match operation {
        ConfigOperation::Read => "read"@,
        ConfigOperation::Create => "created"@,
        ConfigOperation::Update => "updated"@,
        ConfigOperation::Delete => "deleted"@,
    }
}

/// The word for the entity in the message of a failed read.
pub open spec fn kind_word(kind: EntityKind) -> Seq<char> {
    match kind {
        EntityKind::Agent => "agent"@,
        EntityKind::Command => "command"@,
    }
}

/// The status of an answer.
pub open spec fn reply_status(
    kind: EntityKind,
    operation: ConfigOperation,
    outcome: ConfigOutcome,
) -> u16 {
    match outcome {
        ConfigOutcome::Done => 200,
        ConfigOutcome::StoreFailed(_) => 500,
        ConfigOutcome::RestartFailed(_) => 500,
    }
}

/// The message of an answer.
pub open spec fn reply_message(
    kind: EntityKind,
    operation: ConfigOperation,
    name: Seq<char>,
    outcome: ConfigOutcome,
) -> Seq<char> {
    match outcome {
        ConfigOutcome::Done => kind_label(kind) + " "@ + name + " "@ + operation_verb(operation)
            + " successfully. Reloading interface..."@,
        ConfigOutcome::StoreFailed(message) => if operation == ConfigOperation::Read {
            "Failed to read "@ + kind_word(kind) + " configuration"@
        } else {
            message@
        },
        ConfigOutcome::RestartFailed(message) => "Failed to restart OpenCode: "@ + message@,
    }
}

/// Answers a request for an operation on an entity, given how the
/// operation went. A change that was carried out tells the client to
/// reload after a fixed delay; a failure is reported with its message, as
/// an internal error.
pub fn entity_reply(
    kind: EntityKind,
    operation: ConfigOperation,
    name: &str,
    outcome: &ConfigOutcome,
) -> (r: ConfigReply)
    ensures
        r.status == reply_status(kind, operation, *outcome),
        r.message@ == reply_message(kind, operation, name@, *outcome),
        r.success == (*outcome is Done),
        r.requires_reload == (*outcome is Done && operation != ConfigOperation::Read),
        r.reload_delay_ms == CLIENT_RELOAD_DELAY_MS,
{
    let is_read = match operation {
        ConfigOperation::Read => true,
        _ => false,
    };
    match outcome {
        ConfigOutcome::Done => {
            let verb = match operation {
                ConfigOperation::Read => "read",
                ConfigOperation::Create => "created",
                ConfigOperation::Update => "updated",
                ConfigOperation::Delete => "deleted",
            };
            let mut out = chars_of(kind_label_of(kind));
            append_chars(&mut out, &chars_of(" "));
            append_chars(&mut out, &chars_of(name));
            append_chars(&mut out, &chars_of(" "));
            append_chars(&mut out, &chars_of(verb));
            append_chars(&mut out, &chars_of(" successfully. Reloading interface..."));
            ConfigReply {
                status: 200,
                success: true,
                requires_reload: !is_read,
                message: string_of(&out),
                reload_delay_ms: CLIENT_RELOAD_DELAY_MS,
            }
        },
        ConfigOutcome::StoreFailed(message) => {
            let text = if is_read {
                let word = match kind {
                    EntityKind::Agent => "agent",
                    EntityKind::Command => "command",
                };
                let mut out = chars_of("Failed to read ");
                append_chars(&mut out, &chars_of(word));
                append_chars(&mut out, &chars_of(" configuration"));
                string_of(&out)
            } else {
                message.clone()
            };
            ConfigReply {
                status: 500,
                success: false,
                requires_reload: false,
                message: text,
                reload_delay_ms: CLIENT_RELOAD_DELAY_MS,
            }
        },
        ConfigOutcome::RestartFailed(message) => {
            let mut out = chars_of("Failed to restart OpenCode: ");
            append_chars(&mut out, &chars_of(message.as_str()));
            ConfigReply {
                status: 500,
                success: false,
                requires_reload: false,
                message: string_of(&out),
                reload_delay_ms: CLIENT_RELOAD_DELAY_MS,
            }
        },
    }
}

/// How far the work on a route of an entity has come.
pub enum RouteProgress {
    /// The operation on the stores is over; `failure` says why it failed,
    /// if it did.
    Stored { failure: Option<String> },
    /// The restart of the process is over; `failure` says why it failed,
    /// if it did.
    Restarted { failure: Option<String> },
}

/// What comes next on a route of an entity.
pub enum RouteStep {
    /// Restart the process, once, and report how it went.
    Restart,
    /// Answer with where the entity is defined.
    ReportSources,
    /// Answer with this reply.
    Reply(ConfigReply),
}

/// How the operation went, as far as the progress tells.
pub open spec fn outcome_of(progress: RouteProgress) -> ConfigOutcome {
    match progress {
        RouteProgress::Stored { failure: Some(message) } => ConfigOutcome::StoreFailed(message),
        RouteProgress::Stored { failure: None } => ConfigOutcome::Done,
        RouteProgress::Restarted { failure: Some(message) } => ConfigOutcome::RestartFailed(
            message,
        ),
        RouteProgress::Restarted { failure: None } => ConfigOutcome::Done,
    }
}

/// Whether a reply is the answer to an operation that went as `outcome`
/// says.
pub open spec fn reply_is(
    reply: ConfigReply,
    kind: EntityKind,
    operation: ConfigOperation,
    name: Seq<char>,
    outcome: ConfigOutcome,
) -> bool {
    &&& reply.status == reply_status(kind, operation, outcome)
    &&& reply.message@ == reply_message(kind, operation, name, outcome)
    &&& reply.success == (outcome is Done)
    &&& reply.requires_reload == (outcome is Done && operation != ConfigOperation::Read)
    &&& reply.reload_delay_ms == CLIENT_RELOAD_DELAY_MS
}

/// Whether the process is to be restarted next: the stores were changed,
/// that is the operation on them succeeded and was no read.
pub open spec fn restarts_next(operation: ConfigOperation, progress: RouteProgress) -> bool {
    progress == (RouteProgress::Stored { failure: None }) && operation != ConfigOperation::Read
}

/// Whether the sources are reported next: they were read.
pub open spec fn reports_sources_next(operation: ConfigOperation, progress: RouteProgress)
    -> bool {
    progress == (RouteProgress::Stored { failure: None }) && operation == ConfigOperation::Read
}

/// Decides what comes next on a route of an entity. A change of the
/// stores is followed by one restart of the process and then by the reply;
/// a read and a failed operation on the stores are answered without a
/// restart.
pub fn route_step(
    kind: EntityKind,
    operation: ConfigOperation,
    name: &str,
    progress: &RouteProgress,
) -> (r: RouteStep)
    ensures
        r is Restart <==> restarts_next(operation, *progress),
        r is ReportSources <==> reports_sources_next(operation, *progress),
        r matches RouteStep::Reply(reply) ==> reply_is(
            reply,
            kind,
            operation,
            name@,
            outcome_of(*progress),
        ),
{
    match progress {
        RouteProgress::Stored { failure: None } => {
            match operation {
                ConfigOperation::Read => RouteStep::ReportSources,
                _ => RouteStep::Restart,
            }
        },
        RouteProgress::Stored { failure: Some(message) } => {
            let outcome = ConfigOutcome::StoreFailed(message.clone());
            RouteStep::Reply(entity_reply(kind, operation, name, &outcome))
        },
        RouteProgress::Restarted { failure: None } => {
            RouteStep::Reply(entity_reply(kind, operation, name, &ConfigOutcome::Done))
        },
        RouteProgress::Restarted { failure: Some(message) } => {
            let outcome = ConfigOutcome::RestartFailed(message.clone());
            RouteStep::Reply(entity_reply(kind, operation, name, &outcome))
        },
    }
}

/// Decides what comes next on the route of an agent.
pub fn handle_agent_route(operation: ConfigOperation, name: &str, progress: &RouteProgress) -> (r:
    RouteStep)
    ensures
        r is Restart <==> restarts_next(operation, *progress),
        r is ReportSources <==> reports_sources_next(operation, *progress),
        r matches RouteStep::Reply(reply) ==> reply_is(
            reply,
            EntityKind::Agent,
            operation,
            name@,
            outcome_of(*progress),
        ),
{
    route_step(EntityKind::Agent, operation, name, progress)
}

/// Decides what comes next on the route of a command.
pub fn handle_command_route(operation: ConfigOperation, name: &str, progress: &RouteProgress) -> (r:
    RouteStep)
    ensures
        r is Restart <==> restarts_next(operation, *progress),
        r is ReportSources <==> reports_sources_next(operation, *progress),
        r matches RouteStep::Reply(reply) ==> reply_is(
            reply,
            EntityKind::Command,
            operation,
            name@,
            outcome_of(*progress),
        ),
{
    route_step(EntityKind::Command, operation, name, progress)
}

/// On a route of an entity the process is restarted at most once: a
/// restart is asked for only after the operation on the stores, and what
/// follows the restart is always the reply. A read and a failed operation on
/// the stores never lead to a restart.
pub proof fn lemma_one_restart_per_change(operation: ConfigOperation, progress: RouteProgress)
    ensures
        progress is Restarted ==> !restarts_next(operation, progress),
        operation == ConfigOperation::Read ==> !restarts_next(operation, progress),
        progress matches RouteProgress::Stored { failure: Some(_) } ==> !restarts_next(
            operation,
            progress,
        ),
        progress == (RouteProgress::Stored { failure: None }) && operation
            != ConfigOperation::Read ==> restarts_next(operation, progress),
{
}

/// Answers a request to reload the configuration, given the failure of the
/// restart, if it failed.
pub fn reload_reply(restart_failure: Option<&str>) -> (r: ConfigReply)
    ensures
        r.success == restart_failure is None,
        r.requires_reload == restart_failure is None,
        r.status == if restart_failure is None {
            200u16
        } else {
            500u16
        },
        r.message@ == match restart_failure {
            None => "Configuration reloaded successfully. Refreshing interface..."@,
            Some(message) => "Failed to restart OpenCode: "@ + message@,
        },
        r.reload_delay_ms == CLIENT_RELOAD_DELAY_MS,
{
    match restart_failure {
        None => ConfigReply {
            status: 200,
            success: true,
            requires_reload: true,
            message: "Configuration reloaded successfully. Refreshing interface...".to_owned(),
            reload_delay_ms: CLIENT_RELOAD_DELAY_MS,
        },
        Some(message) => {
            let mut out = chars_of("Failed to restart OpenCode: ");
            append_chars(&mut out, &chars_of(message));
            ConfigReply {
                status: 500,
                success: false,
                requires_reload: false,
                message: string_of(&out),
                reload_delay_ms: CLIENT_RELOAD_DELAY_MS,
            }
        },
    }
}

/// The message for a request that names no entity.
pub fn missing_name_message(kind: EntityKind) -> (r: String)
    ensures
        r@ == kind_label(kind) + " name is required"@,
{
    let mut out = chars_of(kind_label_of(kind));
    append_chars(&mut out, &chars_of(" name is required"));
    string_of(&out)
}

/// Where an entity is defined, as the gateway reports it.
pub struct ConfigMetadataResponse {
    pub name: String,
    pub sources: ConfigSources,
    pub is_built_in: bool,
}

/// Reports where an entity is defined; one that neither store defines is
/// built in.
pub fn config_metadata(name: String, sources: ConfigSources) -> (r: ConfigMetadataResponse)
    ensures
        r.name == name,
        r.sources == sources,
        r.is_built_in == (!sources.md.exists && !sources.json.exists),
{
    let built_in = is_built_in(&sources);
    ConfigMetadataResponse { name, sources, is_built_in: built_in }
}

} // verus!
