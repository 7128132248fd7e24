use openchamber_core::config::{ConfigSources, SourceInfo};
use openchamber_core::config_routes::{
    config_metadata, config_operation, entity_reply, handle_agent_route, handle_command_route,
    handle_config_routes, missing_name_message, reload_reply, ConfigOperation, ConfigOutcome,
    ConfigReply, ConfigRoute, RouteProgress, RouteStep, CLIENT_RELOAD_DELAY_MS,
};
use openchamber_core::config_update::EntityKind;
use openchamber_core::gateway::{
    change_directory, change_directory_handler, classify_route, finish_directory_change,
    forward_request_headers, health, keeps_response_header, kind_of, proxy_failure_status, proxy_target, requested_directory, status_of, ErrorKind,
    Header, ModelsMetadataCache, PathLookup, ProxyFailure, ProxyRoute,
    MODELS_METADATA_CACHE_TTL_MS, MODELS_METADATA_REQUEST_TIMEOUT_MS,
};
use openchamber_core::supervisor::{OpenCodeManager, SupervisorError};

fn running_manager() -> OpenCodeManager {
    let mut m = OpenCodeManager::new_with_directory(
        Some("opencode".to_string()),
        Some("/work".to_string()),
        ".".to_string(),
        None,
        None,
    );
    m.spawn_process();
    m.ingest_output_line("listening on http://127.0.0.1:4567");
    m.mark_ready();
    m
}

fn header(name: &str, value: &str) -> Header {
    Header { name: name.to_string(), value: value.to_string() }
}

fn pairs(headers: &[Header]) -> Vec<(String, String)> {
    headers.iter().map(|h| (h.name.clone(), h.value.clone())).collect()
}

#[test]
fn routes_by_method_and_path() {
    assert_eq!(classify_route("GET", "/health"), ProxyRoute::Health);
    assert_eq!(classify_route("POST", "/health"), ProxyRoute::MethodNotAllowed);
    assert_eq!(classify_route("GET", "/api/openchamber/models-metadata"), ProxyRoute::CachedMetadata);
    assert_eq!(classify_route("POST", "/api/opencode/directory"), ProxyRoute::DirectoryChange);
    assert_eq!(classify_route("GET", "/api/opencode/directory"), ProxyRoute::MethodNotAllowed);
    assert_eq!(classify_route("PATCH", "/api/config/agents/build"), ProxyRoute::ConfigEntity);
    assert_eq!(classify_route("DELETE", "/api/config/commands/x"), ProxyRoute::ConfigEntity);
    assert_eq!(classify_route("POST", "/api/config/reload"), ProxyRoute::ConfigEntity);
    assert_eq!(classify_route("GET", "/api/config"), ProxyRoute::GenericProxy);
    assert_eq!(classify_route("GET", "/api"), ProxyRoute::GenericProxy);
    assert_eq!(classify_route("PUT", "/api/session/1"), ProxyRoute::GenericProxy);
    assert_eq!(classify_route("GET", "/apix"), ProxyRoute::NotFound);
    assert_eq!(classify_route("GET", "/"), ProxyRoute::NotFound);
}

#[test]
fn failures_map_to_statuses() {
    assert_eq!(status_of(ErrorKind::Unavailable), 503);
    assert_eq!(status_of(ErrorKind::Timeout), 503);
    assert_eq!(proxy_failure_status(ProxyFailure::NoPort), 503);
    assert_eq!(proxy_failure_status(ProxyFailure::BodyUnreadable), 502);
    assert_eq!(proxy_failure_status(ProxyFailure::NoAnswer), 502);
    assert_eq!(kind_of(SupervisorError::Unavailable), ErrorKind::Unavailable);
    assert_eq!(kind_of(SupervisorError::ImmediateExit), ErrorKind::Internal);
    assert_eq!(kind_of(SupervisorError::PortTimeout), ErrorKind::Timeout);
    assert_eq!(kind_of(SupervisorError::ReadyTimeout), ErrorKind::Timeout);
    assert_eq!(status_of(ErrorKind::Unreachable), 502);
    assert_eq!(status_of(ErrorKind::Validation), 400);
    assert_eq!(status_of(ErrorKind::NotFound), 404);
    assert_eq!(status_of(ErrorKind::Internal), 500);
}

#[test]
fn health_reflects_the_supervisor() {
    let m = running_manager();
    let report = health(&m, 9000, true);
    assert_eq!(report.status, "ok");
    assert_eq!(report.server_port, 9000);
    assert_eq!(report.opencode_port, Some(4567));
    assert_eq!(report.api_prefix, "");
    assert!(report.is_opencode_ready);
    assert!(report.cli_available);
    let idle = OpenCodeManager::new_with_directory(None, None, ".".to_string(), None, None);
    let report = health(&idle, 9000, false);
    assert_eq!(report.status, "ok");
    assert_eq!(report.opencode_port, None);
    assert!(!report.is_opencode_ready);
    assert!(!report.cli_available);
}

#[test]
fn metadata_cache_is_fresh_for_five_minutes() {
    let mut cache = ModelsMetadataCache::new();
    assert_eq!(cache.fresh_payload(0), None);
    assert_eq!(cache.after_failed_fetch(), Err(ErrorKind::Unreachable));
    cache.refresh("{\"a\":1}".to_string(), 1000);
    assert_eq!(cache.fresh_payload(1000), Some("{\"a\":1}".to_string()));
    assert_eq!(cache.fresh_payload(1000 + 299_999), Some("{\"a\":1}".to_string()));
    assert_eq!(cache.fresh_payload(1000 + 300_000), None);
    assert_eq!(cache.after_failed_fetch(), Ok("{\"a\":1}".to_string()));
    cache.refresh("{}".to_string(), 400_000);
    assert_eq!(cache.fresh_payload(400_001), Some("{}".to_string()));
    assert_eq!(MODELS_METADATA_CACHE_TTL_MS, 5 * 60 * 1000);
    assert_eq!(MODELS_METADATA_REQUEST_TIMEOUT_MS, 8000);
}

#[test]
fn requested_directory_is_trimmed() {
    assert_eq!(requested_directory("  /work \n"), Some("/work".to_string()));
    assert_eq!(requested_directory("   "), None);
    assert_eq!(requested_directory(""), None);
}

#[test]
fn changing_to_the_active_directory_does_not_restart() {
    let mut m = running_manager();
    let answer = change_directory(&mut m, "/work", PathLookup::Directory).ok().unwrap();
    assert!(answer.success);
    assert!(!answer.restarted);
    assert_eq!(answer.path, "/work");
    assert_eq!(m.current_port(), Some(4567));
    assert_eq!(m.get_working_directory(), "/work");
    assert!(m.is_ready());
}

#[test]
fn changing_to_another_directory_restarts() {
    let mut m = running_manager();
    let answer = change_directory(&mut m, "/other", PathLookup::Directory).ok().unwrap();
    assert!(answer.success);
    assert!(answer.restarted);
    assert_eq!(answer.path, "/other");
    assert_eq!(m.get_working_directory(), "/other");
}

#[test]
fn the_active_directory_restarts_while_no_port_is_known() {
    let mut m = OpenCodeManager::new_with_directory(
        Some("opencode".to_string()),
        Some("/work".to_string()),
        ".".to_string(),
        None,
        None,
    );
    let answer = change_directory(&mut m, "/work", PathLookup::Directory).ok().unwrap();
    assert!(answer.restarted);
}

#[test]
fn a_bad_directory_is_refused() {
    let mut m = running_manager();
    assert_eq!(change_directory(&mut m, "/nope", PathLookup::Missing).err(), Some(ErrorKind::NotFound));
    assert_eq!(
        change_directory(&mut m, "/etc/hosts", PathLookup::NotDirectory).err(),
        Some(ErrorKind::Validation)
    );
    assert_eq!(m.get_working_directory(), "/work");
}

#[test]
fn proxy_target_rewrites_path_and_keeps_query() {
    assert_eq!(proxy_target(None, "/api/x", None), Err(ErrorKind::Unreachable));
    assert_eq!(
        proxy_target(Some(4567), "/api/session", Some("a=1&b=2")),
        Ok("http://127.0.0.1:4567/session?a=1&b=2".to_string())
    );
    assert_eq!(proxy_target(Some(80), "/api", None), Ok("http://127.0.0.1:80/".to_string()));
    assert_eq!(proxy_target(Some(80), "/api/event", Some("")), Ok("http://127.0.0.1:80/event?".to_string()));
}

#[test]
fn forwarded_headers_drop_hop_by_hop_and_length() {
    let incoming = vec![
        header("Host", "localhost:9000"),
        header("accept", "application/json"),
        header("Content-Length", "12"),
        header("connection", "close"),
        header("x-trace", "1"),
    ];
    let out = pairs(&forward_request_headers(4567, &incoming));
    assert_eq!(
        out,
        vec![
            ("host".to_string(), "127.0.0.1:4567".to_string()),
            ("accept".to_string(), "application/json".to_string()),
            ("x-trace".to_string(), "1".to_string()),
        ]
    );
}

#[test]
fn event_stream_requests_are_kept_alive() {
    let incoming = vec![header("Accept", "text/html, text/event-stream"), header("Connection", "close")];
    let out = pairs(&forward_request_headers(80, &incoming));
    assert_eq!(
        out,
        vec![
            ("host".to_string(), "127.0.0.1:80".to_string()),
            ("Accept".to_string(), "text/html, text/event-stream".to_string()),
            ("connection".to_string(), "keep-alive".to_string()),
        ]
    );
    assert!(!keeps_response_header("Connection"));
    assert!(!keeps_response_header("connection"));
    assert!(keeps_response_header("content-type"));
    assert!(keeps_response_header("content-length"));
}

#[test]
fn config_routes_name_entities() {
    match handle_config_routes("/api/config/agents/ build ", "GET") {
        ConfigRoute::Entity { kind, name } => {
            assert_eq!(kind, EntityKind::Agent);
            assert_eq!(name, "build");
        }
        _ => panic!("expected an agent"),
    }
    match handle_config_routes("/api/config/commands/deploy", "DELETE") {
        ConfigRoute::Entity { kind, name } => {
            assert_eq!(kind, EntityKind::Command);
            assert_eq!(name, "deploy");
        }
        _ => panic!("expected a command"),
    }
    assert!(matches!(
        handle_config_routes("/api/config/agents/", "GET"),
        ConfigRoute::MissingName(EntityKind::Agent)
    ));
    assert!(matches!(
        handle_config_routes("/api/config/commands/   ", "POST"),
        ConfigRoute::MissingName(EntityKind::Command)
    ));
    assert!(matches!(handle_config_routes("/api/config/reload", "POST"), ConfigRoute::Reload));
    assert!(matches!(handle_config_routes("/api/config/reload", "GET"), ConfigRoute::NotFound));
    assert!(matches!(handle_config_routes("/api/config/other", "GET"), ConfigRoute::NotFound));
    assert_eq!(missing_name_message(EntityKind::Agent), "Agent name is required");
    assert_eq!(missing_name_message(EntityKind::Command), "Command name is required");
}

#[test]
fn methods_map_to_operations() {
    assert_eq!(config_operation("GET"), Some(ConfigOperation::Read));
    assert_eq!(config_operation("POST"), Some(ConfigOperation::Create));
    assert_eq!(config_operation("PATCH"), Some(ConfigOperation::Update));
    assert_eq!(config_operation("DELETE"), Some(ConfigOperation::Delete));
    assert_eq!(config_operation("PUT"), None);
    assert_eq!(config_operation("get"), None);
}

fn reply_of(step: RouteStep) -> ConfigReply {
    match step {
        RouteStep::Reply(reply) => reply,
        _ => panic!("expected a reply"),
    }
}

fn stored(failure: Option<&str>) -> RouteProgress {
    RouteProgress::Stored { failure: failure.map(|f| f.to_string()) }
}

fn restarted(failure: Option<&str>) -> RouteProgress {
    RouteProgress::Restarted { failure: failure.map(|f| f.to_string()) }
}

#[test]
fn a_change_of_the_stores_is_followed_by_one_restart() {
    for operation in [ConfigOperation::Create, ConfigOperation::Update, ConfigOperation::Delete] {
        assert!(matches!(handle_agent_route(operation, "build", &stored(None)), RouteStep::Restart));
        assert!(matches!(handle_command_route(operation, "ship", &stored(None)), RouteStep::Restart));
        assert!(matches!(handle_agent_route(operation, "build", &restarted(None)), RouteStep::Reply(_)));
        assert!(matches!(
            handle_command_route(operation, "ship", &restarted(Some("x"))),
            RouteStep::Reply(_)
        ));
        assert!(matches!(
            handle_agent_route(operation, "build", &stored(Some("disk full"))),
            RouteStep::Reply(_)
        ));
    }
}

#[test]
fn a_read_is_never_followed_by_a_restart() {
    let read = ConfigOperation::Read;
    assert!(matches!(handle_agent_route(read, "build", &stored(None)), RouteStep::ReportSources));
    assert!(matches!(handle_command_route(read, "ship", &stored(None)), RouteStep::ReportSources));
    let reply = reply_of(handle_agent_route(read, "build", &stored(Some("disk"))));
    assert_eq!(reply.status, 500);
    assert_eq!(reply.message, "Failed to read agent configuration");
    let reply = reply_of(handle_command_route(read, "ship", &stored(Some("disk"))));
    assert_eq!(reply.message, "Failed to read command configuration");
}

#[test]
fn a_change_tells_the_client_to_reload() {
    let reply = reply_of(handle_agent_route(ConfigOperation::Create, "build", &restarted(None)));
    assert_eq!(reply.status, 200);
    assert!(reply.success);
    assert!(reply.requires_reload);
    assert_eq!(reply.message, "Agent build created successfully. Reloading interface...");
    assert_eq!(reply.reload_delay_ms, 800);
    assert_eq!(CLIENT_RELOAD_DELAY_MS, 800);
    let reply = reply_of(handle_command_route(ConfigOperation::Update, "ship", &restarted(None)));
    assert_eq!(reply.message, "Command ship updated successfully. Reloading interface...");
    let reply = reply_of(handle_command_route(ConfigOperation::Delete, "ship", &restarted(None)));
    assert_eq!(reply.message, "Command ship deleted successfully. Reloading interface...");
    let same = entity_reply(EntityKind::Command, ConfigOperation::Delete, "ship", &ConfigOutcome::Done);
    assert_eq!(same.message, reply.message);
}

#[test]
fn failures_of_config_routes() {
    let failure = "Agent build already exists as .md file";
    let reply = reply_of(handle_agent_route(ConfigOperation::Create, "build", &stored(Some(failure))));
    assert_eq!(reply.status, 500);
    assert!(!reply.success);
    assert!(!reply.requires_reload);
    assert_eq!(reply.message, failure);
    let odd = "Command \"x\" not found";
    assert_eq!(reply_of(handle_command_route(ConfigOperation::Delete, "x", &stored(Some(odd)))).status, 500);
    assert_eq!(reply_of(handle_agent_route(ConfigOperation::Delete, "x", &stored(Some(odd)))).status, 500);
    let reply = reply_of(handle_agent_route(ConfigOperation::Update, "x", &restarted(Some("no binary"))));
    assert_eq!(reply.status, 500);
    assert!(!reply.success);
    assert_eq!(reply.message, "Failed to restart OpenCode: no binary");
    let failed = ConfigOutcome::RestartFailed("no binary".to_string());
    assert_eq!(entity_reply(EntityKind::Agent, ConfigOperation::Update, "x", &failed).status, 500);
}

#[test]
fn reload_replies() {
    let ok = reload_reply(None);
    assert_eq!(ok.status, 200);
    assert!(ok.success && ok.requires_reload);
    assert_eq!(ok.message, "Configuration reloaded successfully. Refreshing interface...");
    let bad = reload_reply(Some("boom"));
    assert_eq!(bad.status, 500);
    assert!(!bad.success);
    assert_eq!(bad.message, "Failed to restart OpenCode: boom");
}

#[test]
fn an_entity_in_neither_store_is_built_in() {
    let none = || SourceInfo { exists: false, path: None, fields: vec![] };
    let some = || SourceInfo { exists: true, path: Some("p".to_string()), fields: vec!["model".to_string()] };
    assert!(config_metadata("a".to_string(), ConfigSources { md: none(), json: none() }).is_built_in);
    assert!(!config_metadata("a".to_string(), ConfigSources { md: some(), json: none() }).is_built_in);
    assert!(!config_metadata("a".to_string(), ConfigSources { md: none(), json: some() }).is_built_in);
    let both = config_metadata("a".to_string(), ConfigSources { md: some(), json: some() });
    assert!(!both.is_built_in);
    assert_eq!(both.name, "a");
    assert_eq!(both.sources.md.fields, vec!["model".to_string()]);
}

#[test]
fn a_blank_directory_is_invalid_whatever_the_lookup() {
    for lookup in [PathLookup::Missing, PathLookup::NotDirectory, PathLookup::Directory] {
        let mut m = running_manager();
        assert_eq!(change_directory_handler(&mut m, "   ", lookup).err(), Some(ErrorKind::Validation));
        assert_eq!(change_directory_handler(&mut m, "", lookup).err(), Some(ErrorKind::Validation));
        assert_eq!(m.get_working_directory(), "/work");
        assert_eq!(m.current_port(), Some(4567));
        assert!(m.is_ready());
    }
}

#[test]
fn the_directory_of_a_request_is_trimmed_and_decided() {
    let mut m = running_manager();
    assert_eq!(
        change_directory_handler(&mut m, " /nope ", PathLookup::Missing).err(),
        Some(ErrorKind::NotFound)
    );
    assert_eq!(
        change_directory_handler(&mut m, "/etc/hosts", PathLookup::NotDirectory).err(),
        Some(ErrorKind::Validation)
    );
    let same = change_directory_handler(&mut m, " /work\n", PathLookup::Directory).ok().unwrap();
    assert!(same.success && !same.restarted);
    assert_eq!(same.path, "/work");
    assert_eq!(m.current_port(), Some(4567));
    let other = change_directory_handler(&mut m, "  /other ", PathLookup::Directory).ok().unwrap();
    assert!(other.success && other.restarted);
    assert_eq!(other.path, "/other");
    assert_eq!(m.get_working_directory(), "/other");
}

#[test]
fn a_failed_restart_is_an_internal_error() {
    let mut m = running_manager();
    let answer = change_directory(&mut m, "/other", PathLookup::Directory).ok().unwrap();
    assert_eq!(finish_directory_change(answer, true).err(), Some(ErrorKind::Internal));
    assert_eq!(status_of(ErrorKind::Internal), 500);
    let answer = change_directory(&mut m, "/third", PathLookup::Directory).ok().unwrap();
    let reply = finish_directory_change(answer, false).ok().unwrap();
    assert!(reply.success && reply.restarted);
    assert_eq!(reply.path, "/third");
    let mut m = running_manager();
    let answer = change_directory(&mut m, "/work", PathLookup::Directory).ok().unwrap();
    let reply = finish_directory_change(answer, true).ok().unwrap();
    assert!(!reply.restarted);
}
