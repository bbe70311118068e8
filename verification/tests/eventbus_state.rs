use simprint_runtime::infrastructure::eventbus::transport::pipe_path_on;
use simprint_runtime::infrastructure::eventbus::manager::{
    not_connected, route_browser_message, same_text,
};
use simprint_runtime::infrastructure::eventbus::{
    get_pipe_path, BrowserMessageRoute, EnvConnectionPayload, EventBusError, EventBusState,
    PipeServer, Topic,
};

#[test]
fn test_pipe_path() {
    let path = get_pipe_path("env_123");
    assert_eq!(path, r"\\.\pipe\simprint_env_123");
}

#[test]
fn pipe_server_knows_its_environment_and_pipe() {
    let server = PipeServer::new("env_9");
    assert_eq!(server.env_id(), "env_9");
    assert_eq!(server.pipe_path(), r"\\.\pipe\simprint_env_9");
}

#[test]
fn connections_are_registered_once_and_dropped() {
    let mut bus = EventBusState::new();
    bus.register("a");
    bus.register("b");
    bus.register("a");
    assert_eq!(bus.connected_envs(), vec!["a".to_string(), "b".to_string()]);
    assert_eq!(bus.connected_env_count(), 2);
    assert!(bus.is_connected("b"));
    assert!(bus.unregister("a"));
    assert!(!bus.unregister("a"));
    assert!(!bus.is_connected("a"));
    assert_eq!(bus.connected_envs(), vec!["b".to_string()]);
    bus.register("c");
    assert_eq!(bus.drain(), vec!["b".to_string(), "c".to_string()]);
    assert_eq!(bus.connected_env_count(), 0);
}

#[test]
fn register_then_unregister_restores_the_list() {
    let mut bus = EventBusState::new();
    bus.register("x");
    bus.register("y");
    let before = bus.connected_envs();
    bus.register("z");
    bus.unregister("z");
    assert_eq!(bus.connected_envs(), before);
}

#[test]
fn input_is_forwarded_only_from_the_leader() {
    let mut bus = EventBusState::new();
    assert!(bus.forward_targets("m").is_none());
    bus.set_sync_state(Some("m".into()), vec!["s1".into(), "s2".into()]);
    assert_eq!(bus.forward_targets("m"), Some(vec!["s1".to_string(), "s2".to_string()]));
    assert!(bus.forward_targets("s1").is_none());
    bus.set_sync_state(Some("m".into()), vec![]);
    assert!(bus.forward_targets("m").is_none());
    let (master, slaves) = bus.get_sync_state();
    assert_eq!(master.as_deref(), Some("m"));
    assert!(slaves.is_empty());
}

#[test]
fn browser_frames_are_routed_by_topic() {
    assert_eq!(route_browser_message(Topic::AuthRequest), BrowserMessageRoute::AnswerAuth);
    assert_eq!(route_browser_message(Topic::SyncInputEvent), BrowserMessageRoute::ForwardSyncInput);
    assert_eq!(route_browser_message(Topic::SyncPaste), BrowserMessageRoute::ForwardPaste);
    assert_eq!(route_browser_message(Topic::SyncInputDebug), BrowserMessageRoute::LogSyncDebug);
    assert_eq!(route_browser_message(Topic::PageLoad), BrowserMessageRoute::Ignore);
}

#[test]
fn connection_reports_and_errors() {
    let up = EnvConnectionPayload::connected("e1");
    assert_eq!((up.env_id.as_str(), up.status.as_str()), ("e1", "connected"));
    let down = EnvConnectionPayload::disconnected("e1");
    assert_eq!(down.status, "disconnected");
    match not_connected("e7") {
        EventBusError::NotConnected(text) => assert_eq!(text, "env e7 not connected"),
        other => panic!("unexpected {:?}", other),
    }
    assert!(same_text("abc", "abc"));
    assert!(!same_text("abc", "abd"));
}

#[test]
fn pipe_names_follow_the_platform() {
    assert_eq!(pipe_path_on("env_123", true), r"\\.\pipe\simprint_env_123");
    assert_eq!(pipe_path_on("env_123", false), "simprint_env_123");
    let server = PipeServer::on_platform("env_9", false);
    assert_eq!(server.env_id(), "env_9");
    assert_eq!(server.pipe_path(), "simprint_env_9");
    let server = PipeServer::on_platform("env_9", true);
    assert_eq!(server.pipe_path(), r"\\.\pipe\simprint_env_9");
}

#[test]
fn operating_system_errors_keep_their_prefixes() {
    let io = || std::io::Error::new(std::io::ErrorKind::Other, "pipe broke");
    assert_eq!(EventBusError::Io(io()).to_string(), "io error: pipe broke");
    assert_eq!(
        simprint_runtime::infrastructure::ipc::IpcError::Io(io()).to_string(),
        "io error: pipe broke"
    );
    assert_eq!(
        simprint_runtime::app::RuntimeError::Ipc(simprint_runtime::infrastructure::ipc::IpcError::Io(io()))
            .to_string(),
        "ipc error: io error: pipe broke"
    );
    assert_eq!(
        simprint_runtime::app::RuntimeError::EventBus(EventBusError::Io(io())).to_string(),
        "eventbus error: io error: pipe broke"
    );
}
