use simprint_runtime::infrastructure::eventbus::{AuthInfo, EventBusState, UserInfo};
use simprint_runtime::services::auth::types::{AuthCommandRequest, AuthCommandResponse};
use simprint_runtime::services::auth::{anonymous_auth_info, AuthPhase, AuthRuntime, AuthStateStore};
use simprint_runtime::services::sync::types::{SyncCommandRequest, SyncCommandResponse};
use simprint_runtime::services::sync::{running_environments, SyncModulePhase, SyncRuntimeModule};
use simprint_runtime::app::RuntimeError;

fn signed_in(token: &str) -> AuthInfo {
    AuthInfo {
        is_authenticated: true,
        access_token: Some(token.into()),
        user_info: Some(UserInfo {
            user_id: "user-1".into(),
            username: "tester".into(),
            email: Some("tester@example.com".into()),
        }),
    }
}

#[test]
fn auth_runtime_initializes_from_context_and_updates_state() {
    let mut store = AuthStateStore::new();
    let mut runtime = AuthRuntime::new();
    runtime.on_runtime_start(&mut store);
    runtime.on_context_initialize(&mut store, Some(signed_in("token-1"))).unwrap();
    assert_eq!(store.snapshot().is_authenticated, true);

    let r = runtime
        .execute_command(
            &mut store,
            AuthCommandRequest::SetAuthState {
                auth_info: AuthInfo { is_authenticated: true, access_token: Some("token-2".into()), user_info: None },
            },
        )
        .unwrap();
    assert!(matches!(r, AuthCommandResponse::Ack));

    match runtime.execute_command(&mut store, AuthCommandRequest::GetAuthState).unwrap() {
        AuthCommandResponse::State { auth_info } => {
            assert_eq!(auth_info.access_token.as_deref(), Some("token-2"));
        }
        other => panic!("unexpected response: {:?}", other),
    }

    runtime.on_context_destroy(&mut store);
    assert_eq!(store.snapshot().is_authenticated, false);
}

#[test]
fn auth_commands_need_a_context() {
    let mut store = AuthStateStore::new();
    let mut runtime = AuthRuntime::new();
    assert_eq!(runtime.phase(), AuthPhase::Dormant);
    assert_eq!(runtime.phase().as_str(), "dormant");
    match runtime.execute_command(&mut store, AuthCommandRequest::GetAuthState) {
        Err(e) => assert_eq!(e.to_string(), "invalid runtime state: auth runtime requires initialized context"),
        Ok(_) => panic!(),
    }
    match runtime.on_context_initialize(&mut store, None) {
        Err(e) => assert_eq!(
            e.to_string(),
            "invalid runtime state: auth runtime requires runtime_started before context init"
        ),
        Ok(_) => panic!(),
    }
    runtime.on_runtime_start(&mut store);
    runtime.on_context_initialize(&mut store, None).unwrap();
    assert_eq!(runtime.phase().as_str(), "context_ready");
    store.replace(signed_in("t"));
    runtime.execute_command(&mut store, AuthCommandRequest::ClearAuthState).unwrap();
    let a = store.snapshot();
    assert!(!a.is_authenticated && a.access_token.is_none() && a.user_info.is_none());
    assert!(AuthCommandRequest::ClearAuthState.changes_auth_state());
    assert!(!AuthCommandRequest::GetAuthState.changes_auth_state());
    runtime.on_runtime_shutdown(&mut store);
    assert_eq!(runtime.phase(), AuthPhase::RuntimeStopped);
    assert!(runtime.healthy());
    assert_eq!(runtime.name(), "auth");
    assert!(!anonymous_auth_info().is_authenticated);
}

#[test]
fn sync_commands_update_eventbus_sync_state() {
    let mut bus = Some(EventBusState::new());
    bus.as_mut().unwrap().set_sync_state(None, vec![]);

    let mut module = SyncRuntimeModule::new();
    module.on_runtime_start();
    module.on_context_initialize().unwrap();

    let (response, notices) = module
        .execute_command(
            &mut bus,
            SyncCommandRequest::StartSync {
                master_env_id: "master-1".into(),
                slave_env_ids: vec!["slave-1".into(), "slave-2".into()],
            },
        )
        .unwrap();
    assert!(matches!(response, SyncCommandResponse::Ack));
    assert_eq!(
        notices,
        vec![("master-1".to_string(), 1u8), ("slave-1".to_string(), 2u8), ("slave-2".to_string(), 2u8)]
    );

    let (master, slaves) = bus.as_ref().unwrap().get_sync_state();
    assert_eq!(master.as_deref(), Some("master-1"));
    assert_eq!(slaves, vec!["slave-1".to_string(), "slave-2".to_string()]);

    let (response, notices) = module.execute_command(&mut bus, SyncCommandRequest::StopSync).unwrap();
    assert!(matches!(response, SyncCommandResponse::Ack));
    assert_eq!(
        notices,
        vec![("master-1".to_string(), 0u8), ("slave-1".to_string(), 0u8), ("slave-2".to_string(), 0u8)]
    );

    let (master, slaves) = bus.as_ref().unwrap().get_sync_state();
    assert_eq!(master, None);
    assert!(slaves.is_empty());
    let (running, m, s) = module.sync_state();
    assert!(!running && m.is_none() && s.is_empty());
}

#[test]
fn sync_without_event_bus_or_context() {
    let mut none: Option<EventBusState> = None;
    let mut module = SyncRuntimeModule::new();
    match module.execute_command(&mut none, SyncCommandRequest::StopSync) {
        Err(e) => assert_eq!(e.to_string(), "invalid runtime state: sync runtime requires initialized context"),
        Ok(_) => panic!(),
    }
    module.on_runtime_start();
    module.on_context_initialize().unwrap();
    assert_eq!(module.phase(), SyncModulePhase::ContextReady);
    match module.execute_command(&mut none, SyncCommandRequest::StopSync) {
        Err(RuntimeError::InvalidState(t)) => assert_eq!(t, "eventbus manager is not initialized"),
        other => panic!("unexpected {:?}", other.map(|_| ())),
    }
    match module.execute_command(&mut none, SyncCommandRequest::GetRunningEnvironments).unwrap().0 {
        SyncCommandResponse::RunningEnvironments { environments } => assert!(environments.is_empty()),
        other => panic!("unexpected {:?}", other),
    }
    assert!(module.on_context_destroy(&mut none).is_err());
    assert_eq!(module.phase(), SyncModulePhase::ContextReady);
}

#[test]
fn running_environments_list_connected_ones() {
    let mut bus = Some(EventBusState::new());
    bus.as_mut().unwrap().register("env-a");
    bus.as_mut().unwrap().register("env-b");
    let listed = running_environments(&bus.as_ref().unwrap().connected_envs());
    assert_eq!(listed.len(), 2);
    assert_eq!(listed[0].uuid, "env-a");
    assert_eq!(listed[0].name, "env-a");
    assert_eq!(listed[1].status, "running");

    let mut module = SyncRuntimeModule::new();
    module.on_runtime_start();
    module.on_context_initialize().unwrap();
    let notices = module.on_runtime_shutdown(&mut bus).unwrap();
    assert!(notices.is_empty());
    assert_eq!(module.phase(), SyncModulePhase::RuntimeStopped);
    assert_eq!(module.phase().as_str(), "runtime_stopped");
}

#[test]
fn modules_report_no_recorded_error() {
    let mut auth = AuthRuntime::new();
    let mut store = AuthStateStore::new();
    auth.on_runtime_start(&mut store);
    assert!(auth.healthy());
    assert_eq!(auth.last_error(), None);

    let mut sync = SyncRuntimeModule::new();
    sync.on_runtime_start();
    assert!(sync.healthy());
    assert_eq!(sync.last_error(), None);

    let mut environment = simprint_runtime::services::environment::EnvironmentRuntimeModule::new();
    environment.on_runtime_start();
    assert!(environment.healthy());
    assert_eq!(environment.last_error(), None);
}
