use simprint_runtime::infrastructure::eventbus::EventBusState;
use simprint_runtime::services::environment::kernel::cdp::{list_url, no_available_port, version_url, CdpEndpointInfo, CdpEndpointManager};
use simprint_runtime::services::environment::kernel::launcher::{
    encode_window_bounds_payload, env_not_connected, launch_args, launch_delay_from, launch_delay_ms,
    normalize_env_id,
};
use simprint_runtime::services::environment::kernel::types::{BatchLaunchResult, EnvironmentCommandResponse};
use simprint_runtime::services::environment::kernel::KernelRuntime;
use simprint_runtime::services::environment::status::status_for_connection;
use simprint_runtime::services::environment::{
    EnvironmentModulePhase, EnvironmentRuntimeModule, EnvironmentStatus, EnvironmentStatusManager,
};
use simprint_runtime::app::RuntimeError;

#[test]
fn window_bounds_payload_is_little_endian_i32_sequence() {
    let payload = encode_window_bounds_payload(10, 20, 1280, 720).unwrap();

    assert_eq!(payload.len(), 16);
    assert_eq!(i32::from_le_bytes(payload[0..4].try_into().unwrap()), 10);
    assert_eq!(i32::from_le_bytes(payload[4..8].try_into().unwrap()), 20);
    assert_eq!(i32::from_le_bytes(payload[8..12].try_into().unwrap()), 1280);
    assert_eq!(i32::from_le_bytes(payload[12..16].try_into().unwrap()), 720);
}

#[test]
fn window_bounds_payload_rejects_non_positive_size() {
    assert!(encode_window_bounds_payload(0, 0, 0, 720).is_err());
    assert!(encode_window_bounds_payload(0, 0, 1280, -1).is_err());
}

#[test]
fn window_bounds_payload_negative_position_and_error_text() {
    let payload = encode_window_bounds_payload(-1, -2, 1, 1).unwrap();
    assert_eq!(i32::from_le_bytes(payload[0..4].try_into().unwrap()), -1);
    assert_eq!(i32::from_le_bytes(payload[4..8].try_into().unwrap()), -2);
    match encode_window_bounds_payload(0, 0, -5, 5) {
        Err(e) => assert_eq!(e.to_string(), "internal error: 窗口宽高必须大于 0"),
        Ok(_) => panic!(),
    }
}

#[test]
fn status_queries_return_runtime_environment_statuses() {
    let mut runtime = KernelRuntime::new();
    runtime.apply_connection_status("env-1", "connected");
    runtime.apply_connection_status("env-2", "disconnected");
    match runtime.get_environment_status("env-1") {
        EnvironmentCommandResponse::Status { status } => assert_eq!(status, Some(EnvironmentStatus::Running)),
        other => panic!("unexpected response: {:?}", other),
    }
    match runtime.get_all_environment_statuses() {
        EnvironmentCommandResponse::AllStatuses { statuses } => {
            assert_eq!(
                statuses,
                vec![
                    ("env-1".to_string(), EnvironmentStatus::Running),
                    ("env-2".to_string(), EnvironmentStatus::Stopped),
                ]
            );
        }
        other => panic!("unexpected response: {:?}", other),
    }
}

#[test]
fn browser_disconnect_marks_environment_stopped() {
    let mut runtime = KernelRuntime::new();
    assert_eq!(runtime.begin_launch("env-1", &vec![true]).unwrap(), 29200);
    assert_eq!(runtime.status_manager().get_status("env-1"), Some(EnvironmentStatus::Starting));
    assert_eq!(runtime.cdp_endpoint_manager().get_port("env-1"), Some(29200));
    runtime.mark_stopped("env-1");
    assert_eq!(runtime.status_manager().get_status("env-1"), Some(EnvironmentStatus::Stopped));
    assert_eq!(runtime.cdp_endpoint_manager().get_port("env-1"), None);
    assert_eq!(runtime.begin_launch("env-2", &vec![false, true]).unwrap(), 29201);
    runtime.launch_failed("env-2");
    assert_eq!(runtime.cdp_endpoint_manager().get_port("env-2"), None);
    assert_eq!(runtime.status_manager().get_status("env-2"), Some(EnvironmentStatus::Starting));
    runtime.clear_all();
    assert_eq!(runtime.status_manager().get_status("env-1"), None);
}

#[test]
fn status_table_reads_back_writes() {
    let mut m = EnvironmentStatusManager::new();
    m.set_status("a", EnvironmentStatus::Ready);
    m.set_status("b", EnvironmentStatus::Error);
    m.set_status("a", EnvironmentStatus::Running);
    assert_eq!(m.get_status("a"), Some(EnvironmentStatus::Running));
    assert_eq!(m.get_all_statuses().len(), 2);
    m.remove_status("a");
    assert_eq!(m.get_status("a"), None);
    assert_eq!(m.get_status("b"), Some(EnvironmentStatus::Error));
    m.clear();
    assert!(m.get_all_statuses().is_empty());
    assert_eq!(status_for_connection("connected"), Some(EnvironmentStatus::Running));
    assert_eq!(status_for_connection("weird"), None);
}

#[test]
fn cdp_ports_are_offered_in_order_and_skip_taken_ones() {
    let mut m = CdpEndpointManager::new();
    let all = m.candidate_ports();
    assert_eq!(all.len(), 300);
    assert_eq!(all[0], 29200);
    assert_eq!(all[299], 29499);
    assert_eq!(m.allocate_port("e1", &vec![true]).unwrap(), 29200);
    assert_eq!(m.allocate_port("e2", &vec![false, true]).unwrap(), 29202);
    let rest = m.candidate_ports();
    assert_eq!(rest.len(), 298);
    assert_eq!(&rest[..2], &[29201, 29203]);
    m.remove("e1");
    assert_eq!(m.candidate_ports()[0], 29200);
    m.clear_all();
    assert_eq!(m.get_port("e2"), None);
    match no_available_port() {
        RuntimeError::Internal(t) => assert_eq!(t, "No available CDP port in configured range"),
        other => panic!("unexpected {:?}", other),
    }
}

#[test]
fn cdp_endpoint_addresses() {
    assert_eq!(version_url(29201), "http://127.0.0.1:29201/json/version");
    assert_eq!(list_url(29201), "http://127.0.0.1:29201/json/list");
    let info = CdpEndpointInfo::new("env-x", 29300, Some("ws://x".into()));
    assert_eq!(info.host, "127.0.0.1");
    assert_eq!(info.port, 29300);
    let r = info.into_response();
    assert_eq!(r.env_uuid, "env-x");
    assert_eq!(r.version_url, "http://127.0.0.1:29300/json/version");
    assert_eq!(r.browser_ws_url.as_deref(), Some("ws://x"));
}

#[test]
fn browser_launch_arguments() {
    let dirs = vec!["C:/ext/a".to_string(), "C:/ext/b".to_string()];
    let args = launch_args("env-1", "D:/profile", 29205, Some("2"), None, Some("800,600"), Some(&dirs), false);
    assert_eq!(
        args,
        vec![
            "--simprint-env-id=env-1",
            "--user-data-dir=D:/profile",
            "--remote-debugging-port=29205",
            "--remote-allow-origins=*",
            "--disable-skia-graphite",
            "--simprint-display-id=2",
            "--window-size=800,600",
            "--load-extension=C:/ext/a,C:/ext/b",
        ]
    );
    let empty: Vec<String> = vec![];
    let args = launch_args("e", "p", 1, None, Some("0,0"), None, Some(&empty), true);
    assert_eq!(
        args,
        vec![
            "--simprint-env-id=e",
            "--user-data-dir=p",
            "--remote-debugging-port=1",
            "--remote-allow-origins=*",
            "--disable-skia-graphite",
            "--enable-logging",
            "--v=1",
            "--window-position=0,0",
        ]
    );
}

#[test]
fn launch_helpers() {
    assert_eq!(normalize_env_id("  env-7 \n"), "env-7");
    assert_eq!(launch_delay_from(3, 1234), 150 + 34);
    let d = launch_delay_ms(2);
    assert!(d >= 100 && d < 300);
    assert_eq!(env_not_connected("e9").to_string(), "internal error: 环境 e9 未连接");
    let ok = BatchLaunchResult::from_outcome("a".into(), &Ok(()));
    assert!(ok.success && ok.error.is_none());
    let bad = BatchLaunchResult::from_outcome("b".into(), &Err(RuntimeError::NotInitialized));
    assert!(!bad.success);
    assert_eq!(bad.error.as_deref(), Some("runtime context is not initialized"));
}

#[test]
fn environment_module_lifecycle() {
    let mut module = EnvironmentRuntimeModule::new();
    assert_eq!(module.name(), "environment");
    match module.check_command_allowed() {
        Err(e) => assert_eq!(e.to_string(), "invalid runtime state: environment runtime requires initialized context"),
        Ok(()) => panic!(),
    }
    assert!(module.on_context_initialize().is_err());
    module.on_runtime_start();
    module.on_context_initialize().unwrap();
    assert!(module.check_command_allowed().is_ok());
    module.kernel_mut().begin_launch("env-1", &vec![true]).unwrap();
    let mut bus = Some(EventBusState::new());
    bus.as_mut().unwrap().register("env-1");
    let dropped = module.on_context_destroy(&mut bus);
    assert_eq!(dropped, vec!["env-1".to_string()]);
    assert_eq!(bus.as_ref().unwrap().connected_env_count(), 0);
    assert_eq!(module.kernel().status_manager().get_status("env-1"), None);
    assert_eq!(module.phase(), EnvironmentModulePhase::RuntimeStarted);
    let mut none: Option<EventBusState> = None;
    assert!(module.on_runtime_shutdown(&mut none).is_empty());
    assert_eq!(module.phase().as_str(), "runtime_stopped");
    assert!(module.healthy());
}

#[test]
fn default_managers_start_empty() {
    let ports = CdpEndpointManager::default();
    assert_eq!(ports.get_port("env-1"), None);
    assert_eq!(ports.candidate_ports().len(), 300);
    let statuses = EnvironmentStatusManager::default();
    assert_eq!(statuses.get_status("env-1"), None);
    assert!(statuses.get_all_statuses().is_empty());
}

#[test]
fn ports_are_allocated_lowest_free_bindable_first() {
    let mut m = CdpEndpointManager::new();
    assert_eq!(m.allocate_port("a", &vec![false, false, true]).unwrap(), 29202);
    // An environment that holds a port keeps it, whatever the bind results.
    assert_eq!(m.allocate_port("a", &vec![]).unwrap(), 29202);
    assert_eq!(m.allocate_port("b", &vec![true]).unwrap(), 29200);
    assert_eq!(m.allocate_port("c", &vec![false, true]).unwrap(), 29203);
    match m.allocate_port("d", &vec![false, false]) {
        Err(e) => assert_eq!(e.to_string(), "internal error: No available CDP port in configured range"),
        Ok(p) => panic!("unexpected port {}", p),
    }
    assert_eq!(m.get_port("d"), None);
    assert_eq!(m.get_port("a"), Some(29202));

    let mut runtime = KernelRuntime::new();
    assert!(runtime.begin_launch("x", &vec![]).is_err());
    assert_eq!(runtime.status_manager().get_status("x"), None);
    assert_eq!(runtime.begin_launch("x", &vec![true]).unwrap(), 29200);
    assert_eq!(runtime.status_manager().get_status("x"), Some(EnvironmentStatus::Starting));
}
