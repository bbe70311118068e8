use simprint_runtime::app::bootstrap::{admit_inbound, handshake_after, InboundAction};
use simprint_runtime::app::host::{
    context_id_for, error_response_for, route_request, RequestRoute, ShutdownPlan,
};
use simprint_runtime::app::module::{
    after_forward, after_teardown, after_undo, begin_forward, begin_teardown, keep_first_error,
    teardown_result, ForwardStep, TeardownStep,
};
use simprint_runtime::app::error::wrap_module_error;
use simprint_runtime::app::{
    DispatchControl, ErrorResponse, HandshakeResponse, PingResponse, RuntimeError, RuntimeLifecycle,
    RuntimePhase,
};
use simprint_runtime::infrastructure::eventbus::{EventBusError, MessageIds, MessageType};
use simprint_runtime::infrastructure::ipc::{ErrorCode, IpcError, Message, Topic};

fn booted() -> RuntimeLifecycle {
    RuntimeLifecycle::new("simprint-runtime".into(), "0.1.0".into(), 1_000)
}

fn started() -> RuntimeLifecycle {
    let mut l = booted();
    l.begin_start().unwrap();
    l.complete_start(Ok(())).unwrap();
    l
}

#[test]
fn start_only_from_booting() {
    let mut l = booted();
    assert_eq!(l.state().phase(), RuntimePhase::Booting);
    assert!(l.begin_start().is_ok());
    l.complete_start(Ok(())).unwrap();
    assert_eq!(l.state().phase(), RuntimePhase::Uninitialized);
    match l.begin_start() {
        Err(e) => assert_eq!(
            e.to_string(),
            "invalid runtime state: runtime host can only start from booting phase"
        ),
        Ok(()) => panic!("second start accepted"),
    }
}

#[test]
fn failed_start_changes_nothing() {
    let mut l = booted();
    let r = l.complete_start(Err(RuntimeError::Internal("boom".into())));
    assert!(r.is_err());
    assert_eq!(l.state().phase(), RuntimePhase::Booting);
}

#[test]
fn initialize_then_destroy_roundtrip() {
    let mut l = started();
    let seq = l.begin_initialize().unwrap();
    assert_eq!(seq, 1);
    assert_eq!(l.state().phase(), RuntimePhase::Initializing);
    let id = context_id_for(seq);
    assert_eq!(id, "context-1");
    l.complete_initialize(id, Ok(())).unwrap();
    assert_eq!(l.state().phase(), RuntimePhase::Ready);
    let snap = l.state().snapshot(3, 42);
    assert_eq!(snap.context_id.as_deref(), Some("context-1"));
    assert_eq!(snap.module_count, 3);
    assert_eq!(snap.uptime_ms, 42);
    assert_eq!(snap.booted_at_unix_ms, 1_000);
    assert_eq!(snap.runtime_id, "simprint-runtime");

    assert!(matches!(l.begin_initialize(), Err(RuntimeError::AlreadyInitialized)));

    let destroyed = l.begin_destroy().unwrap();
    assert_eq!(destroyed, "context-1");
    assert_eq!(l.state().phase(), RuntimePhase::Destroying);
    l.complete_destroy(Ok(())).unwrap();
    assert_eq!(l.state().phase(), RuntimePhase::Uninitialized);
    assert!(l.state().snapshot(0, 0).context_id.is_none());

    assert!(matches!(l.begin_destroy(), Err(RuntimeError::NotInitialized)));

    let next = l.begin_initialize().unwrap();
    assert_eq!(next, 2);
    assert_ne!(context_id_for(next), context_id_for(seq));
}

#[test]
fn initialize_from_wrong_phase_is_refused() {
    let mut l = booted();
    match l.begin_initialize() {
        Err(e) => assert_eq!(
            e.to_string(),
            "invalid runtime state: cannot initialize context from phase Booting"
        ),
        Ok(_) => panic!("accepted while booting"),
    }
}

#[test]
fn failed_initialize_rolls_back_and_records() {
    let mut l = started();
    let seq = l.begin_initialize().unwrap();
    let err = wrap_module_error("sync", "context_initialize", RuntimeError::Internal("boom".into()));
    let r = l.complete_initialize(context_id_for(seq), Err(err));
    assert!(r.is_err());
    let snap = l.state().snapshot(0, 0);
    assert_eq!(snap.phase, RuntimePhase::Uninitialized);
    assert!(snap.context_id.is_none());
    assert_eq!(
        snap.last_error.as_deref(),
        Some("module 'sync' failed during 'context_initialize': internal error: boom")
    );
}

#[test]
fn failed_destroy_keeps_the_context() {
    let mut l = started();
    let seq = l.begin_initialize().unwrap();
    l.complete_initialize(context_id_for(seq), Ok(())).unwrap();
    l.begin_destroy().unwrap();
    assert!(l.complete_destroy(Err(RuntimeError::Internal("stuck".into()))).is_err());
    let snap = l.state().snapshot(0, 0);
    assert_eq!(snap.phase, RuntimePhase::Ready);
    assert_eq!(snap.context_id.as_deref(), Some("context-1"));
    assert_eq!(snap.last_error.as_deref(), Some("internal error: stuck"));
}

#[test]
fn shutdown_tears_down_then_stops_and_is_idempotent() {
    let mut l = started();
    let seq = l.begin_initialize().unwrap();
    l.complete_initialize(context_id_for(seq), Ok(())).unwrap();
    assert_eq!(l.begin_shutdown(), ShutdownPlan::DestroyContextFirst);
    assert_eq!(l.state().phase(), RuntimePhase::ShuttingDown);
    assert_eq!(l.begin_shutdown(), ShutdownPlan::AlreadyStopped);
    l.complete_shutdown_context(Err(RuntimeError::Internal("late".into())));
    assert!(l.state().snapshot(0, 0).context_id.is_none());
    l.complete_shutdown(Ok(())).unwrap();
    let snap = l.state().snapshot(0, 0);
    assert_eq!(snap.phase, RuntimePhase::Stopped);
    assert_eq!(snap.last_error.as_deref(), Some("internal error: late"));
    assert_eq!(l.begin_shutdown(), ShutdownPlan::AlreadyStopped);
    assert_eq!(l.state().phase(), RuntimePhase::Stopped);
}

#[test]
fn failed_module_shutdown_marks_failed() {
    let mut l = started();
    assert_eq!(l.begin_shutdown(), ShutdownPlan::ShutdownModules);
    assert!(l.complete_shutdown(Err(RuntimeError::Internal("x".into()))).is_err());
    assert_eq!(l.state().phase(), RuntimePhase::Failed);
}

#[test]
fn requests_route_by_topic() {
    assert_eq!(route_request(Topic::Handshake).unwrap(), RequestRoute::Handshake);
    assert_eq!(route_request(Topic::AuthCommand).unwrap(), RequestRoute::AuthCommand);
    assert_eq!(RequestRoute::Shutdown.control(), DispatchControl::Shutdown);
    assert_eq!(RequestRoute::Ping.control(), DispatchControl::Continue);
    match route_request(Topic::RuntimeEvent) {
        Err(e) => assert_eq!(
            e.to_string(),
            "invalid runtime state: runtime does not accept inbound runtime_event frames"
        ),
        Ok(_) => panic!(),
    }
    match route_request(Topic::Unknown(4660)) {
        Err(e) => assert_eq!(e.to_string(), "invalid runtime state: unknown topic: 4660"),
        Ok(_) => panic!(),
    }
}

/// Answers one inbound request the way the request loop does, with the
/// host's lifecycle decisions and modules that always agree; gives the
/// response's status code, or `None` for a dropped frame.
fn answer(l: &mut RuntimeLifecycle, handshake_complete: &mut bool, msg_type: MessageType, topic: Topic) -> Option<i32> {
    match admit_inbound(*handshake_complete, msg_type, topic) {
        InboundAction::Drop => None,
        InboundAction::RequireHandshake => Some(ErrorCode::HandshakeRequired.as_i32()),
        InboundAction::Dispatch => {
            let handled: Result<(), RuntimeError> = match route_request(topic) {
                Err(e) => Err(e),
                Ok(RequestRoute::InitializeContext) => match l.begin_initialize() {
                    Ok(sequence) => l.complete_initialize(context_id_for(sequence), Ok(())),
                    Err(e) => Err(e),
                },
                Ok(RequestRoute::DestroyContext) => match l.begin_destroy() {
                    Ok(_) => l.complete_destroy(Ok(())),
                    Err(e) => Err(e),
                },
                Ok(RequestRoute::Shutdown) => match l.begin_shutdown() {
                    ShutdownPlan::AlreadyStopped => Ok(()),
                    ShutdownPlan::DestroyContextFirst => {
                        l.complete_shutdown_context(Ok(()));
                        l.complete_shutdown(Ok(()))
                    }
                    ShutdownPlan::ShutdownModules => l.complete_shutdown(Ok(())),
                },
                Ok(_) => Ok(()),
            };
            *handshake_complete = handshake_after(*handshake_complete, topic, handled.is_ok());
            Some(match handled {
                Ok(()) => 0,
                Err(e) => e.code().as_i32(),
            })
        }
    }
}

#[test]
fn bootstrap_requires_handshake_before_initialize() {
    let mut l = started();
    let mut complete = false;
    let request = MessageType::Request;

    assert_eq!(
        answer(&mut l, &mut complete, request, Topic::InitializeContext),
        Some(ErrorCode::HandshakeRequired.as_i32())
    );
    assert_eq!(l.state().phase(), RuntimePhase::Uninitialized);
    assert_eq!(answer(&mut l, &mut complete, MessageType::Event, Topic::Ping), None);
    assert_eq!(answer(&mut l, &mut complete, request, Topic::Handshake), Some(0));
    assert!(complete);
    assert_eq!(answer(&mut l, &mut complete, request, Topic::InitializeContext), Some(0));
    assert_eq!(l.state().phase(), RuntimePhase::Ready);
    assert_eq!(answer(&mut l, &mut complete, request, Topic::DestroyContext), Some(0));
    assert_eq!(l.state().phase(), RuntimePhase::Uninitialized);
    assert_eq!(answer(&mut l, &mut complete, request, Topic::Shutdown), Some(0));
    assert_eq!(l.state().phase(), RuntimePhase::Stopped);
    assert_eq!(route_request(Topic::Shutdown).unwrap().control(), DispatchControl::Shutdown);
}

#[test]
fn handshake_is_needed_until_one_succeeds() {
    let mut complete = false;
    complete = handshake_after(complete, Topic::Handshake, false);
    assert!(!complete);
    assert_eq!(
        admit_inbound(complete, MessageType::Request, Topic::Ping),
        InboundAction::RequireHandshake
    );
    complete = handshake_after(complete, Topic::Handshake, true);
    assert!(complete);
    assert_eq!(admit_inbound(complete, MessageType::Response, Topic::Shutdown), InboundAction::Drop);
}

/// Runs one forward step over modules named `names`, as the orchestrator
/// does, logging each hook; `fails` names the module whose step fails.
fn run_forward(
    names: &[&'static str],
    action: &'static str,
    undo: &str,
    fails: Option<&str>,
    log: &mut Vec<String>,
) -> Result<(), RuntimeError> {
    let mut step = begin_forward(names.len());
    loop {
        step = match step {
            ForwardStep::Call(i) => {
                log.push(format!("{}.{}", names[i], action));
                let outcome = if fails == Some(names[i]) {
                    Err(RuntimeError::Internal("boom".into()))
                } else {
                    Ok(())
                };
                after_forward(names.len(), i, names[i], "context_initialize", outcome)
            }
            ForwardStep::Undo(i, error) => {
                log.push(format!("{}.{}", names[i], undo));
                after_undo(i, error)
            }
            ForwardStep::Finish(result) => return result,
        };
    }
}

#[test]
fn initialize_rollback_runs_in_reverse_order() {
    let names = ["env", "sync"];
    let mut log = Vec::new();
    assert!(run_forward(&names, "start", "shutdown", None, &mut log).is_ok());
    let result = run_forward(&names, "init", "destroy", Some("sync"), &mut log);
    assert!(result.is_err());
    assert_eq!(log, vec!["env.start", "sync.start", "env.init", "sync.init", "env.destroy"]);
    match result {
        Err(RuntimeError::ModuleLifecycle { module, action, message }) => {
            assert_eq!(module, "sync");
            assert_eq!(action, "context_initialize");
            assert_eq!(message, "internal error: boom");
        }
        other => panic!("unexpected {:?}", other),
    }

    let three = ["auth", "environment", "sync"];
    let mut log = Vec::new();
    assert!(run_forward(&three, "init", "destroy", Some("sync"), &mut log).is_err());
    assert_eq!(
        log,
        vec!["auth.init", "environment.init", "sync.init", "environment.destroy", "auth.destroy"]
    );
    let mut log = Vec::new();
    assert!(run_forward(&three, "init", "destroy", Some("auth"), &mut log).is_err());
    assert_eq!(log, vec!["auth.init"]);
    assert!(run_forward(&[], "init", "destroy", None, &mut Vec::new()).is_ok());
}

#[test]
fn teardown_visits_every_module_last_first() {
    let names = ["auth", "environment", "sync"];
    let mut log = Vec::new();
    let mut step = begin_teardown(names.len());
    let result = loop {
        step = match step {
            TeardownStep::Call(i, first) => {
                log.push(names[i]);
                let outcome = if names[i] != "sync" {
                    Err(RuntimeError::Internal(names[i].into()))
                } else {
                    Ok(())
                };
                after_teardown(i, first, names[i], "context_destroy", outcome)
            }
            TeardownStep::Finish(result) => break result,
        };
    };
    assert_eq!(log, vec!["sync", "environment", "auth"]);
    match result {
        Err(RuntimeError::ModuleLifecycle { module, action, message }) => {
            assert_eq!(module, "environment");
            assert_eq!(action, "context_destroy");
            assert_eq!(message, "internal error: environment");
        }
        other => panic!("unexpected {:?}", other),
    }
    assert!(matches!(begin_teardown(0), TeardownStep::Finish(Ok(()))));
}

#[test]
fn teardown_keeps_the_first_failure() {
    let kept = keep_first_error(None, "sync", "context_destroy", Ok(()));
    assert!(kept.is_none());
    let kept = keep_first_error(kept, "environment", "context_destroy", Err(RuntimeError::Internal("a".into())));
    let kept = keep_first_error(kept, "auth", "context_destroy", Err(RuntimeError::Internal("b".into())));
    match teardown_result(kept) {
        Err(RuntimeError::ModuleLifecycle { module, action, message }) => {
            assert_eq!(module, "environment");
            assert_eq!(action, "context_destroy");
            assert_eq!(message, "internal error: a");
        }
        other => panic!("unexpected {:?}", other),
    }
    assert!(teardown_result(None).is_ok());
}

#[test]
fn runtime_errors_map_to_status_codes_and_text() {
    assert_eq!(RuntimeError::AlreadyInitialized.code(), ErrorCode::AlreadyInitialized);
    assert_eq!(RuntimeError::NotInitialized.code(), ErrorCode::NotInitialized);
    assert_eq!(RuntimeError::InvalidState("x".into()).code(), ErrorCode::InvalidState);
    assert_eq!(RuntimeError::Serialization("x".into()).code(), ErrorCode::InternalError);
    assert_eq!(RuntimeError::Ipc(IpcError::ConnectionClosed).code(), ErrorCode::ConnectionClosed);
    assert_eq!(RuntimeError::Ipc(IpcError::ReceiveFailed("r".into())).code(), ErrorCode::ConnectionClosed);
    assert_eq!(RuntimeError::Ipc(IpcError::Decode("d".into())).code(), ErrorCode::DecodeFailed);
    assert_eq!(RuntimeError::Ipc(IpcError::SendFailed("s".into())).code(), ErrorCode::SendFailed);
    assert_eq!(RuntimeError::Ipc(IpcError::Connection("c".into())).code(), ErrorCode::ConnectionFailed);
    assert_eq!(RuntimeError::Ipc(IpcError::InvalidMessage("m".into())).code(), ErrorCode::InvalidMessage);
    assert_eq!(
        RuntimeError::EventBus(EventBusError::SendFailed("p".into())).code(),
        ErrorCode::InternalError
    );
    assert_eq!(RuntimeError::AlreadyInitialized.to_string(), "runtime context already initialized");
    assert_eq!(RuntimeError::NotInitialized.to_string(), "runtime context is not initialized");
    assert_eq!(
        RuntimeError::Ipc(IpcError::ConnectionClosed).to_string(),
        "ipc error: connection closed"
    );
    assert_eq!(
        RuntimeError::EventBus(EventBusError::NotConnected("env e not connected".into())).to_string(),
        "eventbus error: not connected: env e not connected"
    );
    let from_ipc: RuntimeError = IpcError::ConnectionClosed.into();
    assert!(matches!(from_ipc, RuntimeError::Ipc(IpcError::ConnectionClosed)));
}

#[test]
fn responses_carry_runtime_facts() {
    let l = started();
    let hs = HandshakeResponse::for_runtime(l.state());
    assert_eq!(hs.protocol_version, 1);
    assert_eq!(hs.runtime_id, "simprint-runtime");
    assert_eq!(hs.runtime_version, "0.1.0");
    let snap = l.state().snapshot(3, 5);
    let ping = PingResponse::from_snapshot(&snap);
    assert_eq!(ping.phase, RuntimePhase::Uninitialized);
    assert_eq!(ping.uptime_ms, 5);
    let err = RuntimeError::NotInitialized;
    assert_eq!(ErrorResponse::for_error(&err).message, "runtime context is not initialized");
    let mut ids = MessageIds::new();
    let request = Message::request(&mut ids, Topic::DestroyContext, vec![]);
    let response = error_response_for(&request, &err, b"{}".to_vec());
    assert_eq!(response.msg_id, request.msg_id);
    assert_eq!(response.topic, Topic::DestroyContext);
    assert_eq!(response.error_code, ErrorCode::NotInitialized.as_i32());
    assert_eq!(response.msg_type, MessageType::Response);
}

#[test]
fn ipc_frames_roundtrip_through_the_stream_reader() {
    let mut ids = MessageIds::new();
    let message = Message::request(&mut ids, Topic::QueryHealth, b"{}".to_vec());
    let mut bytes = message.encode().unwrap();
    let len = bytes.len();
    bytes.extend(Message::success_response(3, Topic::Unknown(0x7000), vec![]).encode().unwrap());
    let (decoded, used) = Message::try_decode(&bytes).unwrap().unwrap();
    assert_eq!(used, len);
    assert_eq!(decoded.topic, Topic::QueryHealth);
    assert_eq!(decoded.msg_id, message.msg_id);
    let (second, _) = Message::try_decode(&bytes[used..]).unwrap().unwrap();
    assert_eq!(second.topic, Topic::Unknown(0x7000));
    assert_eq!(Topic::from_code(Topic::Shutdown.code()), Topic::Shutdown);
}
