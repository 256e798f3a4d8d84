use botcore::AppInfo;
use botcore::GatewayAction;
use botcore::GatewayEvent;
use botcore::GatewayState;
use botcore::ProcessAction;
use botcore::ProcessEvent;
use botcore::ProcessState;
use botcore::Registry;
use botcore::RegistryError;
use botcore::Settings;
use botcore::bootstrap_gateway;
use botcore::exit_code_for;
use botcore::gateway_step;
use botcore::process_step;
use botcore::resolve;

fn sample_settings() -> Settings {
    Settings::new(b"tok".to_vec(), b"!".to_vec(), (127, 0, 0, 1), 8080).unwrap()
}

#[test]
fn resolution_success_yields_owner_and_bot_id() {
    let id = resolve(Ok(AppInfo { app_id: 11, owner_id: 7 })).unwrap();
    assert_eq!(id.bot_id, 11);
    assert_eq!(id.owners, vec![7]);
    assert!(id.is_owner(7));
    assert!(!id.is_owner(8));
}

#[test]
fn resolution_failure_is_fatal_and_carries_detail() {
    let r = resolve(Err(b"401 unauthorized".to_vec()));
    let e = r.err().unwrap();
    assert_eq!(e.detail, b"401 unauthorized".to_vec());
}

#[test]
fn bootstrap_builds_framework_and_registry() {
    let b = bootstrap_gateway(
        sample_settings(),
        Ok(AppInfo { app_id: 11, owner_id: 7 }),
        "shard-handle",
        "pool-handle",
    )
    .unwrap();
    assert_eq!(b.identity.bot_id, 11);
    assert_eq!(b.identity.owners, vec![7]);
    assert_eq!(b.framework.prefix, b"!".to_vec());
    assert_eq!(b.framework.on_mention, 11);
    assert_eq!(b.framework.owners, vec![7]);
    assert!(b.registry.is_complete());
    assert_eq!(*b.registry.shard_manager().unwrap(), "shard-handle");
    assert_eq!(*b.registry.pool().unwrap(), "pool-handle");
    assert_eq!(b.registry.settings().unwrap().port, 8080);
}

#[test]
fn bootstrap_stops_on_resolution_failure() {
    let r = bootstrap_gateway(sample_settings(), Err(b"down".to_vec()), 1u8, 2u8);
    let e = r.err().unwrap();
    assert_eq!(e.detail, b"down".to_vec());
}

#[test]
fn registry_read_before_population_fails_explicitly() {
    let r: Registry<u8, u8> = Registry::new();
    assert!(matches!(r.shard_manager(), Err(RegistryError::NotReady)));
    assert!(matches!(r.pool(), Err(RegistryError::NotReady)));
    assert!(matches!(r.settings(), Err(RegistryError::NotReady)));
    assert!(!r.is_complete());
}

#[test]
fn registry_is_write_once() {
    let mut r: Registry<u8, u8> = Registry::new();
    assert!(r.insert_pool(5).is_ok());
    assert!(matches!(r.insert_pool(6), Err(RegistryError::AlreadySet)));
    assert_eq!(*r.pool().unwrap(), 5);
    assert!(r.insert_shard_manager(1).is_ok());
    assert!(r.insert_settings(sample_settings()).is_ok());
    assert!(r.is_complete());
}

#[test]
fn gateway_happy_path_logs_shard_line() {
    let (s, a) = gateway_step(GatewayState::Disconnected, GatewayEvent::Start);
    assert_eq!(s, GatewayState::Connecting);
    assert!(matches!(a, GatewayAction::Idle));

    let (s, a) = gateway_step(
        s,
        GatewayEvent::HandshakeComplete {
            shard: Some((1, 2)),
            bot_name: b"ExampleBot".to_vec(),
        },
    );
    assert_eq!(s, GatewayState::Ready);
    match a {
        GatewayAction::Log { line } => {
            assert_eq!(line, b"Shard 1/2 is serving ExampleBot".to_vec())
        }
        _ => panic!("expected a log line"),
    }
}

#[test]
fn gateway_unsharded_ready_line() {
    let (_s, a) = gateway_step(
        GatewayState::Connecting,
        GatewayEvent::HandshakeComplete { shard: None, bot_name: b"ExampleBot".to_vec() },
    );
    match a {
        GatewayAction::Log { line } => assert_eq!(line, b"Bot is serving ExampleBot".to_vec()),
        _ => panic!("expected a log line"),
    }
}

#[test]
fn gateway_resume_returns_to_ready() {
    let (s, a) = gateway_step(GatewayState::Ready, GatewayEvent::TransportDropped);
    assert_eq!(s, GatewayState::Resuming);
    assert!(matches!(a, GatewayAction::Idle));
    let (s, a) = gateway_step(s, GatewayEvent::ResumeComplete);
    assert_eq!(s, GatewayState::Ready);
    match a {
        GatewayAction::Log { line } => assert_eq!(line, b"Client resumed".to_vec()),
        _ => panic!("expected a log line"),
    }
}

#[test]
fn gateway_routes_messages_only_when_ready() {
    let (s, a) = gateway_step(
        GatewayState::Ready,
        GatewayEvent::MessageCreate { author: 7, content: b"!ping".to_vec() },
    );
    assert_eq!(s, GatewayState::Ready);
    match a {
        GatewayAction::RouteMessage { author, content } => {
            assert_eq!(author, 7);
            assert_eq!(content, b"!ping".to_vec());
        }
        _ => panic!("expected the message to be routed"),
    }
    let (s, a) = gateway_step(
        GatewayState::Resuming,
        GatewayEvent::MessageCreate { author: 7, content: b"!ping".to_vec() },
    );
    assert_eq!(s, GatewayState::Resuming);
    assert!(matches!(a, GatewayAction::Idle));
}

#[test]
fn gateway_fatal_failure_escalates() {
    let (s, a) = gateway_step(GatewayState::Ready, GatewayEvent::FatalFailure);
    assert_eq!(s, GatewayState::Disconnected);
    assert!(matches!(a, GatewayAction::EscalateFailure));
}

#[test]
fn orchestrator_loads_settings_before_launch() {
    let (s, a) = process_step(ProcessState::Starting, ProcessEvent::SettingsLoad { ok: true });
    assert_eq!(s, ProcessState::SettingsLoaded);
    assert_eq!(a, ProcessAction::LaunchSubsystems);
    let (s, a) = process_step(s, ProcessEvent::SubsystemsLaunched);
    assert_eq!(s, ProcessState::Serving);
    assert_eq!(a, ProcessAction::Idle);
}

#[test]
fn orchestrator_settings_failure_exits_nonzero() {
    let (s, a) = process_step(ProcessState::Starting, ProcessEvent::SettingsLoad { ok: false });
    assert_eq!(s, ProcessState::Exited { code: 1 });
    assert_eq!(a, ProcessAction::Terminate { code: 1 });
}

#[test]
fn bind_failure_exits_nonzero_and_stops_event_processing() {
    let (s, a) = process_step(
        ProcessState::SettingsLoaded,
        ProcessEvent::HttpBindFailed { code: 98 },
    );
    assert_eq!(s, ProcessState::Exited { code: 98 });
    assert_eq!(a, ProcessAction::Terminate { code: 98 });

    let (s, a) = process_step(s, ProcessEvent::GatewayTaskFailed);
    assert_eq!(s, ProcessState::Exited { code: 98 });
    assert_eq!(a, ProcessAction::Idle);
    let (s, a) = process_step(s, ProcessEvent::HttpFinished { code: 0 });
    assert_eq!(s, ProcessState::Exited { code: 98 });
    assert_eq!(a, ProcessAction::Idle);
}

#[test]
fn bind_failure_with_zero_code_still_exits_nonzero() {
    let (s, a) = process_step(ProcessState::Serving, ProcessEvent::HttpBindFailed { code: 0 });
    assert_eq!(s, ProcessState::Exited { code: 1 });
    assert_eq!(a, ProcessAction::Terminate { code: 1 });
}

#[test]
fn gateway_task_failure_crashes_the_process() {
    let (s, a) = process_step(ProcessState::Serving, ProcessEvent::GatewayTaskFailed);
    assert_eq!(s, ProcessState::Exited { code: 101 });
    assert_eq!(a, ProcessAction::Terminate { code: 101 });
}

#[test]
fn http_completion_code_becomes_exit_status() {
    let (s, a) = process_step(ProcessState::Serving, ProcessEvent::HttpFinished { code: 0 });
    assert_eq!(s, ProcessState::Exited { code: 0 });
    assert_eq!(a, ProcessAction::Terminate { code: 0 });
    assert_eq!(exit_code_for(Ok(())), 0);
    assert_eq!(exit_code_for(Err(13)), 13);
    assert_eq!(exit_code_for(Err(0)), 1);
}
