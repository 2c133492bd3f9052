use backend_supervisor::classify_probe;
use backend_supervisor::greet;
use backend_supervisor::status_message;
use backend_supervisor::LifecycleState;
use backend_supervisor::ProcessHandle;
use backend_supervisor::ReadinessResult;
use backend_supervisor::StartError;

#[test]
fn classify_success_codes_as_ready() {
    assert_eq!(classify_probe(Some(200)), ReadinessResult::Ready);
    assert_eq!(classify_probe(Some(204)), ReadinessResult::Ready);
    assert_eq!(classify_probe(Some(299)), ReadinessResult::Ready);
}

#[test]
fn classify_other_codes_as_not_ready() {
    assert_eq!(classify_probe(Some(199)), ReadinessResult::NotReady);
    assert_eq!(classify_probe(Some(300)), ReadinessResult::NotReady);
    assert_eq!(classify_probe(Some(404)), ReadinessResult::NotReady);
    assert_eq!(classify_probe(Some(500)), ReadinessResult::NotReady);
}

#[test]
fn classify_no_response_as_unreachable() {
    assert_eq!(classify_probe(None), ReadinessResult::Unreachable);
}

#[test]
fn stop_without_start_is_a_no_op() {
    let mut h = ProcessHandle::new();
    assert_eq!(h.stop_transition(), None);
    assert!(matches!(h.state, LifecycleState::NotStarted));
    assert_eq!(h.pid, None);
}

#[test]
fn stop_twice_reaps_once() {
    let mut h = ProcessHandle::new();
    assert!(h.handle_spawn(String::from("./translate_backend"), Ok(321)).is_ok());
    assert!(h.handle_probe(ReadinessResult::Ready).is_ok());
    assert!(matches!(h.state, LifecycleState::Running));
    assert_eq!(h.stop_transition(), Some(321));
    assert!(matches!(h.state, LifecycleState::Stopped));
    assert_eq!(h.stop_transition(), None);
    assert!(matches!(h.state, LifecycleState::Stopped));
    assert_eq!(h.pid, None);
}

#[test]
fn start_guard_blocks_while_running_or_starting() {
    let mut h = ProcessHandle::new();
    assert!(h.start_permitted());
    assert!(h.handle_spawn(String::from("./translate_backend"), Ok(77)).is_ok());
    assert!(matches!(h.state, LifecycleState::Starting));
    assert!(!h.start_permitted());
    assert!(h.handle_probe(ReadinessResult::Ready).is_ok());
    assert!(matches!(h.state, LifecycleState::Running));
    assert!(!h.start_permitted());
    assert_eq!(h.pid, Some(77));
}

#[test]
fn resolution_failure_spawns_nothing() {
    let mut h = ProcessHandle::new();
    let e = h.handle_resolution_failure();
    assert_eq!(e, StartError::ExecutableNotFound);
    assert!(matches!(h.state, LifecycleState::Failed));
    assert_eq!(h.pid, None);
}

#[test]
fn spawn_failure_reports_the_reason() {
    let mut h = ProcessHandle::new();
    let r = h.handle_spawn(String::from("./translate_backend"), Err(String::from("denied")));
    assert_eq!(r, Err(StartError::SpawnFailed(String::from("denied"))));
    assert!(matches!(h.state, LifecycleState::Failed));
    assert_eq!(h.pid, None);
}

#[test]
fn failed_probe_leaves_the_process_recorded() {
    // The deliberate asymmetry: a spawned process that misses its one
    // startup probe fails the start call but keeps running, and a later
    // stop still reaps it.
    let mut h = ProcessHandle::new();
    assert!(h.handle_spawn(String::from("./translate_backend"), Ok(900)).is_ok());
    let r = h.handle_probe(ReadinessResult::Unreachable);
    assert_eq!(r, Err(StartError::HealthCheckFailed));
    assert!(matches!(h.state, LifecycleState::Failed));
    assert_eq!(h.pid, Some(900));
    assert_eq!(h.stop_transition(), Some(900));
    assert!(matches!(h.state, LifecycleState::Stopped));
}

#[test]
fn full_scenario_start_status_stop() {
    // A launch whose backend becomes ready: spawn, probe confirms, status
    // answers Ready; after stop, a fresh probe finds nothing listening.
    let mut h = ProcessHandle::new();
    assert!(h.start_permitted());
    assert!(h.handle_spawn(String::from("/opt/app/resources/translate_backend"), Ok(4242)).is_ok());
    let startup_probe = classify_probe(Some(200));
    assert!(h.handle_probe(startup_probe).is_ok());
    assert!(matches!(h.state, LifecycleState::Running));
    assert_eq!(status_message(classify_probe(Some(200))), Ok(String::from("Backend is running")));
    assert_eq!(h.stop_transition(), Some(4242));
    assert!(matches!(h.state, LifecycleState::Stopped));
    assert_eq!(
        status_message(classify_probe(None)),
        Err(String::from("Backend is not responding"))
    );
}

#[test]
fn status_message_wording() {
    assert_eq!(
        status_message(ReadinessResult::Ready),
        Ok(String::from("Backend is running"))
    );
    assert_eq!(
        status_message(ReadinessResult::NotReady),
        Err(String::from("Backend is not responding"))
    );
    assert_eq!(
        status_message(ReadinessResult::Unreachable),
        Err(String::from("Backend is not responding"))
    );
}

#[test]
fn greet_formats_the_name() {
    assert_eq!(greet("World"), "Hello, World! You've been greeted from Rust!");
}
