use sidecar::supervisor::{ProcessSupervisor, Termination};

#[test]
fn terminate_without_spawn_is_a_no_op() {
    let mut supervisor: ProcessSupervisor<u32> = ProcessSupervisor::new();
    assert!(!supervisor.is_running());
    assert_eq!(supervisor.terminate(), Termination::NoProcessRunning);
    assert!(!supervisor.is_running());
}

#[test]
fn spawn_then_terminate_leaves_no_handle() {
    let mut supervisor: ProcessSupervisor<u32> = ProcessSupervisor::new();
    assert_eq!(supervisor.store(4242), None);
    assert!(supervisor.is_running());
    assert_eq!(supervisor.terminate(), Termination::Terminated(4242));
    assert!(!supervisor.is_running());
}

#[test]
fn terminate_twice_is_idempotent() {
    let mut supervisor: ProcessSupervisor<u32> = ProcessSupervisor::new();
    supervisor.store(7);
    assert_eq!(supervisor.terminate(), Termination::Terminated(7));
    assert_eq!(supervisor.terminate(), Termination::NoProcessRunning);
    assert_eq!(supervisor.terminate(), Termination::NoProcessRunning);
    assert!(!supervisor.is_running());
}

#[test]
fn store_replaces_the_previous_handle() {
    let mut supervisor: ProcessSupervisor<u32> = ProcessSupervisor::new();
    assert_eq!(supervisor.store(1), None);
    assert_eq!(supervisor.store(2), Some(1));
    assert_eq!(supervisor.terminate(), Termination::Terminated(2));
    assert_eq!(supervisor.terminate(), Termination::NoProcessRunning);
}

#[test]
fn handle_is_handed_out_by_value() {
    let mut supervisor: ProcessSupervisor<String> = ProcessSupervisor::new();
    supervisor.store("server".to_string());
    match supervisor.terminate() {
        Termination::Terminated(handle) => assert_eq!(handle, "server"),
        Termination::NoProcessRunning => panic!("a handle was stored"),
    }
}
