use cloudrun_bot::health::{CloudRunConfig, CloudRunListener};
use cloudrun_bot::supervisor::{Action, Supervisor, TaskEvent};

#[test]
fn listen_address_defaults_to_port_8080() {
    assert_eq!(CloudRunConfig::from_port(None).address(), "0.0.0.0:8080");
    let listener = CloudRunListener::new(CloudRunConfig::from_port(Some("9000")));
    assert_eq!(listener.address(), "0.0.0.0:9000");
}

#[test]
fn primary_failure_shuts_down_and_cancels_health() {
    let mut s = Supervisor::start();
    let a = s.step(TaskEvent::PrimaryStopped { failed: true });
    assert_eq!(a, Action::Shutdown { abort_health: true, failed: true });
    assert!(!s.primary_running);
    assert_eq!(s.step(TaskEvent::HealthStopped { failed: true }), Action::Continue);
}

#[test]
fn health_failure_is_reported_not_fatal() {
    let mut s = Supervisor::start();
    assert_eq!(s.step(TaskEvent::HealthStopped { failed: true }), Action::ReportHealthFailure);
    assert!(s.primary_running);
    let a = s.step(TaskEvent::PrimaryStopped { failed: false });
    assert_eq!(a, Action::Shutdown { abort_health: false, failed: false });
}

#[test]
fn exit_follows_primary_not_health_state() {
    let mut s = Supervisor::start();
    assert_eq!(s.step(TaskEvent::HealthStopped { failed: false }), Action::Continue);
    let a = s.step(TaskEvent::PrimaryStopped { failed: true });
    assert_eq!(a, Action::Shutdown { abort_health: false, failed: true });
}
