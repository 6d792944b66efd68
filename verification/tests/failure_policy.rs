use thoughts_desktop::config::Config;
use thoughts_desktop::failure::{Severity, Step};

#[test]
fn failures_that_leave_the_server_unsupervised_are_fatal() {
    assert_eq!(Step::ResolveBaseDir.severity(), Severity::Fatal);
    assert_eq!(Step::SpawnChild.severity(), Severity::Fatal);
    assert_eq!(Step::WriteLockRecord.severity(), Severity::Fatal);
}

#[test]
fn failures_of_clean_up_are_absorbed() {
    assert_eq!(Step::SignalStaleProcess.severity(), Severity::Absorbed);
    assert_eq!(Step::TerminateChild.severity(), Severity::Absorbed);
    assert_eq!(Step::ClearLockRecord.severity(), Severity::Absorbed);
}

#[test]
fn is_fatal_goes_by_the_severity() {
    let steps = [
        Step::ResolveBaseDir,
        Step::SignalStaleProcess,
        Step::SpawnChild,
        Step::WriteLockRecord,
        Step::TerminateChild,
        Step::ClearLockRecord,
    ];
    for step in steps {
        assert_eq!(step.is_fatal(), step.severity() == Severity::Fatal);
    }
}

#[test]
fn writing_the_record_must_not_fail_but_clearing_it_may() {
    let config = Config::new(4000, Some(String::from("/tmp/test-cfg"))).unwrap();
    assert_eq!(config.write_pid_file(5555).step(), Step::WriteLockRecord);
    assert!(config.write_pid_file(5555).step().is_fatal());
    assert_eq!(config.cleanup_pid_file().step(), Step::ClearLockRecord);
    assert!(!config.cleanup_pid_file().step().is_fatal());
}

#[test]
fn fatal_steps_have_their_diagnostics() {
    assert_eq!(Step::ResolveBaseDir.diagnostic(), Some("Failed to initialize config"));
    assert_eq!(Step::SpawnChild.diagnostic(), Some("Failed to spawn sidecar"));
    assert_eq!(Step::WriteLockRecord.diagnostic(), Some("Failed to write PID file"));
}

#[test]
fn absorbed_steps_have_no_diagnostic() {
    assert_eq!(Step::SignalStaleProcess.diagnostic(), None);
    assert_eq!(Step::TerminateChild.diagnostic(), None);
    assert_eq!(Step::ClearLockRecord.diagnostic(), None);
}
