use sidecar_supervisor::fault::{Fault, Severity};

#[test]
fn startup_faults_are_fatal() {
    assert_eq!(Fault::ExecutableNotResolved.severity(), Severity::Fatal);
    assert_eq!(Fault::SpawnFailed.severity(), Severity::Fatal);
    assert!(Fault::ExecutableNotResolved.is_fatal());
    assert!(Fault::SpawnFailed.is_fatal());
}

#[test]
fn later_faults_are_only_logged() {
    assert_eq!(Fault::KillFailed.severity(), Severity::Logged);
    assert_eq!(Fault::SendOnClosedChannel.severity(), Severity::Logged);
    assert_eq!(Fault::ReceiveOnClosedChannel.severity(), Severity::Logged);
    assert_eq!(Fault::UnexpectedValue(3).severity(), Severity::Logged);
    assert!(!Fault::KillFailed.is_fatal());
    assert!(!Fault::SendOnClosedChannel.is_fatal());
    assert!(!Fault::ReceiveOnClosedChannel.is_fatal());
    assert!(!Fault::UnexpectedValue(3).is_fatal());
}

#[test]
fn messages_are_exact() {
    assert_eq!(
        Fault::ExecutableNotResolved.message(),
        "[Error] Failed to create backend binary command"
    );
    assert_eq!(Fault::SpawnFailed.message(), "[Error] spawning api server process.");
    assert_eq!(Fault::KillFailed.message(), "[Error] killing api server process.");
    assert_eq!(Fault::SendOnClosedChannel.message(), "[Error] sending msg.");
    assert_eq!(
        Fault::ReceiveOnClosedChannel.message(),
        "[Error] receiving msg: channel closed."
    );
    assert_eq!(
        Fault::UnexpectedValue(9).message(),
        "[Error] receiving msg: unexpected value."
    );
}
