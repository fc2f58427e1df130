use iotedged::error::ErrorKind;
use iotedged::orchestrator::{boot_step, Action, BootStage, Event, SupervisorState};

#[test]
fn shutdown_fans_out_in_order() {
    let s = SupervisorState::new();

    assert!(s.accepts(&Event::ShutdownSignal));
    let (s, acts) = s.step(Event::ShutdownSignal);
    assert_eq!(acts, vec![Action::CancelRuntime]);
    assert!(s.runtime_cancelled);
    assert!(!s.mgmt_cancelled && !s.workload_cancelled);

    // The launchers cannot complete before the runtime has.
    assert!(!s.accepts(&Event::ManagementCompleted));
    assert!(!s.accepts(&Event::WorkloadCompleted));

    assert!(s.accepts(&Event::RuntimeCompleted));
    let (s, acts) = s.step(Event::RuntimeCompleted);
    assert_eq!(acts, vec![Action::CancelManagement, Action::CancelWorkload]);
    assert!(s.runtime_done && s.mgmt_cancelled && s.workload_cancelled);
    assert!(!s.resolved);

    let (s, acts) = s.step(Event::ManagementCompleted);
    assert_eq!(acts, vec![]);
    assert!(!s.resolved);

    let (s, acts) = s.step(Event::WorkloadCompleted);
    assert_eq!(acts, vec![Action::Resolve]);
    assert!(s.resolved);
    assert!(s.runtime_done && s.mgmt_done && s.workload_done);
}

#[test]
fn runtime_exit_without_signal_still_fans_out() {
    // A watchdog failure (or self-exit) also cancels both launchers.
    let s = SupervisorState::new();
    let (s, acts) = s.step(Event::RuntimeCompleted);
    assert_eq!(acts, vec![Action::CancelManagement, Action::CancelWorkload]);
    let (s, _) = s.step(Event::WorkloadCompleted);
    let (s, acts) = s.step(Event::ManagementCompleted);
    assert_eq!(acts, vec![Action::Resolve]);
    assert!(s.resolved);
}

#[test]
fn boot_advances_one_stage_at_a_time() {
    let mut stage = BootStage::Init;
    for expected in [
        BootStage::RuntimeReady,
        BootStage::StateChecked,
        BootStage::Provisioned,
        BootStage::Running,
        BootStage::Finished,
    ] {
        stage = boot_step(stage, true).unwrap();
        assert_eq!(stage, expected);
    }
}

#[test]
fn boot_failures_are_fatal_with_the_stage_error() {
    assert_eq!(boot_step(BootStage::Init, false).unwrap_err().kind(), ErrorKind::RuntimeFatal);
    assert_eq!(boot_step(BootStage::RuntimeReady, false).unwrap_err().kind(), ErrorKind::CacheIo);
    assert_eq!(
        boot_step(BootStage::StateChecked, false).unwrap_err().kind(),
        ErrorKind::ProvisioningFailed
    );
    assert_eq!(
        boot_step(BootStage::Provisioned, false).unwrap_err().kind(),
        ErrorKind::RuntimeFatal
    );
    assert_eq!(boot_step(BootStage::Running, false).unwrap_err().kind(), ErrorKind::ServiceError);
}

#[test]
fn wire_kinds_carry_their_statuses() {
    assert_eq!(ErrorKind::InvalidApiVersion.status(), Some(400));
    assert_eq!(ErrorKind::NotFound.status(), Some(404));
    assert_eq!(ErrorKind::MethodNotAllowed.status(), Some(405));
    assert_eq!(ErrorKind::ServiceError.status(), Some(500));
    assert_eq!(ErrorKind::InvalidProvisioning.status(), None);
    assert_eq!(ErrorKind::ProvisioningFailed.status(), None);
    assert_eq!(ErrorKind::CacheIo.status(), None);
    assert_eq!(ErrorKind::RuntimeFatal.status(), None);
    assert_eq!(ErrorKind::ModuleCrash.status(), None);
}

#[test]
fn errors_carry_kind_and_context() {
    let e = iotedged::error::Error::with_context(
        ErrorKind::ServiceError,
        "handler failed".to_string(),
    );
    assert_eq!(e.kind(), ErrorKind::ServiceError);
    assert_eq!(e.message(), "handler failed");
}
