use output_selftest::{
    aggregate, task_failure, AudioError, DisplayError, Subsystem, SubsystemFailure, TaskOutcome,
};

#[test]
fn both_succeed() {
    assert_eq!(aggregate(TaskOutcome::Finished(Ok(())), TaskOutcome::Finished(Ok(()))), Ok(()));
}

#[test]
fn frame_fails_siren_succeeds() {
    let r = aggregate(
        TaskOutcome::Finished(Err(DisplayError::DeviceOpen)),
        TaskOutcome::Finished(Ok(())),
    );
    let e = r.unwrap_err();
    assert_eq!(e.frame, Some(SubsystemFailure::Failed(DisplayError::DeviceOpen)));
    assert_eq!(e.siren, None);
    assert_eq!(e.failing_subsystems(), vec![Subsystem::Frame]);
}

#[test]
fn both_fail() {
    let r = aggregate(
        TaskOutcome::Finished(Err(DisplayError::DeviceOpen)),
        TaskOutcome::Finished(Err(AudioError::DeviceOpen)),
    );
    let e = r.unwrap_err();
    assert_eq!(e.frame, Some(SubsystemFailure::Failed(DisplayError::DeviceOpen)));
    assert_eq!(e.siren, Some(SubsystemFailure::Failed(AudioError::DeviceOpen)));
    assert_eq!(e.failing_subsystems(), vec![Subsystem::Frame, Subsystem::Siren]);
}

#[test]
fn join_failure_is_its_own_error() {
    let r = aggregate(TaskOutcome::Finished(Ok(())), TaskOutcome::JoinFailed);
    let e = r.unwrap_err();
    assert_eq!(e.frame, None);
    assert_eq!(e.siren, Some(SubsystemFailure::JoinFailed));
    assert_eq!(e.failing_subsystems(), vec![Subsystem::Siren]);
    assert_eq!(
        task_failure::<AudioError>(TaskOutcome::JoinFailed),
        Some(SubsystemFailure::JoinFailed)
    );
    assert_eq!(task_failure::<AudioError>(TaskOutcome::Finished(Ok(()))), None);
}
