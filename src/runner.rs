use vstd::prelude::*;
use crate::frame::DisplayError;
use crate::siren::AudioError;

verus! {

/// One of the two checked subsystems.
#[derive(Clone, Copy, Debug, PartialEq, Eq, Structural)]
pub enum Subsystem {
    Frame,
    Siren,
}

/// How a task ended: it returned a result, or it could not be joined (it
/// terminated abnormally).
#[derive(Debug, PartialEq, Eq)]
pub enum TaskOutcome<E> {
    Finished(Result<(), E>),
    JoinFailed,
}

/// Why a subsystem is reported as failed.
#[derive(Debug, PartialEq, Eq)]
pub enum SubsystemFailure<E> {
    /// The task returned this error.
    Failed(E),
    /// The task could not be joined.
    JoinFailed,
}

/// Failures of a diagnostic run: each subsystem's failure, if it failed.
/// At least one of the two is present.
#[derive(Debug, PartialEq, Eq)]
pub struct AggregateError {
    pub frame: Option<SubsystemFailure<DisplayError>>,
    pub siren: Option<SubsystemFailure<AudioError>>,
}

/// The failure that a task's outcome stands for, if any.
pub open spec fn failure_of<E>(o: TaskOutcome<E>) -> Option<SubsystemFailure<E>> {
    match o {
        TaskOutcome::Finished(Ok(())) => None,
        TaskOutcome::Finished(Err(e)) => Some(SubsystemFailure::Failed(e)),
        TaskOutcome::JoinFailed => Some(SubsystemFailure::JoinFailed),
    }
}

/// The subsystems that failed, frame first.
pub open spec fn failing_of(e: AggregateError) -> Seq<Subsystem> {
    let f = if e.frame is Some {
        seq![Subsystem::Frame]
    } else {
        Seq::empty()
    };
    let s = if e.siren is Some {
        seq![Subsystem::Siren]
    } else {
        Seq::empty()
    };
    f + s
}

/// The failure that a task's outcome stands for, if any.
pub fn task_failure<E>(outcome: TaskOutcome<E>) -> (r: Option<SubsystemFailure<E>>)
    ensures
        r == failure_of(outcome),
{
    match outcome {
        TaskOutcome::Finished(Ok(())) => None,
        TaskOutcome::Finished(Err(e)) => Some(SubsystemFailure::Failed(e)),
        TaskOutcome::JoinFailed => Some(SubsystemFailure::JoinFailed),
    }
}

/// Combine the outcomes of the frame and siren tasks, both of which ran to
/// their end: success only if both succeeded, otherwise every failure,
/// each under its subsystem.
pub fn aggregate(frame: TaskOutcome<DisplayError>, siren: TaskOutcome<AudioError>) -> (r: Result<
    (),
    AggregateError,
>)
    ensures
        r is Ok <==> failure_of(frame) is None && failure_of(siren) is None,
        r is Err ==> r->Err_0 == (AggregateError {
            frame: failure_of(frame),
            siren: failure_of(siren),
        }),
{
    let frame_failure = task_failure(frame);
    let siren_failure = task_failure(siren);
    if frame_failure.is_none() && siren_failure.is_none() {
        Ok(())
    } else {
        Err(AggregateError { frame: frame_failure, siren: siren_failure })
    }
}

impl AggregateError {
    /// The subsystems that failed, frame first.
    pub fn failing_subsystems(&self) -> (r: Vec<Subsystem>)
        ensures
            r@ == failing_of(*self),
    {
        let mut r: Vec<Subsystem> = Vec::new();
        if self.frame.is_some() {
            r.push(Subsystem::Frame);
        }
        if self.siren.is_some() {
            r.push(Subsystem::Siren);
        }
        assert(r@ =~= failing_of(*self));
        r
    }
}

/// A failed frame task is always reported, under the frame subsystem and
/// first, whatever became of the siren task.
pub proof fn lemma_frame_failure_reported(
    frame: TaskOutcome<DisplayError>,
    siren: TaskOutcome<AudioError>,
)
    requires
        failure_of(frame) is Some,
    ensures
        ({
            let e = AggregateError { frame: failure_of(frame), siren: failure_of(siren) };
            &&& e.frame == failure_of(frame)
            &&& failing_of(e)[0] == Subsystem::Frame
        }),
{
}

/// A successful task adds no failure: where only the frame task failed, the
/// frame subsystem is the only one reported.
pub proof fn lemma_success_is_not_a_failure(frame: TaskOutcome<DisplayError>)
    requires
        failure_of(frame) is Some,
    ensures
        ({
            let e = AggregateError {
                frame: failure_of(frame),
                siren: failure_of(TaskOutcome::<AudioError>::Finished(Ok(()))),
            };
            &&& e.siren is None
            &&& failing_of(e) == seq![Subsystem::Frame]
        }),
{
    let e = AggregateError {
        frame: failure_of(frame),
        siren: failure_of(TaskOutcome::<AudioError>::Finished(Ok(()))),
    };
    assert(failing_of(e) =~= seq![Subsystem::Frame]);
}

} // verus!
