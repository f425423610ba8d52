//! The order of the file operations by which one file is annotated, and the
//! error that a failure of each stands for.
//!
//! The library performs no file operation itself. A driver performs one step
//! at a time and asks [`advance`] what follows.

use vstd::prelude::*;

verus! {

/// One file operation of an annotation.
#[derive(Clone, Copy, PartialEq, Eq, Debug, Structural)]
pub enum Step {
    /// Open the file for reading.
    OpenForReading,
    /// Read the whole content as text.
    Read,
    /// Open the same path for writing, truncating it.
    OpenForWriting,
    /// Write the header and the old content.
    Write,
    /// Flush what was written.
    Flush,
}

/// Why the annotation of one file failed. A failure ends the work on that
/// file only.
#[derive(Clone, Copy, PartialEq, Eq, Debug, Structural)]
pub enum FileError {
    /// The file could not be opened, or its bytes are no text.
    ReadFailure,
    /// The file was read but could not be opened again for writing.
    WriteOpenFailure,
    /// The new content could not be written in full.
    WriteFailure,
    /// The content was written, but flushing it failed.
    FlushFailure,
}

/// What the driver does after a step.
#[derive(Clone, Copy, PartialEq, Eq, Debug, Structural)]
pub enum Action {
    /// Perform this step next.
    Perform(Step),
    /// The file is annotated: report the success.
    Succeed,
    /// Give the file up and report this error.
    Fail(FileError),
}

/// The step that follows a successful step, if any does.
pub open spec fn following(step: Step) -> Option<Step> {
    match step {
        Step::OpenForReading => Some(Step::Read),
        Step::Read => Some(Step::OpenForWriting),
        Step::OpenForWriting => Some(Step::Write),
        Step::Write => Some(Step::Flush),
        Step::Flush => None,
    }
}

/// The error that a failure of `step` is reported as.
pub open spec fn failure_of(step: Step) -> FileError {
    match step {
        Step::OpenForReading => FileError::ReadFailure,
        Step::Read => FileError::ReadFailure,
        Step::OpenForWriting => FileError::WriteOpenFailure,
        Step::Write => FileError::WriteFailure,
        Step::Flush => FileError::FlushFailure,
    }
}

/// What follows `step`: after a failure the step's error, with no retry;
/// after a success the following step, or the end of the annotation.
pub open spec fn next_action(step: Step, succeeded: bool) -> Action {
    if !succeeded {
        Action::Fail(failure_of(step))
    } else {
        match following(step) {
            Some(next) => Action::Perform(next),
            None => Action::Succeed,
        }
    }
}

/// Whether a file still holds its old content, untouched, when its
/// annotation has failed with `error`: nothing is written before the file
/// has been opened for writing.
pub open spec fn leaves_file_intact(error: FileError) -> bool {
    error == FileError::ReadFailure || error == FileError::WriteOpenFailure
}

/// How an annotation ends when it stands before `step` and the steps from
/// there on succeed or fail as `outcomes` says, the first entry for `step`.
/// `None` where `outcomes` ends before the annotation does.
pub open spec fn result_from(step: Step, outcomes: Seq<bool>) -> Option<Result<(), FileError>>
    decreases outcomes.len(),
{
    if outcomes.len() == 0 {
        None
    } else {
        match next_action(step, outcomes[0]) {
            Action::Perform(next) => result_from(next, outcomes.drop_first()),
            Action::Succeed => Some(Ok(())),
            Action::Fail(error) => Some(Err(error)),
        }
    }
}

/// The steps of an annotation in their order.
pub open spec fn steps() -> Seq<Step> {
    seq![Step::OpenForReading, Step::Read, Step::OpenForWriting, Step::Write, Step::Flush]
}

/// The step with which every annotation begins.
pub fn first_step() -> (step: Step)
    ensures
        step == steps()[0],
        step == Step::OpenForReading,
{
    Step::OpenForReading
}

/// Says what the driver does after it has performed `step`, given whether
/// the step succeeded.
pub fn advance(step: Step, succeeded: bool) -> (action: Action)
    ensures
        action == next_action(step, succeeded),
        action is Fail <==> !succeeded,
        action is Succeed <==> succeeded && step == Step::Flush,
{
    if !succeeded {
        let error = match step {
            Step::OpenForReading => FileError::ReadFailure,
            Step::Read => FileError::ReadFailure,
            Step::OpenForWriting => FileError::WriteOpenFailure,
            Step::Write => FileError::WriteFailure,
            Step::Flush => FileError::FlushFailure,
        };
        Action::Fail(error)
    } else {
        match step {
            Step::OpenForReading => Action::Perform(Step::Read),
            Step::Read => Action::Perform(Step::OpenForWriting),
            Step::OpenForWriting => Action::Perform(Step::Write),
            Step::Write => Action::Perform(Step::Flush),
            Step::Flush => Action::Succeed,
        }
    }
}

/// An annotation ends after at most five steps. It succeeds exactly when
/// all five succeed, and else fails with the error of the first step that
/// failed, after which no step is performed.
pub proof fn annotation_ends_at_first_failure(outcomes: Seq<bool>, failed: int)
    requires
        outcomes.len() == steps().len(),
        0 <= failed <= outcomes.len(),
        forall|i: int| 0 <= i < failed ==> outcomes[i],
        failed < outcomes.len() ==> !outcomes[failed],
    ensures
        failed == outcomes.len() ==> result_from(Step::OpenForReading, outcomes) == Some(
            Ok::<(), FileError>(()),
        ),
        failed < outcomes.len() ==> result_from(Step::OpenForReading, outcomes) == Some(
            Err::<(), FileError>(failure_of(steps()[failed])),
        ),
        failed < outcomes.len() ==> result_from(Step::OpenForReading, outcomes) == result_from(
            Step::OpenForReading,
            outcomes.take(failed + 1),
        ),
{
    reveal_with_fuel(result_from, 6);
    let o1 = outcomes.drop_first();
    let o2 = o1.drop_first();
    let o3 = o2.drop_first();
    let o4 = o3.drop_first();
    assert(o1[0] == outcomes[1] && o2[0] == outcomes[2] && o3[0] == outcomes[3] && o4[0]
        == outcomes[4]);
    if failed < outcomes.len() {
        let short = outcomes.take(failed + 1);
        let s1 = short.drop_first();
        let s2 = s1.drop_first();
        let s3 = s2.drop_first();
        let s4 = s3.drop_first();
        assert(forall|i: int| 0 <= i <= failed ==> short[i] == outcomes[i]);
        assert(failed >= 1 ==> s1[0] == outcomes[1]);
        assert(failed >= 2 ==> s2[0] == outcomes[2]);
        assert(failed >= 3 ==> s3[0] == outcomes[3]);
        assert(failed >= 4 ==> s4[0] == outcomes[4]);
    }
}

/// A failure before anything was written leaves the file intact: these are
/// the failures of the steps up to the opening for writing.
pub proof fn early_failures_leave_file_intact(step: Step)
    ensures
        leaves_file_intact(failure_of(step)) <==> (step == Step::OpenForReading || step
            == Step::Read || step == Step::OpenForWriting),
{
}

} // verus!
