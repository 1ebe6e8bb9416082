//! The exchange between the library and its host.
//!
//! A backend never touches the operating system. It names the one operation
//! it needs next as a [`Request`]; the host performs it and reports the
//! outcome as a [`Progress`]; the backend answers with the next [`Step`].

use crate::error::{Error, ErrorKind, ErrorView, Win32ErrorCode};
use vstd::prelude::*;

verus! {

/// One operation of the operating system, to be performed by the host.
#[derive(Clone, Copy, Debug, PartialEq, Eq, Structural)]
pub enum Request {
    /// macOS: call `SACLockScreenImmediate` of the `login` framework.
    SacLockScreenImmediate,
    /// Windows: call `LockWorkStation` of `user32`.
    LockWorkStation,
    /// Windows: call `GetLastError` of `Kernel32`.
    GetLastError,
    /// Linux: find out whether the path of the candidate at `index` names a
    /// regular file.
    IsFile { index: usize },
    /// Linux: run the candidate at `index` with its arguments and wait for
    /// it to end.
    Run { index: usize },
}

/// What came of running a helper program.
#[derive(Clone, Debug, PartialEq)]
pub enum RunOutcome {
    /// The program ran to its end. `exit_code` is `None` if a signal ended it.
    Exited { exit_code: Option<i32> },
    /// The operating system could not start the program.
    NotStarted { kind: ErrorKind, msg: String },
}

/// A [`RunOutcome`] as a mathematical value.
pub enum RunOutcomeView {
    Exited { exit_code: Option<i32> },
    NotStarted { kind: ErrorKind, msg: Seq<char> },
}

impl View for RunOutcome {
    type V = RunOutcomeView;

    open spec fn view(&self) -> RunOutcomeView {
        match *self {
            RunOutcome::Exited { exit_code } => RunOutcomeView::Exited { exit_code },
            RunOutcome::NotStarted { kind, msg } => RunOutcomeView::NotStarted { kind, msg: msg@ },
        }
    }
}

/// What the host has to report: nothing yet, or the outcome of the request
/// it was last given.
#[derive(Clone, Debug, PartialEq)]
pub enum Progress {
    /// Nothing has been done yet.
    Start,
    /// `SACLockScreenImmediate` was called and returned.
    SessionLocked,
    /// `LockWorkStation` returned `result`.
    LockWorkStationReturned { result: i32 },
    /// `GetLastError` returned `code`.
    LastError { code: Win32ErrorCode },
    /// The path of the candidate at `index` was looked up.
    FileChecked { index: usize, is_file: bool },
    /// The candidate at `index` was run.
    ProgramRan { index: usize, outcome: RunOutcome },
}

/// A [`Progress`] as a mathematical value.
pub enum ProgressView {
    Start,
    SessionLocked,
    LockWorkStationReturned { result: i32 },
    LastError { code: Win32ErrorCode },
    FileChecked { index: usize, is_file: bool },
    ProgramRan { index: usize, outcome: RunOutcomeView },
}

impl View for Progress {
    type V = ProgressView;

    open spec fn view(&self) -> ProgressView {
        match *self {
            Progress::Start => ProgressView::Start,
            Progress::SessionLocked => ProgressView::SessionLocked,
            Progress::LockWorkStationReturned { result } => ProgressView::LockWorkStationReturned {
                result,
            },
            Progress::LastError { code } => ProgressView::LastError { code },
            Progress::FileChecked { index, is_file } => ProgressView::FileChecked {
                index,
                is_file,
            },
            Progress::ProgramRan { index, outcome } => ProgressView::ProgramRan {
                index,
                outcome: outcome@,
            },
        }
    }
}

/// What a backend decides: to ask the host for one more operation, or to
/// end with a result.
#[derive(Debug, PartialEq)]
pub enum Step<T> {
    /// The host is to perform the request and report its outcome.
    Ask(Request),
    /// The attempt is over.
    Done(Result<T, Error>),
}

/// A [`Step`] as a mathematical value.
pub enum StepView<T> {
    Ask(Request),
    Done(Result<T, ErrorView>),
}

impl<T> View for Step<T> {
    type V = StepView<T>;

    open spec fn view(&self) -> StepView<T> {
        match *self {
            Step::Ask(request) => StepView::Ask(request),
            Step::Done(Ok(value)) => StepView::Done(Ok(value)),
            Step::Done(Err(error)) => StepView::Done(Err(error@)),
        }
    }
}

impl<T> StepView<T> {
    /// The same step with the value of a success discarded.
    pub open spec fn forget(self) -> StepView<()> {
        match self {
            StepView::Ask(request) => StepView::Ask(request),
            StepView::Done(Ok(_)) => StepView::Done(Ok(())),
            StepView::Done(Err(error)) => StepView::Done(Err(error)),
        }
    }
}

impl<T> Step<T> {
    /// Discards the value of a success.
    pub fn forget(self) -> (step: Step<()>)
        ensures
            step@ == self@.forget(),
    {
        match self {
            Step::Ask(request) => Step::Ask(request),
            Step::Done(Ok(_)) => Step::Done(Ok(())),
            Step::Done(Err(error)) => Step::Done(Err(error)),
        }
    }
}

} // verus!
