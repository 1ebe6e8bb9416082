//! A mathematical model of the host, to state what an attempt to lock the
//! screen comes to as a whole.
//!
//! The backends decide one step at a time. What they amount to shows only
//! when they are followed from the start to the end against a host that
//! answers every request. Nothing here is compiled: the model serves the
//! theorems about the backends.

use crate::error::{ErrorView, Win32ErrorCode};
use crate::protocol::{ProgressView, Request, RunOutcomeView, StepView};
use vstd::prelude::*;

verus! {

/// Everything about a machine that an attempt can come to depend on.
pub struct Host {
    /// What `LockWorkStation` returns.
    pub lock_work_station: i32,
    /// What `GetLastError` returns.
    pub last_error: Win32ErrorCode,
    /// For each candidate of the table, whether its path names a regular file.
    pub files: Seq<bool>,
    /// For each candidate of the table, what comes of running it.
    pub outcomes: Seq<RunOutcomeView>,
}

impl Host {
    /// The model says of each of `candidates` candidates whether it is a
    /// regular file and what comes of running it.
    pub open spec fn describes(self, candidates: nat) -> bool {
        &&& self.files.len() == candidates
        &&& self.outcomes.len() == candidates
    }

    /// What the host reports after it has performed `request`.
    pub open spec fn answer(self, request: Request) -> ProgressView {
        match request {
            Request::SacLockScreenImmediate => ProgressView::SessionLocked,
            Request::LockWorkStation => ProgressView::LockWorkStationReturned {
                result: self.lock_work_station,
            },
            Request::GetLastError => ProgressView::LastError { code: self.last_error },
            Request::IsFile { index } => ProgressView::FileChecked {
                index,
                is_file: self.files[index as int],
            },
            Request::Run { index } => ProgressView::ProgramRan {
                index,
                outcome: self.outcomes[index as int],
            },
        }
    }
}

/// The course of an attempt: the requests that were made of the host, in
/// order, and the result, if the attempt came to one.
pub struct Course<T> {
    pub requests: Seq<Request>,
    pub result: Option<Result<T, ErrorView>>,
}

/// The course that `backend` takes from `step` on, with `host` answering, if
/// the host performs at most `patience` requests.
pub open spec fn follow<T>(
    backend: spec_fn(ProgressView) -> StepView<T>,
    host: Host,
    step: StepView<T>,
    patience: nat,
) -> Course<T>
    decreases patience,
{
    match step {
        StepView::Done(result) => Course { requests: Seq::empty(), result: Some(result) },
        StepView::Ask(request) => if patience == 0 {
            Course { requests: Seq::empty(), result: None }
        } else {
            let rest = follow(backend, host, backend(host.answer(request)), (patience - 1) as nat);
            Course { requests: seq![request] + rest.requests, result: rest.result }
        },
    }
}

/// The course of a whole attempt: `backend` followed from the start.
pub open spec fn attempt<T>(
    backend: spec_fn(ProgressView) -> StepView<T>,
    host: Host,
    patience: nat,
) -> Course<T> {
    follow(backend, host, backend(ProgressView::Start), patience)
}

/// A course with the value of a success discarded.
pub open spec fn forget_course<T>(course: Course<T>) -> Course<()> {
    Course {
        requests: course.requests,
        result: match course.result {
            Some(Ok(_)) => Some(Ok(())),
            Some(Err(error)) => Some(Err(error)),
            None => None,
        },
    }
}

/// A backend that discards the value of a success takes the same course as
/// the backend that keeps it, and comes to the same result but for that
/// value.
pub proof fn lemma_follow_forget<T>(
    backend: spec_fn(ProgressView) -> StepView<T>,
    forgetful: spec_fn(ProgressView) -> StepView<()>,
    host: Host,
    step: StepView<T>,
    patience: nat,
)
    requires
        forall|progress: ProgressView| #[trigger] forgetful(progress) == backend(progress).forget(),
    ensures
        follow(forgetful, host, step.forget(), patience) == forget_course(
            follow(backend, host, step, patience),
        ),
    decreases patience,
{
    match step {
        StepView::Done(result) => {},
        StepView::Ask(request) => {
            if patience > 0 {
                lemma_follow_forget(
                    backend,
                    forgetful,
                    host,
                    backend(host.answer(request)),
                    (patience - 1) as nat,
                );
            }
        },
    }
}

} // verus!
