//! The Windows backend.
//!
//! Windows locks the workstation through `LockWorkStation`, which returns
//! zero when it fails. The reason is then to be had from `GetLastError`.

use crate::error::{Error, ErrorView};
use crate::protocol::{Progress, ProgressView, Request, Step, StepView};
use vstd::prelude::*;

verus! {

/// The next step on Windows.
///
/// A result other than zero from `LockWorkStation` is success. On zero the
/// last error code is fetched, and that code is the failure: the call is
/// not made a second time. Any other report leads to the call itself.
pub open spec fn windows_step(progress: ProgressView) -> StepView<()> {
    match progress {
        ProgressView::LockWorkStationReturned { result } => if result == 0 {
            StepView::Ask(Request::GetLastError)
        } else {
            StepView::Done(Ok(()))
        },
        ProgressView::LastError { code } => StepView::Done(Err(ErrorView::Win32(code))),
        _ => StepView::Ask(Request::LockWorkStation),
    }
}

/// Locks the screen on Windows: given what the host reports, decides the
/// next step.
pub fn lock_screen_windows(progress: Progress) -> (step: Step<()>)
    ensures
        step@ == windows_step(progress@),
{
    match progress {
        Progress::LockWorkStationReturned { result } => {
            if result == 0 {
                Step::Ask(Request::GetLastError)
            } else {
                Step::Done(Ok(()))
            }
        },
        Progress::LastError { code } => Step::Done(Err(Error::Win32(code))),
        _ => Step::Ask(Request::LockWorkStation),
    }
}

} // verus!
