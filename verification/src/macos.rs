//! The macOS backend.
//!
//! macOS locks the session through one call without arguments into the
//! private `login` framework. The call reports nothing, so the backend has
//! no way to fail.

use crate::protocol::{Progress, ProgressView, Request, Step, StepView};
use vstd::prelude::*;

verus! {

/// The next step on macOS: success once the call has returned, and the call
/// itself on any other report.
pub open spec fn mac_step(progress: ProgressView) -> StepView<()> {
    match progress {
        ProgressView::SessionLocked => StepView::Done(Ok(())),
        _ => StepView::Ask(Request::SacLockScreenImmediate),
    }
}

/// Locks the screen on macOS: given what the host reports, decides the next
/// step.
pub fn lock_screen_mac(progress: Progress) -> (step: Step<()>)
    ensures
        step@ == mac_step(progress@),
{
    match progress {
        Progress::SessionLocked => Step::Done(Ok(())),
        _ => Step::Ask(Request::SacLockScreenImmediate),
    }
}

} // verus!
