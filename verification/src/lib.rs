//! Locks the desktop session of the current user.
//!
//! The library decides; the host program acts. Every operation of the
//! operating system that locking needs (a system call, a look at the file
//! system, a helper program to run) is handed to the host as a
//! [`protocol::Request`], and the host reports what came of it as a
//! [`protocol::Progress`]. Each backend is a function from the progress so
//! far to the next [`protocol::Step`], and [`lock_screen`] picks the backend
//! of the platform.

pub mod details;
pub mod error;
pub mod host;
pub mod linux;
pub mod macos;
pub mod protocol;
pub mod report;
pub mod text;
pub mod windows;

pub use crate::details::{ErrorDetails, ErrorType};
pub use crate::error::{Error, ErrorKind, Win32ErrorCode};
pub use crate::linux::{default_commands, lock_screen_linux, run_first_found_exe, LockCommand};
pub use crate::macos::lock_screen_mac;
pub use crate::protocol::{Progress, Request, RunOutcome, Step};
pub use crate::windows::lock_screen_windows;

use crate::error::ErrorView;
use crate::host::{attempt, follow, lemma_follow_forget, Course, Host};
use crate::linux::{default_table, lemma_search, search_requests, search_result, search_step};
use crate::macos::mac_step;
use crate::protocol::{ProgressView, StepView};
use crate::windows::windows_step;
use vstd::prelude::*;

verus! {

/// The platforms that the library tells apart.
#[derive(Clone, Copy, Debug, PartialEq, Eq, Structural)]
pub enum Platform {
    MacOs,
    Windows,
    Linux,
    /// Any platform without a backend.
    Other,
}

/// The next step of locking the screen on `platform`.
///
/// Exactly one backend serves a platform. Where there is none, the attempt
/// ends at once with [`Error::UnsupportedPlatform`], whatever the host
/// reports, so that nothing is ever asked of the operating system.
pub open spec fn lock_step(platform: Platform, progress: ProgressView) -> StepView<()> {
    match platform {
        Platform::MacOs => mac_step(progress),
        Platform::Windows => windows_step(progress),
        Platform::Linux => search_step(default_table(), progress).forget(),
        Platform::Other => StepView::Done(Err(ErrorView::UnsupportedPlatform)),
    }
}

/// Locks the screen, so that the user has to sign in again: given what the
/// host reports, decides the next step.
///
/// The host starts with [`Progress::Start`], performs each request it is
/// asked for and reports its outcome, until the step is [`Step::Done`].
pub fn lock_screen(platform: Platform, progress: Progress) -> (step: Step<()>)
    ensures
        step@ == lock_step(platform, progress@),
{
    match platform {
        Platform::MacOs => lock_screen_mac(progress),
        Platform::Windows => lock_screen_windows(progress),
        Platform::Linux => lock_screen_linux(progress),
        Platform::Other => Step::Done(Err(Error::UnsupportedPlatform)),
    }
}

/// What locking the screen on `platform` asks of `host`.
///
/// macOS: the one call. Windows: the call, and the last error code only if
/// the call returned zero. Linux: what the search through the table of
/// helper programs asks. Elsewhere: nothing.
pub open spec fn lock_requests(platform: Platform, host: Host) -> Seq<Request> {
    match platform {
        Platform::MacOs => seq![Request::SacLockScreenImmediate],
        Platform::Windows => if host.lock_work_station == 0 {
            seq![Request::LockWorkStation, Request::GetLastError]
        } else {
            seq![Request::LockWorkStation]
        },
        Platform::Linux => search_requests(host.files),
        Platform::Other => Seq::empty(),
    }
}

/// What locking the screen on `platform` comes to on `host`.
///
/// macOS: success. Windows: success unless the call returned zero, and the
/// last error code as the failure if it did. Linux: what the search through
/// the table of helper programs comes to, without the index of the program.
/// Elsewhere: [`Error::UnsupportedPlatform`].
pub open spec fn lock_result(platform: Platform, host: Host) -> Result<(), ErrorView> {
    match platform {
        Platform::MacOs => Ok(()),
        Platform::Windows => if host.lock_work_station == 0 {
            Err(ErrorView::Win32(host.last_error))
        } else {
            Ok(())
        },
        Platform::Linux => match search_result(default_table(), host) {
            Ok(_) => Ok(()),
            Err(error) => Err(error),
        },
        Platform::Other => Err(ErrorView::UnsupportedPlatform),
    }
}

/// Followed from the start to the end, [`lock_screen`] asks of the host
/// exactly [`lock_requests`] and comes to [`lock_result`]. In particular it
/// always comes to a result, it asks nothing twice, and on a platform
/// without a backend it asks nothing at all.
pub proof fn lemma_lock_screen(platform: Platform, host: Host, patience: nat)
    requires
        host.describes(default_table().len()),
        patience > default_table().len(),
    ensures
        attempt(|progress: ProgressView| lock_step(platform, progress), host, patience) == (Course {
            requests: lock_requests(platform, host),
            result: Some(lock_result(platform, host)),
        }),
{
    let backend = |progress: ProgressView| lock_step(platform, progress);
    let course = attempt(backend, host, patience);
    assert(default_table().len() == 10);
    match platform {
        Platform::MacOs => {
            reveal_with_fuel(follow, 3);
            assert(course.requests =~= lock_requests(platform, host));
        },
        Platform::Windows => {
            reveal_with_fuel(follow, 4);
            assert(course.requests =~= lock_requests(platform, host));
        },
        Platform::Linux => {
            let search = |progress: ProgressView| search_step(default_table(), progress);
            lemma_search(default_table(), host, patience);
            lemma_follow_forget(search, backend, host, search(ProgressView::Start), patience);
        },
        Platform::Other => {},
    }
}

} // verus!
