//! The backends of the platforms and the choice between them.

use screenlocker::{
    default_commands, lock_screen, lock_screen_linux, lock_screen_mac, lock_screen_windows, Error,
    ErrorKind, LockCommand, Platform, Progress, Request, RunOutcome, Step,
};

/// A simulated machine.
struct Machine {
    lock_work_station: i32,
    last_error: u32,
    /// The paths that name regular files, each with the exit code of the
    /// program behind it.
    programs: Vec<(&'static str, i32)>,
}

impl Machine {
    fn bare() -> Machine {
        Machine { lock_work_station: 1, last_error: 0, programs: vec![] }
    }

    fn perform(&self, request: Request) -> Progress {
        let table = default_commands();
        match request {
            Request::SacLockScreenImmediate => Progress::SessionLocked,
            Request::LockWorkStation => {
                Progress::LockWorkStationReturned { result: self.lock_work_station }
            }
            Request::GetLastError => Progress::LastError { code: self.last_error },
            Request::IsFile { index } => Progress::FileChecked {
                index,
                is_file: self.programs.iter().any(|(path, _)| *path == table[index].exe),
            },
            Request::Run { index } => {
                let found = self.programs.iter().find(|(path, _)| *path == table[index].exe);
                let outcome = match found {
                    Some((_, code)) => RunOutcome::Exited { exit_code: Some(*code) },
                    None => RunOutcome::NotStarted {
                        kind: ErrorKind::NotFound,
                        msg: "No such file or directory (os error 2)".to_string(),
                    },
                };
                Progress::ProgramRan { index, outcome }
            }
        }
    }

    /// Follows `lock_screen` to its end and records what it asked for.
    fn lock(&self, platform: Platform) -> (Result<(), Error>, Vec<Request>) {
        let mut requests = Vec::new();
        let mut progress = Progress::Start;
        loop {
            match lock_screen(platform, progress) {
                Step::Done(result) => return (result, requests),
                Step::Ask(request) => {
                    assert!(requests.len() <= 11, "the attempt does not end");
                    requests.push(request);
                    progress = self.perform(request);
                }
            }
        }
    }
}

fn every_progress() -> Vec<Progress> {
    vec![
        Progress::Start,
        Progress::SessionLocked,
        Progress::LockWorkStationReturned { result: 0 },
        Progress::LockWorkStationReturned { result: 1 },
        Progress::LastError { code: 5 },
        Progress::FileChecked { index: 0, is_file: true },
        Progress::FileChecked { index: 0, is_file: false },
        Progress::ProgramRan { index: 0, outcome: RunOutcome::Exited { exit_code: Some(0) } },
        Progress::ProgramRan { index: 0, outcome: RunOutcome::Exited { exit_code: None } },
    ]
}

#[test]
fn mac_calls_once_and_succeeds() {
    assert_eq!(lock_screen_mac(Progress::Start), Step::Ask(Request::SacLockScreenImmediate));
    assert_eq!(lock_screen_mac(Progress::SessionLocked), Step::Done(Ok(())));
    let (result, requests) = Machine::bare().lock(Platform::MacOs);
    assert_eq!(result, Ok(()));
    assert_eq!(requests, vec![Request::SacLockScreenImmediate]);
}

#[test]
fn windows_succeeds_on_a_result_other_than_zero() {
    assert_eq!(lock_screen_windows(Progress::Start), Step::Ask(Request::LockWorkStation));
    assert_eq!(
        lock_screen_windows(Progress::LockWorkStationReturned { result: 1 }),
        Step::Done(Ok(()))
    );
    assert_eq!(
        lock_screen_windows(Progress::LockWorkStationReturned { result: -1 }),
        Step::Done(Ok(()))
    );
    let machine = Machine { lock_work_station: 1, last_error: 87, programs: vec![] };
    let (result, requests) = machine.lock(Platform::Windows);
    assert_eq!(result, Ok(()));
    assert_eq!(requests, vec![Request::LockWorkStation]);
}

#[test]
fn windows_reports_the_last_error_on_zero() {
    assert_eq!(
        lock_screen_windows(Progress::LockWorkStationReturned { result: 0 }),
        Step::Ask(Request::GetLastError)
    );
    assert_eq!(
        lock_screen_windows(Progress::LastError { code: 5 }),
        Step::Done(Err(Error::Win32(5)))
    );
    let machine = Machine { lock_work_station: 0, last_error: 1326, programs: vec![] };
    let (result, requests) = machine.lock(Platform::Windows);
    assert_eq!(result, Err(Error::Win32(1326)));
    assert_eq!(requests, vec![Request::LockWorkStation, Request::GetLastError]);
}

#[test]
fn unsupported_platform_fails_at_once() {
    let (result, requests) = Machine::bare().lock(Platform::Other);
    assert_eq!(result, Err(Error::UnsupportedPlatform));
    assert!(requests.is_empty());
    for progress in every_progress() {
        assert_eq!(
            lock_screen(Platform::Other, progress),
            Step::Done(Err(Error::UnsupportedPlatform))
        );
    }
}

#[test]
fn each_platform_has_its_own_backend() {
    assert_eq!(
        lock_screen(Platform::MacOs, Progress::Start),
        Step::Ask(Request::SacLockScreenImmediate)
    );
    assert_eq!(lock_screen(Platform::Windows, Progress::Start), Step::Ask(Request::LockWorkStation));
    assert_eq!(
        lock_screen(Platform::Linux, Progress::Start),
        Step::Ask(Request::IsFile { index: 0 })
    );
    for progress in every_progress() {
        assert_eq!(lock_screen(Platform::MacOs, progress.clone()), lock_screen_mac(progress));
    }
    for progress in every_progress() {
        assert_eq!(
            lock_screen(Platform::Windows, progress.clone()),
            lock_screen_windows(progress)
        );
    }
    for progress in every_progress() {
        assert_eq!(lock_screen(Platform::Linux, progress.clone()), lock_screen_linux(progress));
    }
}

#[test]
fn backends_take_any_other_report_for_the_start() {
    for progress in every_progress() {
        let is_own = matches!(progress, Progress::SessionLocked);
        let step = lock_screen_mac(progress);
        if !is_own {
            assert_eq!(step, Step::Ask(Request::SacLockScreenImmediate));
        }
    }
    for progress in every_progress() {
        let is_own = matches!(
            progress,
            Progress::LockWorkStationReturned { .. } | Progress::LastError { .. }
        );
        let step = lock_screen_windows(progress);
        if !is_own {
            assert_eq!(step, Step::Ask(Request::LockWorkStation));
        }
    }
}

#[test]
fn linux_without_any_helper_finds_none() {
    let (result, requests) = Machine::bare().lock(Platform::Linux);
    assert_eq!(result, Err(Error::NoExeFound));
    let expected: Vec<Request> = (0..10).map(|index| Request::IsFile { index }).collect();
    assert_eq!(requests, expected);
}

#[test]
fn linux_runs_the_first_helper_that_is_installed() {
    let machine = Machine {
        lock_work_station: 0,
        last_error: 0,
        programs: vec![("/usr/bin/slock", 0), ("/usr/bin/xlock", 0), ("/usr/bin/physlock", 3)],
    };
    let (result, requests) = machine.lock(Platform::Linux);
    assert_eq!(result, Ok(()));
    let mut expected: Vec<Request> = (0..8).map(|index| Request::IsFile { index }).collect();
    expected.push(Request::Run { index: 7 });
    assert_eq!(requests, expected);
}

#[test]
fn linux_prefers_the_xfce_locker_to_the_generic_one() {
    let machine = Machine {
        lock_work_station: 0,
        last_error: 0,
        programs: vec![("/usr/bin/xdg-screensaver", 0), ("/usr/bin/xfce4-screensaver-command", 4)],
    };
    let (result, requests) = machine.lock(Platform::Linux);
    assert_eq!(
        result,
        Err(Error::NonZeroExit {
            cmd: Some("/usr/bin/xfce4-screensaver-command".to_string()),
            exit_code: Some(4)
        })
    );
    assert_eq!(requests, vec![Request::IsFile { index: 0 }, Request::Run { index: 0 }]);
}

#[test]
fn linux_success_does_not_name_the_program() {
    assert_eq!(
        lock_screen_linux(Progress::ProgramRan {
            index: 3,
            outcome: RunOutcome::Exited { exit_code: Some(0) }
        }),
        Step::Done(Ok(()))
    );
    assert_eq!(
        lock_screen_linux(Progress::ProgramRan {
            index: 3,
            outcome: RunOutcome::NotStarted {
                kind: ErrorKind::PermissionDenied,
                msg: "Permission denied (os error 13)".to_string()
            }
        }),
        Step::Done(Err(Error::ExeIoError {
            cmd: Some("/usr/bin/qdbus".to_string()),
            kind: ErrorKind::PermissionDenied,
            msg: "Permission denied (os error 13)".to_string()
        }))
    );
    assert_eq!(
        lock_screen_linux(Progress::FileChecked { index: 9, is_file: false }),
        Step::Done(Err(Error::NoExeFound))
    );
}

#[test]
fn forget_keeps_everything_but_the_value() {
    assert_eq!(Step::Done(Ok(4usize)).forget(), Step::Done(Ok(())));
    assert_eq!(
        Step::<usize>::Done(Err(Error::NoExeFound)).forget(),
        Step::Done(Err(Error::NoExeFound))
    );
    assert_eq!(
        Step::<usize>::Ask(Request::Run { index: 2 }).forget(),
        Step::Ask(Request::Run { index: 2 })
    );
}

fn helper(exe: &str, args: &[&str]) -> LockCommand {
    LockCommand { exe: exe.to_string(), args: args.iter().map(|arg| arg.to_string()).collect() }
}

#[test]
fn the_table_of_helpers() {
    let expected = vec![
        helper("/usr/bin/xfce4-screensaver-command", &["--lock"]),
        helper("/usr/bin/xdg-screensaver", &["lock"]),
        helper("/usr/bin/gnome-screensaver-command", &["--lock"]),
        helper("/usr/bin/qdbus", &["org.freedesktop.ScreenSaver", "/ScreenSaver", "Lock"]),
        helper("/usr/bin/light-locker-command", &["-lock"]),
        helper("/usr/bin/xscreensaver-command", &["-lock"]),
        helper("/usr/bin/mate-screensaver-command", &["--lock"]),
        helper("/usr/bin/xlock", &["-mode", "blank"]),
        helper("/usr/bin/slock", &[]),
        helper("/usr/bin/physlock", &["-d"]),
    ];
    assert_eq!(default_commands(), expected);
}
