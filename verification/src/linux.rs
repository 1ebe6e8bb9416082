//! The Linux backend.
//!
//! Linux has no single call that locks the screen. Each desktop environment
//! ships a helper program of its own, so the backend goes through a table of
//! well-known helpers in order of preference, has the first one that is
//! installed run, and judges the attempt by how that one program ended.

use crate::error::{Error, ErrorView};
use crate::host::{attempt, follow, Course, Host};
use crate::protocol::{
    Progress, ProgressView, Request, RunOutcome, RunOutcomeView, Step, StepView,
};
use vstd::prelude::*;

verus! {

/// A helper program and the arguments that make it lock the screen.
#[derive(Clone, Debug, PartialEq)]
pub struct LockCommand {
    /// The absolute path of the program.
    pub exe: String,
    /// The arguments, in order.
    pub args: Vec<String>,
}

/// A [`LockCommand`] as a mathematical value.
pub struct LockCommandView {
    pub exe: Seq<char>,
    pub args: Seq<Seq<char>>,
}

impl View for LockCommand {
    type V = LockCommandView;

    open spec fn view(&self) -> LockCommandView {
        LockCommandView { exe: self.exe@, args: self.args.deep_view() }
    }
}

/// A table of candidates as a mathematical value.
pub open spec fn table_view(cmds: Seq<LockCommand>) -> Seq<LockCommandView> {
    Seq::new(cmds.len(), |i: int| cmds[i]@)
}

/// The step that looks at the candidate at `index`, or gives up if the
/// table has no such candidate.
pub open spec fn probe(len: nat, index: int) -> StepView<usize> {
    if 0 <= index < len {
        StepView::Ask(Request::IsFile { index: index as usize })
    } else {
        StepView::Done(Err(ErrorView::NoExeFound))
    }
}

/// The result of an attempt in which the program at path `exe`, the candidate
/// at `index`, was run with the given outcome: success only if the program
/// ended by itself with exit code zero.
pub open spec fn verdict(exe: Seq<char>, index: usize, outcome: RunOutcomeView) -> Result<
    usize,
    ErrorView,
> {
    match outcome {
        RunOutcomeView::Exited { exit_code } => if exit_code == Some(0i32) {
            Ok(index)
        } else {
            Err(ErrorView::NonZeroExit { cmd: Some(exe), exit_code })
        },
        RunOutcomeView::NotStarted { kind, msg } => Err(
            ErrorView::ExeIoError { cmd: Some(exe), kind, msg },
        ),
    }
}

/// The next step of the search through `table`, given what the host reports.
///
/// A candidate that is no regular file is passed over. The first candidate
/// that is one is run, and its outcome ends the search, whatever it is: no
/// later candidate is tried in its place. A report that answers no request
/// of this search over this table counts as no report at all.
pub open spec fn search_step(table: Seq<LockCommandView>, progress: ProgressView) -> StepView<
    usize,
> {
    match progress {
        ProgressView::FileChecked { index, is_file } => if index >= table.len() {
            probe(table.len(), 0)
        } else if is_file {
            StepView::Ask(Request::Run { index })
        } else {
            probe(table.len(), index + 1)
        },
        ProgressView::ProgramRan { index, outcome } => if index >= table.len() {
            probe(table.len(), 0)
        } else {
            StepView::Done(verdict(table[index as int].exe, index, outcome))
        },
        _ => probe(table.len(), 0),
    }
}

/// Looks at the candidate at `index`, or gives up.
fn probe_or_give_up(len: usize, index: usize) -> (step: Step<usize>)
    ensures
        step@ == probe(len as nat, index as int),
{
    if index < len {
        Step::Ask(Request::IsFile { index })
    } else {
        Step::Done(Err(Error::NoExeFound))
    }
}

/// Judges the attempt by the outcome of the one program that was run.
fn judge(cmd: &LockCommand, index: usize, outcome: RunOutcome) -> (result: Result<usize, Error>)
    ensures
        match result {
            Ok(found) => verdict(cmd@.exe, index, outcome@) == Ok::<usize, ErrorView>(found),
            Err(error) => verdict(cmd@.exe, index, outcome@) == Err::<usize, ErrorView>(error@),
        },
{
    match outcome {
        RunOutcome::Exited { exit_code } => {
            match exit_code {
                Some(0) => Ok(index),
                _ => Err(Error::NonZeroExit { cmd: Some(cmd.exe.clone()), exit_code }),
            }
        },
        RunOutcome::NotStarted { kind, msg } => Err(
            Error::ExeIoError { cmd: Some(cmd.exe.clone()), kind, msg },
        ),
    }
}

/// Searches `possible_cmds` for the first program that is installed and has
/// it run: given what the host reports, decides the next step.
///
/// The search begins with [`Progress::Start`] and ends with [`Step::Done`],
/// which on success holds the index of the program that was run.
pub fn run_first_found_exe(possible_cmds: &[LockCommand], progress: Progress) -> (step: Step<usize>)
    ensures
        step@ == search_step(table_view(possible_cmds@), progress@),
{
    let len: usize = possible_cmds.len();
    match progress {
        Progress::FileChecked { index, is_file } => {
            if index >= len {
                probe_or_give_up(len, 0)
            } else if is_file {
                Step::Ask(Request::Run { index })
            } else {
                probe_or_give_up(len, index + 1)
            }
        },
        Progress::ProgramRan { index, outcome } => {
            if index >= len {
                probe_or_give_up(len, 0)
            } else {
                Step::Done(judge(&possible_cmds[index], index, outcome))
            }
        },
        _ => probe_or_give_up(len, 0),
    }
}

/// The helper programs that are tried, in order of preference.
///
/// The locker of XFCE stands before `xdg-screensaver`, which does not always
/// find it.
pub open spec fn default_table() -> Seq<LockCommandView> {
    seq![
        LockCommandView { exe: "/usr/bin/xfce4-screensaver-command"@, args: seq!["--lock"@] },
        LockCommandView { exe: "/usr/bin/xdg-screensaver"@, args: seq!["lock"@] },
        LockCommandView { exe: "/usr/bin/gnome-screensaver-command"@, args: seq!["--lock"@] },
        LockCommandView {
            exe: "/usr/bin/qdbus"@,
            args: seq!["org.freedesktop.ScreenSaver"@, "/ScreenSaver"@, "Lock"@],
        },
        LockCommandView { exe: "/usr/bin/light-locker-command"@, args: seq!["-lock"@] },
        LockCommandView { exe: "/usr/bin/xscreensaver-command"@, args: seq!["-lock"@] },
        LockCommandView { exe: "/usr/bin/mate-screensaver-command"@, args: seq!["--lock"@] },
        LockCommandView { exe: "/usr/bin/xlock"@, args: seq!["-mode"@, "blank"@] },
        LockCommandView { exe: "/usr/bin/slock"@, args: seq![] },
        LockCommandView { exe: "/usr/bin/physlock"@, args: seq!["-d"@] },
    ]
}

/// Makes a command of a path and its arguments.
fn command(exe: &str, args: &[&str]) -> (cmd: LockCommand)
    ensures
        cmd@.exe == exe@,
        cmd@.args == Seq::new(args@.len(), |i: int| args@[i]@),
{
    let mut owned: Vec<String> = Vec::new();
    let mut i: usize = 0;
    while i < args.len()
        invariant
            i <= args.len(),
            owned@.len() == i,
            forall|j: int| 0 <= j < i ==> owned@[j]@ == args@[j]@,
        decreases args.len() - i,
    {
        owned.push(String::from_str(args[i]));
        i = i + 1;
    }
    LockCommand { exe: String::from_str(exe), args: owned }
}

/// The table of helper programs that [`lock_screen_linux`] searches.
pub fn default_commands() -> (cmds: Vec<LockCommand>)
    ensures
        table_view(cmds@) == default_table(),
{
    let mut cmds: Vec<LockCommand> = Vec::new();
    cmds.push(command("/usr/bin/xfce4-screensaver-command", &["--lock"]));
    cmds.push(command("/usr/bin/xdg-screensaver", &["lock"]));
    cmds.push(command("/usr/bin/gnome-screensaver-command", &["--lock"]));
    cmds.push(command("/usr/bin/qdbus", &["org.freedesktop.ScreenSaver", "/ScreenSaver", "Lock"]));
    cmds.push(command("/usr/bin/light-locker-command", &["-lock"]));
    cmds.push(command("/usr/bin/xscreensaver-command", &["-lock"]));
    cmds.push(command("/usr/bin/mate-screensaver-command", &["--lock"]));
    cmds.push(command("/usr/bin/xlock", &["-mode", "blank"]));
    cmds.push(command("/usr/bin/slock", &[]));
    cmds.push(command("/usr/bin/physlock", &["-d"]));
    proof {
        let table = table_view(cmds@);
        assert forall|i: int| 0 <= i < 10 implies table[i] == default_table()[i] by {
            assert(table[i].args =~= default_table()[i].args);
        }
        assert(table =~= default_table());
    }
    cmds
}

/// Locks the screen on Linux: given what the host reports, decides the next
/// step of the search through [`default_commands`].
///
/// The steps are those of [`run_first_found_exe`] on that table, except that
/// a success does not say which program was run.
pub fn lock_screen_linux(progress: Progress) -> (step: Step<()>)
    ensures
        step@ == search_step(default_table(), progress@).forget(),
{
    let cmds: Vec<LockCommand> = default_commands();
    run_first_found_exe(cmds.as_slice(), progress).forget()
}

/// The index of the first candidate at or after `from` that is a regular
/// file, if there is one.
pub open spec fn first_file_from(files: Seq<bool>, from: int) -> Option<int>
    decreases files.len() - from,
{
    if from < 0 || from >= files.len() {
        None
    } else if files[from] {
        Some(from)
    } else {
        first_file_from(files, from + 1)
    }
}

/// The index of the first candidate that is a regular file, if there is one.
pub open spec fn first_file(files: Seq<bool>) -> Option<int> {
    first_file_from(files, 0)
}

/// What the search asks of the host from the candidate at `from` on: it
/// looks at one candidate after the other up to the first that is a regular
/// file, and runs that one.
pub open spec fn requests_from(files: Seq<bool>, from: int) -> Seq<Request> {
    match first_file_from(files, from) {
        Some(found) => Seq::new(
            (found - from + 1) as nat,
            |i: int| Request::IsFile { index: (from + i) as usize },
        ).push(Request::Run { index: found as usize }),
        None => Seq::new(
            (files.len() - from) as nat,
            |i: int| Request::IsFile { index: (from + i) as usize },
        ),
    }
}

/// The result of the search when it continues at the candidate at `from`.
pub open spec fn result_from(table: Seq<LockCommandView>, host: Host, from: int) -> Result<
    usize,
    ErrorView,
> {
    match first_file_from(host.files, from) {
        Some(found) => verdict(table[found].exe, found as usize, host.outcomes[found]),
        None => Err(ErrorView::NoExeFound),
    }
}

/// What the search through a table asks of the host.
pub open spec fn search_requests(files: Seq<bool>) -> Seq<Request> {
    requests_from(files, 0)
}

/// What the search through `table` comes to on `host`: the verdict on the
/// first candidate that is a regular file, or [`Error::NoExeFound`] if none
/// is.
pub open spec fn search_result(table: Seq<LockCommandView>, host: Host) -> Result<
    usize,
    ErrorView,
> {
    result_from(table, host, 0)
}

/// The candidate that [`first_file_from`] finds is a regular file, and none
/// between `from` and it is one. Where it finds none, no candidate from
/// `from` on is a regular file.
pub proof fn lemma_first_file_from(files: Seq<bool>, from: int)
    requires
        0 <= from,
    ensures
        match first_file_from(files, from) {
            Some(found) => {
                &&& from <= found < files.len()
                &&& files[found]
                &&& forall|i: int| from <= i < found ==> !files[i]
            },
            None => forall|i: int| from <= i < files.len() ==> !files[i],
        },
    decreases files.len() - from,
{
    if from < files.len() && !files[from] {
        lemma_first_file_from(files, from + 1);
    }
}

/// The search picks the first candidate that is a regular file: the one it
/// finds is a regular file and no earlier one is, and it finds none only if
/// no candidate is a regular file.
pub proof fn lemma_first_file(files: Seq<bool>)
    ensures
        match first_file(files) {
            Some(found) => {
                &&& 0 <= found < files.len()
                &&& files[found]
                &&& forall|i: int| 0 <= i < found ==> !files[i]
            },
            None => forall|i: int| 0 <= i < files.len() ==> !files[i],
        },
{
    lemma_first_file_from(files, 0);
}

/// The course of the search from the point where it turns to the candidate
/// at `from`.
proof fn lemma_search_from(table: Seq<LockCommandView>, host: Host, from: int, patience: nat)
    requires
        table.len() <= usize::MAX,
        host.describes(table.len()),
        0 <= from <= table.len(),
        patience > table.len() - from,
    ensures
        follow(
            |progress: ProgressView| search_step(table, progress),
            host,
            probe(table.len(), from),
            patience,
        ) == (Course {
            requests: requests_from(host.files, from),
            result: Some(result_from(table, host, from)),
        }),
    decreases table.len() - from,
{
    let backend = |progress: ProgressView| search_step(table, progress);
    let course = follow(backend, host, probe(table.len(), from), patience);
    if from == table.len() {
        assert(course.requests =~= requests_from(host.files, from));
    } else {
        let look = Request::IsFile { index: from as usize };
        let looked = backend(host.answer(look));
        let after_look = follow(backend, host, looked, (patience - 1) as nat);
        assert(course.requests == seq![look] + after_look.requests);
        if host.files[from] {
            let run = Request::Run { index: from as usize };
            let ran = backend(host.answer(run));
            assert(looked == StepView::<usize>::Ask(run));
            assert(ran == StepView::Done(
                verdict(table[from].exe, from as usize, host.outcomes[from]),
            ));
            let after_run = follow(backend, host, ran, (patience - 2) as nat);
            assert(after_run.requests == Seq::<Request>::empty());
            assert(after_look.requests == seq![run] + after_run.requests);
            assert(course.requests =~= requests_from(host.files, from));
        } else {
            assert(looked == probe(table.len(), from + 1));
            lemma_search_from(table, host, from + 1, (patience - 1) as nat);
            lemma_first_file_from(host.files, from + 1);
            assert(course.requests =~= requests_from(host.files, from));
        }
    }
}

/// Followed from the start to the end, the search asks of the host exactly
/// [`search_requests`] and comes to [`search_result`]: it looks at the
/// candidates in order, runs the first that is a regular file and no other,
/// and judges the attempt by that one program, whatever a later candidate
/// would have done.
pub proof fn lemma_search(table: Seq<LockCommandView>, host: Host, patience: nat)
    requires
        table.len() <= usize::MAX,
        host.describes(table.len()),
        patience > table.len(),
    ensures
        attempt(|progress: ProgressView| search_step(table, progress), host, patience) == (Course {
            requests: search_requests(host.files),
            result: Some(search_result(table, host)),
        }),
{
    lemma_search_from(table, host, 0, patience);
}

/// Only the first candidate that is a regular file counts: two hosts that
/// hold the same files and agree on what comes of running the first of
/// them are asked the same and bring the search to the same result,
/// whatever any other candidate would do on either.
pub proof fn lemma_first_found_is_final(table: Seq<LockCommandView>, host: Host, other: Host)
    requires
        host.files == other.files,
        first_file(host.files) matches Some(found) ==> host.outcomes[found]
            == other.outcomes[found],
    ensures
        search_requests(host.files) == search_requests(other.files),
        search_result(table, host) == search_result(table, other),
{
}

} // verus!
