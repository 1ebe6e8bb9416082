//! What a program tells its user once an attempt to lock the screen is over.

use crate::error::{optional_text, Error, ErrorView};
use vstd::prelude::*;

verus! {

/// How a program ends: the status it exits with, and the line it writes to
/// the standard error stream, if any.
#[derive(Clone, Debug, PartialEq)]
pub struct Report {
    pub exit_code: i32,
    pub stderr: Option<String>,
}

/// A [`Report`] as a mathematical value.
pub struct ReportView {
    pub exit_code: i32,
    pub stderr: Option<Seq<char>>,
}

impl View for Report {
    type V = ReportView;

    open spec fn view(&self) -> ReportView {
        ReportView { exit_code: self.exit_code, stderr: optional_text(self.stderr) }
    }
}

/// The report of the command-line program: silence and status 0 on success;
/// on failure the diagnostic message behind a fixed prefix, and status 1.
pub open spec fn command_line_report(result: Result<(), ErrorView>) -> ReportView {
    match result {
        Ok(_) => ReportView { exit_code: 0, stderr: None },
        Err(error) => ReportView {
            exit_code: 1,
            stderr: Some("error when trying to lock screen: "@ + error.text()),
        },
    }
}

/// The report of a program that only shows how the library is used: the bare
/// diagnostic message on failure, and status 0 either way.
pub open spec fn example_report(result: Result<(), ErrorView>) -> ReportView {
    match result {
        Ok(_) => ReportView { exit_code: 0, stderr: None },
        Err(error) => ReportView { exit_code: 0, stderr: Some(error.text()) },
    }
}

/// The view of the result of an attempt.
pub open spec fn result_view(result: Result<(), Error>) -> Result<(), ErrorView> {
    match result {
        Ok(_) => Ok(()),
        Err(error) => Err(error@),
    }
}

/// Decides how the command-line program ends after an attempt with `result`.
pub fn report_for_command_line(result: &Result<(), Error>) -> (report: Report)
    ensures
        report@ == command_line_report(result_view(*result)),
{
    match result {
        Ok(_) => Report { exit_code: 0, stderr: None },
        Err(error) => {
            let message: String = error.to_string();
            let line: String = String::from_str("error when trying to lock screen: ").concat(
                message.as_str(),
            );
            Report { exit_code: 1, stderr: Some(line) }
        },
    }
}

/// Decides how the example program ends after an attempt with `result`.
pub fn report_for_example(result: &Result<(), Error>) -> (report: Report)
    ensures
        report@ == example_report(result_view(*result)),
{
    match result {
        Ok(_) => Report { exit_code: 0, stderr: None },
        Err(error) => Report { exit_code: 0, stderr: Some(error.to_string()) },
    }
}

} // verus!
