//! The report of a failed system call.
//!
//! The backends that lock the screen through a call into the operating
//! system can fail in no more than two ways. A front end that serves only
//! those backends reports a failure as an [`ErrorDetails`].

use crate::error::Win32ErrorCode;
use crate::text::{decimal, u32_to_decimal};
use vstd::prelude::*;

verus! {

/// The ways in which a system call backend can fail.
#[derive(Clone, Copy, Debug, PartialEq, Eq, Structural)]
pub enum ErrorType {
    /// A function of the Win32 API reported this code.
    Win32(Win32ErrorCode),
    /// No backend exists for the platform.
    UnsupportedPlatform,
}

/// What is known of a failure to lock the screen.
#[derive(Clone, Copy, Debug, PartialEq, Eq, Structural)]
pub struct ErrorDetails {
    pub error_type: ErrorType,
}

impl ErrorDetails {
    /// The details of a failure that the Win32 API reported with `code`.
    pub fn new_win32_error(code: Win32ErrorCode) -> (details: Self)
        ensures
            details == (ErrorDetails { error_type: ErrorType::Win32(code) }),
    {
        ErrorDetails { error_type: ErrorType::Win32(code) }
    }

    /// The diagnostic message for the failure.
    pub open spec fn text(self) -> Seq<char> {
        match self.error_type {
            ErrorType::Win32(code) => "GetLastResult() returned "@ + decimal(code as nat),
            ErrorType::UnsupportedPlatform => "This platform is not supported - please file a bug"@,
        }
    }

    /// Renders the failure as a diagnostic message.
    pub fn to_string(&self) -> (message: String)
        ensures
            message@ == self.text(),
    {
        match self.error_type {
            ErrorType::Win32(code) => {
                let number: String = u32_to_decimal(code);
                String::from_str("GetLastResult() returned ").concat(number.as_str())
            },
            ErrorType::UnsupportedPlatform => String::from_str(
                "This platform is not supported - please file a bug",
            ),
        }
    }
}

} // verus!
