//! The ways in which locking the screen can fail, and how each is worded.

use crate::text::{decimal, i32_to_decimal, signed_decimal, u32_to_decimal};
use vstd::prelude::*;

verus! {

/// A code reported by the error facility of Windows. It is carried as it
/// came, without interpretation.
pub type Win32ErrorCode = u32;

/// The category under which the operating system files a failed operation.
#[derive(Clone, Copy, Debug, PartialEq, Eq, Structural)]
pub enum ErrorKind {
    /// An entity was not found, often a file.
    NotFound,
    /// The operation lacked the necessary privileges to complete.
    PermissionDenied,
    /// The connection was refused by the remote server.
    ConnectionRefused,
    /// The connection was reset by the remote server.
    ConnectionReset,
    /// The remote host is not reachable.
    HostUnreachable,
    /// The network containing the remote host is not reachable.
    NetworkUnreachable,
    /// The connection was aborted by the remote server.
    ConnectionAborted,
    /// The network operation failed because it was not connected yet.
    NotConnected,
    /// A socket address could not be bound because it is already in use.
    AddrInUse,
    /// A nonexistent interface was requested, or the address was not local.
    AddrNotAvailable,
    /// The system's networking is down.
    NetworkDown,
    /// The operation failed because a pipe was closed.
    BrokenPipe,
    /// An entity already exists, often a file.
    AlreadyExists,
    /// The operation needs to block to complete, but was asked not to.
    WouldBlock,
    /// A filesystem object is, unexpectedly, not a directory.
    NotADirectory,
    /// The filesystem object is, unexpectedly, a directory.
    IsADirectory,
    /// A non-empty directory was specified where an empty one was expected.
    DirectoryNotEmpty,
    /// The filesystem or storage medium is read-only.
    ReadOnlyFilesystem,
    /// A file handle of a network filesystem is no longer valid.
    StaleNetworkFileHandle,
    /// A parameter was incorrect.
    InvalidInput,
    /// Data not valid for the operation were encountered.
    InvalidData,
    /// The operation's timeout expired.
    TimedOut,
    /// A write could not make progress.
    WriteZero,
    /// The underlying storage is full.
    StorageFull,
    /// Seek on an unseekable file.
    NotSeekable,
    /// A filesystem or storage quota was exceeded.
    QuotaExceeded,
    /// A file is larger than allowed or supported.
    FileTooLarge,
    /// The resource is busy.
    ResourceBusy,
    /// The executable file is busy.
    ExecutableFileBusy,
    /// Deadlock, avoided.
    Deadlock,
    /// A cross-device or cross-filesystem link or rename.
    CrossesDevices,
    /// Too many hard links to the same filesystem object.
    TooManyLinks,
    /// A filename was invalid.
    InvalidFilename,
    /// The program's argument list was too long.
    ArgumentListTooLong,
    /// The operation was interrupted.
    Interrupted,
    /// The operation is unsupported on this platform.
    Unsupported,
    /// An end of file was reached prematurely.
    UnexpectedEof,
    /// The operation could not be completed for lack of memory.
    OutOfMemory,
    /// A custom failure that falls under no other category.
    Other,
    /// A failure of the operating system that falls under no category above.
    Uncategorized,
}

impl ErrorKind {
    /// The name under which the category appears in a diagnostic message.
    pub open spec fn name(self) -> Seq<char> {
        match self {
            ErrorKind::NotFound => "NotFound"@,
            ErrorKind::PermissionDenied => "PermissionDenied"@,
            ErrorKind::ConnectionRefused => "ConnectionRefused"@,
            ErrorKind::ConnectionReset => "ConnectionReset"@,
            ErrorKind::HostUnreachable => "HostUnreachable"@,
            ErrorKind::NetworkUnreachable => "NetworkUnreachable"@,
            ErrorKind::ConnectionAborted => "ConnectionAborted"@,
            ErrorKind::NotConnected => "NotConnected"@,
            ErrorKind::AddrInUse => "AddrInUse"@,
            ErrorKind::AddrNotAvailable => "AddrNotAvailable"@,
            ErrorKind::NetworkDown => "NetworkDown"@,
            ErrorKind::BrokenPipe => "BrokenPipe"@,
            ErrorKind::AlreadyExists => "AlreadyExists"@,
            ErrorKind::WouldBlock => "WouldBlock"@,
            ErrorKind::NotADirectory => "NotADirectory"@,
            ErrorKind::IsADirectory => "IsADirectory"@,
            ErrorKind::DirectoryNotEmpty => "DirectoryNotEmpty"@,
            ErrorKind::ReadOnlyFilesystem => "ReadOnlyFilesystem"@,
            ErrorKind::StaleNetworkFileHandle => "StaleNetworkFileHandle"@,
            ErrorKind::InvalidInput => "InvalidInput"@,
            ErrorKind::InvalidData => "InvalidData"@,
            ErrorKind::TimedOut => "TimedOut"@,
            ErrorKind::WriteZero => "WriteZero"@,
            ErrorKind::StorageFull => "StorageFull"@,
            ErrorKind::NotSeekable => "NotSeekable"@,
            ErrorKind::QuotaExceeded => "QuotaExceeded"@,
            ErrorKind::FileTooLarge => "FileTooLarge"@,
            ErrorKind::ResourceBusy => "ResourceBusy"@,
            ErrorKind::ExecutableFileBusy => "ExecutableFileBusy"@,
            ErrorKind::Deadlock => "Deadlock"@,
            ErrorKind::CrossesDevices => "CrossesDevices"@,
            ErrorKind::TooManyLinks => "TooManyLinks"@,
            ErrorKind::InvalidFilename => "InvalidFilename"@,
            ErrorKind::ArgumentListTooLong => "ArgumentListTooLong"@,
            ErrorKind::Interrupted => "Interrupted"@,
            ErrorKind::Unsupported => "Unsupported"@,
            ErrorKind::UnexpectedEof => "UnexpectedEof"@,
            ErrorKind::OutOfMemory => "OutOfMemory"@,
            ErrorKind::Other => "Other"@,
            ErrorKind::Uncategorized => "Uncategorized"@,
        }
    }

    /// The name of the category.
    pub fn as_str(&self) -> (name: &'static str)
        ensures
            name@ == self.name(),
    {
        match self {
            ErrorKind::NotFound => "NotFound",
            ErrorKind::PermissionDenied => "PermissionDenied",
            ErrorKind::ConnectionRefused => "ConnectionRefused",
            ErrorKind::ConnectionReset => "ConnectionReset",
            ErrorKind::HostUnreachable => "HostUnreachable",
            ErrorKind::NetworkUnreachable => "NetworkUnreachable",
            ErrorKind::ConnectionAborted => "ConnectionAborted",
            ErrorKind::NotConnected => "NotConnected",
            ErrorKind::AddrInUse => "AddrInUse",
            ErrorKind::AddrNotAvailable => "AddrNotAvailable",
            ErrorKind::NetworkDown => "NetworkDown",
            ErrorKind::BrokenPipe => "BrokenPipe",
            ErrorKind::AlreadyExists => "AlreadyExists",
            ErrorKind::WouldBlock => "WouldBlock",
            ErrorKind::NotADirectory => "NotADirectory",
            ErrorKind::IsADirectory => "IsADirectory",
            ErrorKind::DirectoryNotEmpty => "DirectoryNotEmpty",
            ErrorKind::ReadOnlyFilesystem => "ReadOnlyFilesystem",
            ErrorKind::StaleNetworkFileHandle => "StaleNetworkFileHandle",
            ErrorKind::InvalidInput => "InvalidInput",
            ErrorKind::InvalidData => "InvalidData",
            ErrorKind::TimedOut => "TimedOut",
            ErrorKind::WriteZero => "WriteZero",
            ErrorKind::StorageFull => "StorageFull",
            ErrorKind::NotSeekable => "NotSeekable",
            ErrorKind::QuotaExceeded => "QuotaExceeded",
            ErrorKind::FileTooLarge => "FileTooLarge",
            ErrorKind::ResourceBusy => "ResourceBusy",
            ErrorKind::ExecutableFileBusy => "ExecutableFileBusy",
            ErrorKind::Deadlock => "Deadlock",
            ErrorKind::CrossesDevices => "CrossesDevices",
            ErrorKind::TooManyLinks => "TooManyLinks",
            ErrorKind::InvalidFilename => "InvalidFilename",
            ErrorKind::ArgumentListTooLong => "ArgumentListTooLong",
            ErrorKind::Interrupted => "Interrupted",
            ErrorKind::Unsupported => "Unsupported",
            ErrorKind::UnexpectedEof => "UnexpectedEof",
            ErrorKind::OutOfMemory => "OutOfMemory",
            ErrorKind::Other => "Other",
            ErrorKind::Uncategorized => "Uncategorized",
        }
    }
}

/// Why the screen could not be locked.
///
/// The set is closed: a failed attempt yields exactly one of these, and none
/// of them is ever retried within the attempt.
#[derive(Clone, Debug)]
pub enum Error {
    /// A function of the Win32 API reported this code.
    Win32(Win32ErrorCode),
    /// No backend exists for the platform.
    UnsupportedPlatform,
    /// The operating system could not start a helper program.
    ExeIoError {
        /// The path of the program, or `None` if the path is not valid text.
        cmd: Option<String>,
        /// The category of the failure.
        kind: ErrorKind,
        /// The operating system's message for the failure.
        msg: String,
    },
    /// A helper program ran and ended unsuccessfully.
    NonZeroExit {
        /// The path of the program, or `None` if the path is not valid text.
        cmd: Option<String>,
        /// The exit code of the program, or `None` if a signal ended it.
        exit_code: Option<i32>,
    },
    /// None of the candidate helper programs is installed.
    NoExeFound,
}

/// An [`Error`] as a mathematical value: texts are sequences of characters.
pub enum ErrorView {
    Win32(Win32ErrorCode),
    UnsupportedPlatform,
    ExeIoError { cmd: Option<Seq<char>>, kind: ErrorKind, msg: Seq<char> },
    NonZeroExit { cmd: Option<Seq<char>>, exit_code: Option<i32> },
    NoExeFound,
}

/// The view of a text that may be absent.
pub open spec fn optional_text(text: Option<String>) -> Option<Seq<char>> {
    match text {
        Some(t) => Some(t@),
        None => None,
    }
}

impl View for Error {
    type V = ErrorView;

    open spec fn view(&self) -> ErrorView {
        match *self {
            Error::Win32(code) => ErrorView::Win32(code),
            Error::UnsupportedPlatform => ErrorView::UnsupportedPlatform,
            Error::ExeIoError { cmd, kind, msg } => ErrorView::ExeIoError {
                cmd: optional_text(cmd),
                kind,
                msg: msg@,
            },
            Error::NonZeroExit { cmd, exit_code } => ErrorView::NonZeroExit {
                cmd: optional_text(cmd),
                exit_code,
            },
            Error::NoExeFound => ErrorView::NoExeFound,
        }
    }
}

/// How a program is named in a message: by its path, or by a fixed phrase
/// where the path is not valid text.
pub open spec fn program_name(cmd: Option<Seq<char>>) -> Seq<char> {
    match cmd {
        Some(path) => path,
        None => "with invalid utf8 name"@,
    }
}

/// How the end of an unsuccessful program is worded.
pub open spec fn exit_reason(exit_code: Option<i32>) -> Seq<char> {
    match exit_code {
        Some(code) => "non-succesful exit-code "@ + signed_decimal(code as int),
        None => "signal termination"@,
    }
}

impl ErrorView {
    /// The diagnostic message for the error.
    pub open spec fn text(self) -> Seq<char> {
        match self {
            ErrorView::Win32(code) => "GetLastResult() returned "@ + decimal(code as nat),
            ErrorView::UnsupportedPlatform => "this platform is not supported - please file a bug"@,
            ErrorView::ExeIoError { cmd, kind, msg } => "io error "@ + kind.name() + " ("@ + msg
                + ") when running user program "@ + program_name(cmd),
            ErrorView::NonZeroExit { cmd, exit_code } => exit_reason(exit_code)
                + " when running user program "@ + program_name(cmd),
            ErrorView::NoExeFound => "none of the provided user programs were found"@,
        }
    }
}

/// Appends the name of a program to a message.
fn append_program_name(message: &mut String, cmd: &Option<String>)
    ensures
        final(message)@ == old(message)@ + program_name(optional_text(*cmd)),
{
    match cmd {
        Some(path) => message.append(path.as_str()),
        None => message.append("with invalid utf8 name"),
    }
}

impl Error {
    /// Renders the error as a diagnostic message.
    pub fn to_string(&self) -> (message: String)
        ensures
            message@ == self@.text(),
    {
        match self {
            Error::Win32(code) => {
                let number: String = u32_to_decimal(*code);
                String::from_str("GetLastResult() returned ").concat(number.as_str())
            },
            Error::UnsupportedPlatform => String::from_str(
                "this platform is not supported - please file a bug",
            ),
            Error::ExeIoError { cmd, kind, msg } => {
                let mut message: String = String::from_str("io error ");
                message.append(kind.as_str());
                message.append(" (");
                message.append(msg.as_str());
                message.append(") when running user program ");
                append_program_name(&mut message, cmd);
                message
            },
            Error::NonZeroExit { cmd, exit_code } => {
                let mut message: String = match exit_code {
                    Some(code) => {
                        let number: String = i32_to_decimal(*code);
                        String::from_str("non-succesful exit-code ").concat(number.as_str())
                    },
                    None => String::from_str("signal termination"),
                };
                message.append(" when running user program ");
                append_program_name(&mut message, cmd);
                message
            },
            Error::NoExeFound => String::from_str("none of the provided user programs were found"),
        }
    }
}

/// Whether two texts that may be absent are the same.
fn same_optional_text(a: &Option<String>, b: &Option<String>) -> (same: bool)
    ensures
        same == (optional_text(*a) == optional_text(*b)),
{
    match (a, b) {
        (Some(x), Some(y)) => *x == *y,
        (None, None) => true,
        _ => false,
    }
}

/// Whether two exit codes that may be absent are the same.
fn same_exit_code(a: &Option<i32>, b: &Option<i32>) -> (same: bool)
    ensures
        same == (*a == *b),
{
    match (a, b) {
        (Some(x), Some(y)) => *x == *y,
        (None, None) => true,
        _ => false,
    }
}

impl PartialEq for Error {
    /// Two errors are equal if they are of the same kind and agree in every
    /// field.
    fn eq(&self, other: &Error) -> (equal: bool) {
        match (self, other) {
            (Error::Win32(a), Error::Win32(b)) => *a == *b,
            (Error::UnsupportedPlatform, Error::UnsupportedPlatform) => true,
            (
                Error::ExeIoError { cmd: cmd_a, kind: kind_a, msg: msg_a },
                Error::ExeIoError { cmd: cmd_b, kind: kind_b, msg: msg_b },
            ) => same_optional_text(cmd_a, cmd_b) && *kind_a == *kind_b && *msg_a == *msg_b,
            (
                Error::NonZeroExit { cmd: cmd_a, exit_code: code_a },
                Error::NonZeroExit { cmd: cmd_b, exit_code: code_b },
            ) => same_optional_text(cmd_a, cmd_b) && same_exit_code(code_a, code_b),
            (Error::NoExeFound, Error::NoExeFound) => true,
            _ => false,
        }
    }
}

impl vstd::std_specs::cmp::PartialEqSpecImpl for Error {
    open spec fn obeys_eq_spec() -> bool {
        true
    }

    open spec fn eq_spec(&self, other: &Error) -> bool {
        self@ == other@
    }
}

} // verus!
