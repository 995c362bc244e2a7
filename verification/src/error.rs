//! The library's error type.
use vstd::prelude::*;

use crate::text::{decimal, decimal_string};

verus! {

/// An operating-system failure as the I/O layer reported it: the raw OS
/// error code, where there is one, and its description.
#[derive(Debug, Clone)]
pub struct IoFailure {
    /// The raw OS error code (`std::io::Error::raw_os_error`).
    pub raw_os_error: Option<i32>,
    /// The error's description (its `Display` text).
    pub description: String,
}

/// The error of every fallible operation of the library.
///
/// Three sources: the system (`IoError`), the protocol (`ProtocolError`,
/// `InvalidResponse`), and the terminal or the caller (`ConnectionFailed`,
/// `Timeout`, `CommandFailed`, `NotInitialized`, `NotSupported`).
#[derive(Debug, Clone)]
pub enum Mt5Error {
    /// A pipe read or write failed in the operating system.
    IoError(IoFailure),
    /// No connection: no pipe name was given, or the pipe could not be opened.
    ConnectionFailed(String),
    /// The terminal did not answer in time; the connection is then marked
    /// broken and must be initialized again.
    Timeout(String),
    /// A failure of the protocol layer, such as process enumeration.
    ProtocolError(String),
    /// The response did not have the expected shape.
    InvalidResponse(String),
    /// An operation was called before the connection was initialized.
    NotInitialized,
    /// The terminal refused command `cmd` with `error_code` and `error`.
    CommandFailed { cmd: u32, error_code: i32, error: String },
    /// The operation is not supported.
    NotSupported(String),
}

/// The result type of the library.
pub type Result<T> = core::result::Result<T, Mt5Error>;

/// The numeric code of an error: the OS code of an I/O error (`-1` when it
/// has none), the terminal's code of a refused command, `-10086` for a
/// timeout, and `-1` otherwise.
pub open spec fn spec_error_code(e: Mt5Error) -> i32 {
    match e {
        Mt5Error::IoError(f) => match f.raw_os_error {
            Some(c) => c,
            None => -1i32,
        },
        Mt5Error::CommandFailed { error_code, .. } => error_code,
        Mt5Error::Timeout(_) => -10086i32,
        _ => -1i32,
    }
}

/// The text that describes an error.
pub open spec fn error_text(e: Mt5Error) -> Seq<char> {
    match e {
        Mt5Error::IoError(f) => "IO error: "@ + f.description@,
        Mt5Error::ConnectionFailed(s) => "Connection failed: "@ + s@,
        Mt5Error::Timeout(s) => "Timeout: "@ + s@,
        Mt5Error::ProtocolError(s) => "Protocol error: "@ + s@,
        Mt5Error::InvalidResponse(s) => "Invalid response: "@ + s@,
        Mt5Error::NotInitialized => "MT5 not initialized"@,
        Mt5Error::CommandFailed { cmd, error_code, error } => "Command failed: cmd="@ + decimal(
            cmd as int,
        ) + ", code="@ + decimal(error_code as int) + ", error="@ + error@,
        Mt5Error::NotSupported(s) => "Not supported: "@ + s@,
    }
}

impl Mt5Error {
    /// The numeric error code (see `spec_error_code`): kept by the client as
    /// the code of the last error.
    pub fn error_code(&self) -> (c: i32)
        ensures
            c == spec_error_code(*self),
    {
        match self {
            Mt5Error::IoError(f) => match f.raw_os_error {
                Some(c) => c,
                None => -1,
            },
            Mt5Error::CommandFailed { error_code, .. } => *error_code,
            Mt5Error::Timeout(_) => -10086,
            _ => -1,
        }
    }

    /// Whether the error means the connection was lost: only a timeout does,
    /// after which the connection must be initialized again.
    pub fn is_connection_lost(&self) -> (b: bool)
        ensures
            b <==> *self is Timeout,
    {
        matches!(self, Mt5Error::Timeout(_))
    }

    /// The text that describes the error.
    pub fn message(&self) -> (s: String)
        ensures
            s@ == error_text(*self),
    {
        match self {
            Mt5Error::IoError(f) => String::from_str("IO error: ").concat(f.description.as_str()),
            Mt5Error::ConnectionFailed(s) => String::from_str("Connection failed: ").concat(
                s.as_str(),
            ),
            Mt5Error::Timeout(s) => String::from_str("Timeout: ").concat(s.as_str()),
            Mt5Error::ProtocolError(s) => String::from_str("Protocol error: ").concat(s.as_str()),
            Mt5Error::InvalidResponse(s) => String::from_str("Invalid response: ").concat(
                s.as_str(),
            ),
            Mt5Error::NotInitialized => String::from_str("MT5 not initialized"),
            Mt5Error::CommandFailed { cmd, error_code, error } => {
                let c = decimal_string(*cmd as i128);
                let e = decimal_string(*error_code as i128);
                String::from_str("Command failed: cmd=").concat(c.as_str()).concat(
                    ", code=",
                ).concat(e.as_str()).concat(", error=").concat(error.as_str())
            },
            Mt5Error::NotSupported(s) => String::from_str("Not supported: ").concat(s.as_str()),
        }
    }
}

} // verus!
