//! Error types for the port inspector.

use crate::text::{append_dec, dec_chars};
use vstd::prelude::*;
use vstd::string::StringExecFns;

verus! {

/// The main error type of the library.
#[derive(Debug)]
pub enum PortsError {
    /// Permission was denied when accessing process information.
    PermissionDenied { message: String },
    /// The process was not found, likely because it terminated between
    /// the port scan and the detailed info retrieval.
    ProcessNotFound { pid: u32 },
    /// A system-level failure while interacting with the OS utilities.
    SystemError { message: String },
    /// A low-level I/O failure, carrying the underlying error's text.
    IoError { message: String },
}

/// The text that `message` renders for an error.
pub open spec fn spec_message(e: PortsError) -> Seq<char> {
    match e {
        PortsError::PermissionDenied { message } => "Permission denied: "@ + message@,
        PortsError::ProcessNotFound { pid } => "Process not found: PID "@ + dec_chars(pid as int),
        PortsError::SystemError { message } => "System error: "@ + message@,
        PortsError::IoError { message } => "I/O error: "@ + message@,
    }
}

/// The remediation hint that `hint` returns for an error.
pub open spec fn spec_hint(e: PortsError) -> Seq<char> {
    match e {
        PortsError::PermissionDenied {
            ..
        } => "Try running with elevated privileges (sudo) to see all process details"@,
        PortsError::ProcessNotFound {
            ..
        } => "The process may have terminated. Try running the command again"@,
        PortsError::SystemError {
            ..
        } => "Check system permissions and ensure the OS APIs are accessible"@,
        PortsError::IoError { .. } => "Check file permissions and system resources"@,
    }
}

impl PortsError {
    /// Creates a new PermissionDenied error with the given message.
    pub fn permission_denied(message: String) -> (r: Self)
        ensures
            r == (PortsError::PermissionDenied { message }),
    {
        PortsError::PermissionDenied { message }
    }

    /// Creates a new ProcessNotFound error for the given PID.
    pub fn process_not_found(pid: u32) -> (r: Self)
        ensures
            r == (PortsError::ProcessNotFound { pid }),
    {
        PortsError::ProcessNotFound { pid }
    }

    /// Creates a new SystemError with the given message.
    pub fn system_error(message: String) -> (r: Self)
        ensures
            r == (PortsError::SystemError { message }),
    {
        PortsError::SystemError { message }
    }

    /// Creates a new IoError carrying the underlying error's text.
    pub fn io_error(message: String) -> (r: Self)
        ensures
            r == (PortsError::IoError { message }),
    {
        PortsError::IoError { message }
    }

    /// Renders the error as text.
    pub fn message(&self) -> (r: String)
        ensures
            r@ == spec_message(*self),
    {
        let mut out = String::new();
        match self {
            PortsError::PermissionDenied { message } => {
                out.append("Permission denied: ");
                out.append(message.as_str());
            },
            PortsError::ProcessNotFound { pid } => {
                out.append("Process not found: PID ");
                append_dec(&mut out, *pid as u64);
            },
            PortsError::SystemError { message } => {
                out.append("System error: ");
                out.append(message.as_str());
            },
            PortsError::IoError { message } => {
                out.append("I/O error: ");
                out.append(message.as_str());
            },
        }
        proof {
            assert(out@ =~= spec_message(*self));
        }
        out
    }

    /// Returns a hint for how to resolve this error.
    pub fn hint(&self) -> (r: &'static str)
        ensures
            r@ == spec_hint(*self),
    {
        match self {
            PortsError::PermissionDenied {
                ..
            } => "Try running with elevated privileges (sudo) to see all process details",
            PortsError::ProcessNotFound {
                ..
            } => "The process may have terminated. Try running the command again",
            PortsError::SystemError {
                ..
            } => "Check system permissions and ensure the OS APIs are accessible",
            PortsError::IoError { .. } => "Check file permissions and system resources",
        }
    }
}

} // verus!
