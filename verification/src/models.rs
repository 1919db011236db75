//! Data models: port entries, process information, application types,
//! and the human-readable duration format.

use crate::text::{append_dec, dec_chars};
use crate::timestamp::{spec_elapsed, Timestamp};
use vstd::prelude::*;
use vstd::string::StringExecFns;

verus! {

/// Network protocol type.
#[derive(Debug, Clone, Copy, PartialEq, Eq, Structural)]
pub enum Protocol {
    /// TCP protocol
    Tcp,
}

/// Application type detected from the command line.
#[derive(Debug, Clone, PartialEq, Eq, Structural)]
pub enum AppType {
    /// Node.js application (node, npm, yarn)
    NodeJs,
    /// Python application (python, uvicorn, gunicorn)
    Python,
    /// .NET application (dotnet, *.dll)
    DotNet,
    /// Java application (java, *.jar)
    Java,
    /// Go application (go, gin, echo)
    Go,
    /// Ruby application (ruby, rails, puma)
    Ruby,
    /// PHP application (php, artisan)
    Php,
    /// Rust application (cargo, target/)
    Rust,
    /// Nginx web server
    Nginx,
    /// Apache web server (httpd, apache)
    Apache,
    /// Unknown application type
    Unknown,
}

/// The display name of an application type.
pub open spec fn spec_display_name(t: AppType) -> Seq<char> {
    match t {
        AppType::NodeJs => "Node.js"@,
        AppType::Python => "Python"@,
        AppType::DotNet => ".NET"@,
        AppType::Java => "Java"@,
        AppType::Go => "Go"@,
        AppType::Ruby => "Ruby"@,
        AppType::Php => "PHP"@,
        AppType::Rust => "Rust"@,
        AppType::Nginx => "Nginx"@,
        AppType::Apache => "Apache"@,
        AppType::Unknown => "Unknown"@,
    }
}

impl AppType {
    /// Returns the display name for this application type.
    pub fn display_name(&self) -> (r: &'static str)
        ensures
            r@ == spec_display_name(*self),
    {
        match self {
            AppType::NodeJs => "Node.js",
            AppType::Python => "Python",
            AppType::DotNet => ".NET",
            AppType::Java => "Java",
            AppType::Go => "Go",
            AppType::Ruby => "Ruby",
            AppType::Php => "PHP",
            AppType::Rust => "Rust",
            AppType::Nginx => "Nginx",
            AppType::Apache => "Apache",
            AppType::Unknown => "Unknown",
        }
    }
}

/// The view of an optional owned string.
pub open spec fn opt_view(o: Option<String>) -> Option<Seq<char>> {
    match o {
        Some(x) => Some(x@),
        None => None,
    }
}

/// The mathematical view of a process record.
#[verifier::ext_equal]
pub ghost struct ProcessInfoView {
    pub pid: u32,
    pub name: Seq<char>,
    pub command: Option<Seq<char>>,
    pub started_at: Option<Timestamp>,
    pub elapsed: Option<u64>,
    pub user: Option<Seq<char>>,
}

/// Information about a process using a network port.
#[derive(Debug, Clone)]
pub struct ProcessInfo {
    /// Process ID
    pub pid: u32,
    /// Process name (executable name)
    pub name: String,
    /// Full command line (if available)
    pub command: Option<String>,
    /// Process start time (if available)
    pub started_at: Option<Timestamp>,
    /// Whole seconds elapsed since the process started (if available)
    pub elapsed: Option<u64>,
    /// User running the process (if available)
    pub user: Option<String>,
}

impl View for ProcessInfo {
    type V = ProcessInfoView;

    open spec fn view(&self) -> ProcessInfoView {
        ProcessInfoView {
            pid: self.pid,
            name: self.name@,
            command: match self.command {
                Some(c) => Some(c@),
                None => None,
            },
            started_at: self.started_at,
            elapsed: self.elapsed,
            user: match self.user {
                Some(u) => Some(u@),
                None => None,
            },
        }
    }
}

impl ProcessInfo {
    /// Creates a new ProcessInfo with basic information.
    pub fn new(pid: u32, name: String) -> (r: Self)
        ensures
            r@ == (ProcessInfoView {
                pid,
                name: name@,
                command: None,
                started_at: None,
                elapsed: None,
                user: None,
            }),
    {
        ProcessInfo { pid, name, command: None, started_at: None, elapsed: None, user: None }
    }

    /// Sets the command line.
    pub fn with_command(self, command: String) -> (r: Self)
        ensures
            r@ == (ProcessInfoView { command: Some(command@), ..self@ }),
    {
        ProcessInfo { command: Some(command), ..self }
    }

    /// Sets the start time and, when the start does not lie in the future
    /// of `now_seconds`, the elapsed duration.
    pub fn with_started_at(self, started_at: Timestamp, now_seconds: i64) -> (r: Self)
        ensures
            r@ == (ProcessInfoView {
                started_at: Some(started_at),
                elapsed: match spec_elapsed(started_at.epoch, now_seconds) {
                    Some(e) => Some(e),
                    None => self@.elapsed,
                },
                ..self@
            }),
    {
        let elapsed = match crate::timestamp::elapsed_since(started_at.epoch_seconds(), now_seconds) {
            Some(e) => Some(e),
            None => self.elapsed,
        };
        ProcessInfo { started_at: Some(started_at), elapsed, ..self }
    }

    /// Sets the user.
    pub fn with_user(self, user: String) -> (r: Self)
        ensures
            r@ == (ProcessInfoView { user: Some(user@), ..self@ }),
    {
        ProcessInfo { user: Some(user), ..self }
    }

    /// Returns a human-readable elapsed time string.
    pub fn elapsed_human(&self) -> (r: Option<String>)
        ensures
            match self.elapsed {
                Some(e) => r matches Some(s) && s@ == spec_format_duration(e),
                None => r is None,
            },
    {
        match self.elapsed {
            Some(e) => Some(format_duration(e)),
            None => None,
        }
    }
}

/// The mathematical view of a port entry.
#[verifier::ext_equal]
pub ghost struct PortEntryView {
    pub port: u16,
    pub protocol: Protocol,
    pub process: ProcessInfoView,
    pub app_type: Option<AppType>,
}

/// A listening port entry with associated process information.
#[derive(Debug, Clone)]
pub struct PortEntry {
    /// The port number (1-65535)
    pub port: u16,
    /// The network protocol (TCP)
    pub protocol: Protocol,
    /// Information about the process using this port
    pub process: ProcessInfo,
    /// Detected application type (if identifiable)
    pub app_type: Option<AppType>,
}

impl View for PortEntry {
    type V = PortEntryView;

    open spec fn view(&self) -> PortEntryView {
        PortEntryView {
            port: self.port,
            protocol: self.protocol,
            process: self.process@,
            app_type: self.app_type,
        }
    }
}

impl PortEntry {
    /// Creates a new PortEntry.
    pub fn new(port: u16, protocol: Protocol, process: ProcessInfo) -> (r: Self)
        ensures
            r@ == (PortEntryView { port, protocol, process: process@, app_type: None }),
    {
        PortEntry { port, protocol, process, app_type: None }
    }

    /// Sets the application type.
    pub fn with_app_type(self, app_type: AppType) -> (r: Self)
        ensures
            r@ == (PortEntryView { app_type: Some(app_type), ..self@ }),
    {
        PortEntry { app_type: Some(app_type), ..self }
    }
}

/// The human-readable rendering of a duration given in seconds: seconds
/// below a minute, whole minutes below an hour, hours with a nonzero
/// minute remainder below a day, then days with a nonzero hour remainder.
pub open spec fn spec_format_duration(d: u64) -> Seq<char> {
    if d < 60 {
        dec_chars(d as int) + "s"@
    } else if d / 60 < 60 {
        dec_chars((d / 60) as int) + "m"@
    } else if d / 60 / 60 < 24 {
        if (d / 60) % 60 == 0 {
            dec_chars((d / 60 / 60) as int) + "h"@
        } else {
            dec_chars((d / 60 / 60) as int) + "h "@ + dec_chars(((d / 60) % 60) as int) + "m"@
        }
    } else {
        if (d / 60 / 60) % 24 == 0 {
            dec_chars((d / 60 / 60 / 24) as int) + "d"@
        } else {
            dec_chars((d / 60 / 60 / 24) as int) + "d "@ + dec_chars(((d / 60 / 60) % 24) as int)
                + "h"@
        }
    }
}

/// Formats a duration in seconds into a human-readable string
/// (e.g., "2h 15m", "1d 3h").
pub fn format_duration(total_seconds: u64) -> (r: String)
    ensures
        r@ == spec_format_duration(total_seconds),
{
    let mut out = String::new();
    if total_seconds < 60 {
        append_dec(&mut out, total_seconds);
        out.append("s");
        proof {
            assert(out@ =~= spec_format_duration(total_seconds));
        }
        return out;
    }
    let minutes = total_seconds / 60;
    if minutes < 60 {
        append_dec(&mut out, minutes);
        out.append("m");
        proof {
            assert(out@ =~= spec_format_duration(total_seconds));
        }
        return out;
    }
    let hours = minutes / 60;
    let remaining_minutes = minutes % 60;
    if hours < 24 {
        append_dec(&mut out, hours);
        if remaining_minutes > 0 {
            out.append("h ");
            append_dec(&mut out, remaining_minutes);
            out.append("m");
        } else {
            out.append("h");
        }
        proof {
            assert(out@ =~= spec_format_duration(total_seconds));
        }
        return out;
    }
    let days = hours / 24;
    let remaining_hours = hours % 24;
    append_dec(&mut out, days);
    if remaining_hours > 0 {
        out.append("d ");
        append_dec(&mut out, remaining_hours);
        out.append("h");
    } else {
        out.append("d");
    }
    proof {
        assert(out@ =~= spec_format_duration(total_seconds));
    }
    out
}

} // verus!
