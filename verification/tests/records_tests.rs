//! Tests for data models, duration formatting, errors, timestamps and
//! process enrichment.

use ports::error::PortsError;
use ports::models::{format_duration, AppType, PortEntry, ProcessInfo, Protocol};
use ports::output::OutputFormat;
use ports::process_info::{enrich_process_info, parse_lstart};
use ports::timestamp::Timestamp;

#[test]
fn test_format_duration_seconds() {
    assert_eq!(format_duration(30), "30s");
}

#[test]
fn test_format_duration_minutes() {
    assert_eq!(format_duration(90), "1m");
    assert_eq!(format_duration(300), "5m");
}

#[test]
fn test_format_duration_hours() {
    assert_eq!(format_duration(3600), "1h");
    assert_eq!(format_duration(3600 + 900), "1h 15m");
}

#[test]
fn test_format_duration_days() {
    assert_eq!(format_duration(86400), "1d");
    assert_eq!(format_duration(86400 + 10800), "1d 3h");
}

#[test]
fn test_format_duration_boundaries() {
    assert_eq!(format_duration(0), "0s");
    assert_eq!(format_duration(59), "59s");
    assert_eq!(format_duration(60), "1m");
    assert_eq!(format_duration(3599), "59m");
    assert_eq!(format_duration(4500), "1h 15m");
    assert_eq!(format_duration(86399), "23h 59m");
    assert_eq!(format_duration(97200), "1d 3h");
}

#[test]
fn test_app_type_display() {
    assert_eq!(AppType::NodeJs.display_name(), "Node.js");
    assert_eq!(AppType::DotNet.display_name(), ".NET");
    assert_eq!(AppType::Unknown.display_name(), "Unknown");
}

#[test]
fn test_process_info_builders() {
    let p = ProcessInfo::new(42, "srv".to_string())
        .with_command("srv --port 80".to_string())
        .with_user("alice".to_string());
    assert_eq!(p.pid, 42);
    assert_eq!(p.name, "srv");
    assert_eq!(p.command.as_deref(), Some("srv --port 80"));
    assert_eq!(p.user.as_deref(), Some("alice"));
    assert!(p.started_at.is_none());
    assert!(p.elapsed.is_none());
}

#[test]
fn test_with_started_at_sets_elapsed() {
    let ts = Timestamp::new(2025, 1, 1, 12, 34, 56).unwrap();
    let now = ts.epoch_seconds() + 3600;
    let p = ProcessInfo::new(1, "a".to_string()).with_started_at(ts, now);
    assert_eq!(p.started_at, Some(ts));
    assert_eq!(p.elapsed, Some(3600));
    assert_eq!(p.elapsed_human().as_deref(), Some("1h"));
}

#[test]
fn test_with_started_at_future_start_leaves_elapsed_absent() {
    let ts = Timestamp::new(2025, 1, 1, 12, 34, 56).unwrap();
    let now = ts.epoch_seconds() - 5;
    let p = ProcessInfo::new(1, "a".to_string()).with_started_at(ts, now);
    assert_eq!(p.started_at, Some(ts));
    assert!(p.elapsed.is_none());
    assert!(p.elapsed_human().is_none());
}

#[test]
fn test_port_entry_builders() {
    let e = PortEntry::new(8080, Protocol::Tcp, ProcessInfo::new(7, "x".to_string()))
        .with_app_type(AppType::Go);
    assert_eq!(e.port, 8080);
    assert_eq!(e.protocol, Protocol::Tcp);
    assert_eq!(e.app_type, Some(AppType::Go));
}

#[test]
fn test_output_format_values() {
    assert_ne!(OutputFormat::Table, OutputFormat::Json);
}

#[test]
fn test_error_messages_and_hints() {
    let e = PortsError::permission_denied("no access".to_string());
    assert_eq!(e.message(), "Permission denied: no access");
    assert_eq!(
        e.hint(),
        "Try running with elevated privileges (sudo) to see all process details"
    );

    let e = PortsError::process_not_found(42);
    assert_eq!(e.message(), "Process not found: PID 42");
    assert_eq!(e.hint(), "The process may have terminated. Try running the command again");

    let e = PortsError::system_error("lsof failed".to_string());
    assert_eq!(e.message(), "System error: lsof failed");
    assert_eq!(e.hint(), "Check system permissions and ensure the OS APIs are accessible");

    let e = PortsError::io_error("broken pipe".to_string());
    assert_eq!(e.message(), "I/O error: broken pipe");
    assert_eq!(e.hint(), "Check file permissions and system resources");
}

#[test]
fn test_timestamp_epoch_values() {
    // The epoch value must come from the calendar fields, not be a
    // placeholder: the Unix epoch itself and one day later.
    let t0 = Timestamp::new(1970, 1, 1, 0, 0, 0).unwrap();
    assert_eq!(t0.epoch_seconds(), 0);
    let t1 = Timestamp::new(1970, 1, 2, 0, 0, 0).unwrap();
    assert_eq!(t1.epoch_seconds(), 86400);
    let t2 = Timestamp::new(1970, 1, 1, 12, 34, 56).unwrap();
    assert_eq!(t2.epoch_seconds(), 12 * 3600 + 34 * 60 + 56);
}

#[test]
fn test_timestamp_rejects_invalid_dates() {
    assert!(Timestamp::new(2025, 13, 1, 0, 0, 0).is_none());
    assert!(Timestamp::new(2025, 0, 1, 0, 0, 0).is_none());
    assert!(Timestamp::new(2025, 4, 31, 0, 0, 0).is_none());
    assert!(Timestamp::new(2025, 2, 29, 0, 0, 0).is_none());
    assert!(Timestamp::new(2024, 2, 29, 0, 0, 0).is_some());
    assert!(Timestamp::new(2025, 1, 1, 24, 0, 0).is_none());
    assert!(Timestamp::new(2025, 1, 1, 0, 60, 0).is_none());
    assert!(Timestamp::new(2025, 1, 1, 0, 0, 60).is_none());
}

#[test]
fn test_parse_lstart() {
    let lstart = "Wed Jan  1 12:34:56 2025";
    let result = parse_lstart(lstart);
    assert!(result.is_ok());

    let dt = result.unwrap();
    assert_eq!(dt.month(), 1);
    assert_eq!(dt.day(), 1);
    assert_eq!(dt.hour(), 12);
    assert_eq!(dt.minute(), 34);
    assert_eq!(dt.second(), 56);
    assert_eq!(dt.year(), 2025);
}

#[test]
fn test_parse_lstart_failures() {
    let r = parse_lstart("Jan 1 2025");
    assert!(matches!(r, Err(PortsError::SystemError { .. })));

    let r = parse_lstart("Wed Foo  1 12:34:56 2025");
    assert!(matches!(r, Err(PortsError::SystemError { .. })));

    let r = parse_lstart("Wed Jan 32 12:34:56 2025");
    assert!(matches!(r, Err(PortsError::SystemError { .. })));

    let r = parse_lstart("Wed Jan  1 12:34 2025");
    assert!(matches!(r, Err(PortsError::SystemError { .. })));

    let r = parse_lstart("Wed Jan  1 12:34:xx 2025");
    assert!(matches!(r, Err(PortsError::SystemError { .. })));

    let r = parse_lstart("Wed Jan  1 12:34:56 year");
    assert!(matches!(r, Err(PortsError::SystemError { .. })));
}

#[test]
fn test_enrich_merges_available_fields() {
    let ts = parse_lstart("Wed Jan  1 12:34:56 2025").unwrap();
    let now = ts.epoch_seconds() + 120;
    let mut p = ProcessInfo::new(9, "node".to_string());
    enrich_process_info(
        &mut p,
        Some(" node server.js \n".to_string()),
        Some("Wed Jan  1 12:34:56 2025\n".to_string()),
        Some("alice\n".to_string()),
        now,
    );
    assert_eq!(p.command.as_deref(), Some("node server.js"));
    assert_eq!(p.started_at, Some(ts));
    assert_eq!(p.elapsed, Some(120));
    assert_eq!(p.user.as_deref(), Some("alice"));
}

#[test]
fn test_enrich_keeps_fields_on_failed_lookups() {
    let mut p = ProcessInfo::new(9, "node".to_string());
    enrich_process_info(&mut p, None, Some("  \n".to_string()), Some("".to_string()), 0);
    assert!(p.command.is_none());
    assert!(p.started_at.is_none());
    assert!(p.elapsed.is_none());
    assert!(p.user.is_none());
}

#[test]
fn test_enrich_swallows_bad_timestamp() {
    let mut p = ProcessInfo::new(9, "node".to_string());
    enrich_process_info(
        &mut p,
        Some("node server.js".to_string()),
        Some("not a timestamp".to_string()),
        None,
        0,
    );
    assert_eq!(p.command.as_deref(), Some("node server.js"));
    assert!(p.started_at.is_none());
    assert!(p.elapsed.is_none());
}
