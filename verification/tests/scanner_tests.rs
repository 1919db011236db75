//! Tests for the socket enumerator's output parsing and entry ordering.

use ports::models::{PortEntry, ProcessInfo, Protocol};
use ports::port_scanner::{extract_port_from_name, parse_lsof_output, sort_by_port};

#[test]
fn test_extract_port_from_wildcard() {
    assert_eq!(extract_port_from_name("*:3000"), Some(3000));
}

#[test]
fn test_extract_port_from_ipv4() {
    assert_eq!(extract_port_from_name("127.0.0.1:8080"), Some(8080));
}

#[test]
fn test_extract_port_from_ipv6() {
    assert_eq!(extract_port_from_name("[::1]:9000"), Some(9000));
}

#[test]
fn test_extract_port_no_colon_parses_whole() {
    assert_eq!(extract_port_from_name("3000"), Some(3000));
}

#[test]
fn test_extract_port_rejects_bad_values() {
    assert_eq!(extract_port_from_name("*:http"), None);
    assert_eq!(extract_port_from_name("*:70000"), None);
    assert_eq!(extract_port_from_name("*:"), None);
    assert_eq!(extract_port_from_name(""), None);
}

#[test]
fn test_parse_lsof_output() {
    let output = "p1234\ncnode\nn*:3000\np5678\ncpython\nn127.0.0.1:8080\n";
    let entries = parse_lsof_output(output).unwrap();

    assert_eq!(entries.len(), 2);
    assert_eq!(entries[0].port, 3000);
    assert_eq!(entries[0].process.pid, 1234);
    assert_eq!(entries[0].process.name, "node");
    assert_eq!(entries[1].port, 8080);
    assert_eq!(entries[1].process.pid, 5678);
    assert_eq!(entries[1].process.name, "python");
}

#[test]
fn test_parse_lsof_entries_are_fresh() {
    let output = "p1234\ncnode\nn*:3000\n";
    let entries = parse_lsof_output(output).unwrap();
    assert_eq!(entries.len(), 1);
    assert_eq!(entries[0].protocol, Protocol::Tcp);
    assert!(entries[0].app_type.is_none());
    assert!(entries[0].process.command.is_none());
    assert!(entries[0].process.started_at.is_none());
    assert!(entries[0].process.elapsed.is_none());
    assert!(entries[0].process.user.is_none());
}

#[test]
fn test_parse_lsof_deduplicates_port_pid() {
    let output = "p1234\ncnode\nn*:3000\nn*:3000\nn127.0.0.1:3000\n";
    let entries = parse_lsof_output(output).unwrap();
    assert_eq!(entries.len(), 1);
    assert_eq!(entries[0].port, 3000);
}

#[test]
fn test_parse_lsof_context_persists_across_pid_lines() {
    // A `p` line does not reset a previously seen `c` until another `c`
    // arrives: the second socket is attributed to pid 99 with name "node".
    let output = "p1234\ncnode\nn*:3000\np99\nn*:4000\n";
    let entries = parse_lsof_output(output).unwrap();
    assert_eq!(entries.len(), 2);
    assert_eq!(entries[1].port, 4000);
    assert_eq!(entries[1].process.pid, 99);
    assert_eq!(entries[1].process.name, "node");
}

#[test]
fn test_parse_lsof_skips_incomplete_records() {
    // No pid seen yet: the first `n` line emits nothing. An unparseable
    // port and blank lines and unknown tags are skipped silently.
    let output = "cnode\nn*:3000\np77\n\nxjunk\nn*:bad\nn*:5000";
    let entries = parse_lsof_output(output).unwrap();
    assert_eq!(entries.len(), 1);
    assert_eq!(entries[0].port, 5000);
    assert_eq!(entries[0].process.pid, 77);
    assert_eq!(entries[0].process.name, "node");
}

#[test]
fn test_parse_lsof_unparseable_pid_clears_context() {
    let output = "p1234\ncnode\npnope\nn*:3000\n";
    let entries = parse_lsof_output(output).unwrap();
    assert_eq!(entries.len(), 0);
}

#[test]
fn test_parse_lsof_handles_crlf() {
    let output = "p1234\r\ncnode\r\nn*:3000\r\n";
    let entries = parse_lsof_output(output).unwrap();
    assert_eq!(entries.len(), 1);
    assert_eq!(entries[0].port, 3000);
    assert_eq!(entries[0].process.name, "node");
}

#[test]
fn test_parse_lsof_empty_input() {
    let entries = parse_lsof_output("").unwrap();
    assert_eq!(entries.len(), 0);
}

#[test]
fn test_sort_by_port_ascending() {
    let mut entries = vec![
        PortEntry::new(8080, Protocol::Tcp, ProcessInfo::new(2, "b".to_string())),
        PortEntry::new(80, Protocol::Tcp, ProcessInfo::new(1, "a".to_string())),
        PortEntry::new(3000, Protocol::Tcp, ProcessInfo::new(3, "c".to_string())),
    ];
    sort_by_port(&mut entries);
    assert_eq!(entries.len(), 3);
    assert_eq!(entries[0].port, 80);
    assert_eq!(entries[1].port, 3000);
    assert_eq!(entries[2].port, 8080);
    assert_eq!(entries[0].process.name, "a");
    assert_eq!(entries[1].process.name, "c");
    assert_eq!(entries[2].process.name, "b");
}
