use ssher::monitor::{
    ProcessInfo, active_pids, connection_pids, is_connection_command, parse_process_line,
    parse_process_listing,
};

#[test]
fn connection_needs_host_and_tool() {
    assert!(is_connection_command("ssh -p 22 me@prod.example.com", "prod.example.com"));
    assert!(is_connection_command("sftp prod.example.com", "prod.example.com"));
    assert!(!is_connection_command("ping prod.example.com", "prod.example.com"));
    assert!(!is_connection_command("ssh other.example.com", "prod.example.com"));
}

#[test]
fn active_pids_keeps_snapshot_order() {
    let snapshot = vec![
        ProcessInfo { pid: 30, command: "ssh me@h".to_string() },
        ProcessInfo { pid: 10, command: "vim h".to_string() },
        ProcessInfo { pid: 20, command: "scp f me@h:/x".to_string() },
    ];
    assert_eq!(active_pids(&snapshot, "h"), vec![30, 20]);
}

#[test]
fn parse_line_reads_pid_and_command() {
    let p = parse_process_line("  4242 ssh -p 22 me@h  ").unwrap();
    assert_eq!(p.pid, 4242);
    assert_eq!(p.command, "ssh -p 22 me@h");
    assert!(parse_process_line("4242").is_none());
    assert!(parse_process_line("abc ssh h").is_none());
    assert!(parse_process_line("").is_none());
}

#[test]
fn listing_to_connection_pids() {
    let listing = "  1 /sbin/init\n 77 ssh deploy@prod.example.com\r\n 78 bash\n 79 scp a prod.example.com:/b\n";
    assert_eq!(parse_process_listing(listing).len(), 4);
    assert_eq!(connection_pids(listing, "prod.example.com"), vec![77, 79]);
    assert!(connection_pids("", "prod.example.com").is_empty());
}
