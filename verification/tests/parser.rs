use bwrap_core::events::{parse_event, Events};
use bwrap_core::numfmt::{fmt_i64, fmt_u64};

fn parse(line: &str) -> Option<Events> {
    parse_event(line.as_bytes())
}

#[test]
fn parse_sandbox_status_full() {
    let line = "{ \"child-pid\": 77360, \"cgroup-namespace\": 4026534046, \"ipc-namespace\": 4026534044, \"mnt-namespace\": 4026534042, \"net-namespace\": 4026534047, \"pid-namespace\": 4026534045, \"uts-namespace\": 4026534043 }\n";
    match parse(line) {
        Some(Events::Status(s)) => {
            assert_eq!(s.child_pid, 77360);
            assert_eq!(s.cgroup_namespace, Some(4026534046));
            assert_eq!(s.ipc_namespace, Some(4026534044));
            assert_eq!(s.mnt_namespace, Some(4026534042));
            assert_eq!(s.net_namespace, Some(4026534047));
            assert_eq!(s.pid_namespace, Some(4026534045));
            assert_eq!(s.uts_namespace, Some(4026534043));
        }
        other => panic!("expected a sandbox status, got {:?}", other),
    }
}

#[test]
fn parse_sandbox_status_minimal() {
    match parse("{\"child-pid\": 1}\n") {
        Some(Events::Status(s)) => {
            assert_eq!(s.child_pid, 1);
            assert_eq!(s.cgroup_namespace, None);
            assert_eq!(s.net_namespace, None);
        }
        other => panic!("expected a sandbox status, got {:?}", other),
    }
}

#[test]
fn parse_exit_status() {
    match parse("{\"exit-code\": 0}\n") {
        Some(Events::Exit(e)) => assert_eq!(e.exit_code, 0),
        other => panic!("expected an exit status, got {:?}", other),
    }
}

#[test]
fn parse_exit_status_negative() {
    match parse("{ \"exit-code\": -13 }") {
        Some(Events::Exit(e)) => assert_eq!(e.exit_code, -13),
        other => panic!("expected an exit status, got {:?}", other),
    }
}

#[test]
fn status_wins_over_exit() {
    match parse("{\"child-pid\": 7, \"exit-code\": 3}") {
        Some(Events::Status(s)) => assert_eq!(s.child_pid, 7),
        other => panic!("expected a sandbox status, got {:?}", other),
    }
}

#[test]
fn first_occurrence_of_a_key_wins() {
    match parse("{\"exit-code\": 4, \"exit-code\": 9}") {
        Some(Events::Exit(e)) => assert_eq!(e.exit_code, 4),
        other => panic!("expected an exit status, got {:?}", other),
    }
}

#[test]
fn unknown_members_are_tolerated() {
    match parse("{\"noise\": 1, \"exit-code\": 2}") {
        Some(Events::Exit(e)) => assert_eq!(e.exit_code, 2),
        other => panic!("expected an exit status, got {:?}", other),
    }
}

#[test]
fn unrecognised_member_sets_are_no_event() {
    assert!(parse("{}").is_none());
    assert!(parse("{\"noise\": 1}").is_none());
}

#[test]
fn child_pid_out_of_range_is_no_status() {
    assert!(parse("{\"child-pid\": 5000000000}").is_none());
    assert!(parse("{\"child-pid\": -1}").is_none());
}

#[test]
fn namespace_out_of_range_spoils_the_status() {
    // The status reading fails, and no exit code is present either.
    assert!(parse("{\"child-pid\": 1, \"net-namespace\": 5000000000}").is_none());
}

#[test]
fn exit_code_out_of_range_is_no_event() {
    assert!(parse("{\"exit-code\": 3000000000}").is_none());
}

#[test]
fn malformed_lines_are_no_event() {
    assert!(parse("").is_none());
    assert!(parse("\n").is_none());
    assert!(parse("{").is_none());
    assert!(parse("{\"exit-code\": }").is_none());
    assert!(parse("{\"exit-code\" 0}").is_none());
    assert!(parse("{\"exit-code\": 0,}").is_none());
    assert!(parse("{\"exit-code\": 0} trailing").is_none());
    assert!(parse("{\"exit\\u0041\": 0}").is_none());
    assert!(parse("[1, 2]").is_none());
}

#[test]
fn digit_runs_beyond_the_protocol_are_rejected() {
    assert!(parse("{\"exit-code\": 1234567890123456789012}").is_none());
}

#[test]
fn whitespace_is_insignificant() {
    match parse("  \t{ \"exit-code\"\t:\r\n 5 }  \r\n") {
        Some(Events::Exit(e)) => assert_eq!(e.exit_code, 5),
        other => panic!("expected an exit status, got {:?}", other),
    }
}

#[test]
fn decimal_rendering_is_exact() {
    assert_eq!(fmt_u64(0), "0");
    assert_eq!(fmt_u64(7), "7");
    assert_eq!(fmt_u64(1234567890), "1234567890");
    assert_eq!(fmt_u64(u64::MAX), "18446744073709551615");
    assert_eq!(fmt_i64(0), "0");
    assert_eq!(fmt_i64(-1), "-1");
    assert_eq!(fmt_i64(-42), "-42");
    assert_eq!(fmt_i64(i64::MIN), "-9223372036854775808");
    assert_eq!(fmt_i64(i64::MAX), "9223372036854775807");
}
