use fgp_neon::error::NeonError;
use fgp_neon::lifecycle::{
    choose_api_key, comm_matches, contains_text, default_socket, parse_pid, pid_file_path, require_org_id,
    start_lines, status_lines, status_request_line, stop_target, SocketProbe, StopError,
};
use fgp_neon::text::escape_sql_quotes;

#[test]
fn status_without_socket_is_not_running() {
    let lines = status_lines("/tmp/x.sock", &SocketProbe::Absent);
    assert_eq!(lines[0], "Status: NOT RUNNING");
    assert_eq!(lines[1], "Socket /tmp/x.sock does not exist");
}

#[test]
fn status_with_answer_is_running() {
    let lines = status_lines("/s", &SocketProbe::Answered("{\"ok\":true}\n".to_string()));
    assert_eq!(lines, vec!["Status: RUNNING", "Socket: /s", "Health: {\"ok\":true}"]);
}

#[test]
fn status_unreachable_is_not_responding() {
    let lines = status_lines("/s", &SocketProbe::Unreachable("refused".to_string()));
    assert_eq!(lines[0], "Status: NOT RESPONDING");
    assert_eq!(lines[1], "Socket exists but connection failed: refused");
}

#[test]
fn status_request_is_a_health_call() {
    assert_eq!(status_request_line(), "{\"id\":\"status\",\"v\":1,\"method\":\"health\",\"params\":{}}");
}

#[test]
fn stop_refuses_other_process() {
    match stop_target(4242, Some("other-daemon\n")) {
        Err(e) => {
            assert!(matches!(e, StopError::UnexpectedProcess(4242)));
            assert_eq!(e.message(), "Refusing to stop PID 4242: unexpected process");
        },
        Ok(_) => panic!("must refuse"),
    }
    assert!(stop_target(7, None).is_err());
}

#[test]
fn stop_accepts_daemon_process() {
    assert!(matches!(stop_target(7, Some("  fgp-neon\n")), Ok(7)));
}

#[test]
fn comm_match_trims_and_searches() {
    assert!(comm_matches(" /usr/bin/fgp-neon \n", "fgp-neon"));
    assert!(!comm_matches("fgp-neo", "fgp-neon"));
    assert!(contains_text("abc", ""));
    assert!(contains_text("abcabd", "abd"));
    assert!(!contains_text("", "a"));
}

#[test]
fn pid_file_parsing() {
    assert!(matches!(parse_pid("1234\n"), Ok(1234)));
    assert!(matches!(parse_pid("  -1 "), Ok(-1)));
    assert!(matches!(parse_pid("abc"), Err(StopError::InvalidPid)));
    assert!(matches!(parse_pid(""), Err(StopError::InvalidPid)));
}

#[test]
fn pid_file_sits_beside_socket() {
    assert_eq!(pid_file_path("/a/daemon.sock"), "/a/daemon.sock.pid");
    assert_eq!(default_socket(), "~/.fgp/services/neon/daemon.sock");
}

#[test]
fn credentials_order() {
    assert_eq!(choose_api_key(Some("env".to_string()), Some("file".to_string())).ok(), Some("env".to_string()));
    assert_eq!(choose_api_key(None, Some("file".to_string())).ok(), Some("file".to_string()));
    match choose_api_key(None, None) {
        Err(NeonError::Config(m)) => assert!(m.contains("neonctl auth")),
        _ => panic!("expected a configuration error"),
    }
    match require_org_id(None) {
        Err(NeonError::Config(m)) => assert!(m.starts_with("NEON_ORG_ID environment variable not set")),
        _ => panic!("expected a configuration error"),
    }
    assert_eq!(require_org_id(Some("org".to_string())).ok(), Some("org".to_string()));
}

#[test]
fn start_banner() {
    assert_eq!(start_lines("/s", "o"), vec!["Starting fgp-neon daemon...", "Socket: /s", "Org ID: o"]);
}

#[test]
fn quote_escaping() {
    assert_eq!(escape_sql_quotes("O'Brien"), "O''Brien");
    assert_eq!(escape_sql_quotes("''"), "''''");
    assert_eq!(escape_sql_quotes(""), "");
    assert_eq!(escape_sql_quotes("plain"), "plain");
}
