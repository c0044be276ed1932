use watchdog::task::{command_has_tokens, memory_limit_kb, observed_exit_code, setup_error_output};

#[test]
fn commands_with_a_token_are_accepted() {
    assert!(command_has_tokens("echo hello"));
    assert!(command_has_tokens("ls"));
    assert!(command_has_tokens("  sleep 5  "));
}

#[test]
fn whitespace_only_commands_are_rejected() {
    assert!(!command_has_tokens(""));
    assert!(!command_has_tokens("   "));
    assert!(!command_has_tokens("\t\n\r "));
}

#[test]
fn megabytes_become_kilobytes() {
    assert_eq!(memory_limit_kb(256), 262144);
    assert_eq!(memory_limit_kb(1024), 1048576);
    assert_eq!(memory_limit_kb(0), 0);
}

#[test]
fn oversized_ceiling_saturates() {
    assert_eq!(memory_limit_kb(u64::MAX), u64::MAX);
    assert_eq!(memory_limit_kb(u64::MAX / 1024), (u64::MAX / 1024) * 1024);
}

#[test]
fn plain_exit_codes_pass_through() {
    assert_eq!(observed_exit_code(Some(0), None), Some(0));
    assert_eq!(observed_exit_code(Some(2), None), Some(2));
    assert_eq!(observed_exit_code(Some(1), Some(9)), Some(1));
}

#[test]
fn signal_termination_still_yields_a_code() {
    // The shell convention: signal number plus 128, as after a forced or
    // a graceful kill.
    assert_eq!(observed_exit_code(None, Some(9)), Some(137));
    assert_eq!(observed_exit_code(None, Some(15)), Some(143));
}

#[test]
fn no_code_and_no_signal_stays_absent() {
    assert_eq!(observed_exit_code(None, None), None);
}

#[test]
fn setup_error_reports_message_and_nothing_else() {
    let out = setup_error_output("Invalid command".to_string());
    assert_eq!(out.exit_code, None);
    assert_eq!(out.stdout, "");
    assert_eq!(out.stderr, "Invalid command");
    assert_eq!(out.time_ms, 0);
    assert_eq!(out.memory_kb, 0);
    assert!(!out.tle && !out.mle && !out.ole);
}
