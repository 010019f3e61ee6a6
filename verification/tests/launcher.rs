use pumas_core::error::PumasError;
use pumas_core::launcher::{
    last_lines, parse_pid, serve_args, strip_leading_v, ReadinessAction, ReadinessEvent, ReadinessWait, VersionLauncher,
};

fn create_test_launcher() -> VersionLauncher {
    VersionLauncher::new("/tmp/launcher".to_string(), "ollama-versions".to_string(), "/tmp/launcher/logs".to_string())
}

#[test]
fn test_slugify_tag() {
    let launcher = create_test_launcher();
    assert_eq!(launcher.slugify_tag("v1.0.0"), "100");
    assert_eq!(launcher.slugify_tag("v1.0.0-beta"), "100-beta");
    assert_eq!(launcher.slugify_tag("1.0.0"), "100");
}

#[test]
fn test_version_path() {
    let launcher = create_test_launcher();
    assert_eq!(launcher.version_path("v1.0.0"), "/tmp/launcher/ollama-versions/v1.0.0");
}

#[test]
fn slug_lowercases_and_drops_every_leading_v() {
    let launcher = create_test_launcher();
    assert_eq!(launcher.slugify_tag("VV2.1_RC"), "21_rc");
    assert_eq!(launcher.slugify_tag("release 3/4"), "release34");
    assert_eq!(strip_leading_v("vvx"), "x");
    assert_eq!(strip_leading_v("xv"), "xv");
}

#[test]
fn last_lines_keeps_the_tail_and_strips_line_endings() {
    let all = last_lines("a\r\nb\n\nc", 10);
    assert_eq!(all, vec!["a".to_string(), "b".to_string(), "".to_string(), "c".to_string()]);
    let tail = last_lines("a\r\nb\n\nc", 2);
    assert_eq!(tail, vec!["".to_string(), "c".to_string()]);
    assert_eq!(last_lines("x\n", 5), vec!["x".to_string()]);
    assert!(last_lines("", 3).is_empty());
    assert!(last_lines("one\ntwo\n", 0).is_empty());
    assert_eq!(last_lines("keep\r", 1), vec!["keep\r".to_string()]);
}

#[test]
fn launch_logs_are_named_after_the_slug_and_time() {
    let launcher = create_test_launcher();
    assert_eq!(
        launcher.launch_log_path("v0.5.1-rc", "20250101-120000"),
        "/tmp/launcher/logs/launch-051-rc-20250101-120000.log"
    );
}

#[test]
fn serve_comes_before_the_extra_arguments() {
    assert_eq!(serve_args(None), vec!["serve".to_string()]);
    assert_eq!(
        serve_args(Some(vec!["--verbose".to_string(), "x".to_string()])),
        vec!["serve".to_string(), "--verbose".to_string(), "x".to_string()]
    );
}

fn invalid(r: Result<i32, PumasError>) -> String {
    match r {
        Err(PumasError::Other(m)) => m,
        other => panic!("unexpected: {:?}", other),
    }
}

#[test]
fn pid_files_hold_a_trimmed_i32() {
    assert_eq!(parse_pid("1234\n").unwrap(), 1234);
    assert_eq!(parse_pid("  +77 ").unwrap(), 77);
    assert_eq!(parse_pid("-5").unwrap(), -5);
    assert_eq!(parse_pid("007").unwrap(), 7);
    assert_eq!(parse_pid("2147483647").unwrap(), i32::MAX);
    assert_eq!(parse_pid("-2147483648").unwrap(), i32::MIN);
    assert_eq!(invalid(parse_pid("2147483648")), "Invalid PID in file: 2147483648");
    assert_eq!(invalid(parse_pid(" 12a\n")), "Invalid PID in file:  12a\n");
    assert_eq!(invalid(parse_pid("")), "Invalid PID in file: ");
    assert_eq!(invalid(parse_pid("-")), "Invalid PID in file: -");
    assert_eq!(invalid(parse_pid("1 2")), "Invalid PID in file: 1 2");
    assert_eq!(invalid(parse_pid("99999999999999999999")), "Invalid PID in file: 99999999999999999999");
}

fn pause(a: ReadinessAction) -> u64 {
    match a {
        ReadinessAction::Pause(ms) => ms,
        _ => panic!("not a pause"),
    }
}

fn failure(a: ReadinessAction) -> String {
    match a {
        ReadinessAction::Fail(m) => m,
        _ => panic!("not a failure"),
    }
}

#[test]
fn readiness_pauses_double_up_to_five_seconds() {
    let mut wait = ReadinessWait::new();
    let pauses: Vec<u64> = (0..6).map(|_| pause(wait.step(ReadinessEvent::NotReady, 30))).collect();
    assert_eq!(pauses, vec![500, 1000, 2000, 4000, 5000, 5000]);
    assert!(matches!(wait.step(ReadinessEvent::Healthy, 30), ReadinessAction::Ready));
    assert_eq!(failure(wait.step(ReadinessEvent::TimedOut, 30)), "Server did not become ready within 30 seconds");
    assert_eq!(
        failure(wait.step(ReadinessEvent::ProcessExited("exit status: 1".to_string()), 30)),
        "Process exited with status exit status: 1"
    );
    assert_eq!(
        failure(wait.step(ReadinessEvent::ProcessCheckFailed("denied".to_string()), 30)),
        "Failed to check process: denied"
    );
}
