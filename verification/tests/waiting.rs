use dsh_desktop::readiness::{ReadinessWait, WaitAction, WaitEvent};
use dsh_desktop::startup::{log_tail, startup_failure};

/// Runs a wait against a simulated clock that advances by `poll` nanoseconds
/// per sleep; returns the answer and how many times the server was asked.
fn simulate(timeout: u128, poll: u128, stopped: impl Fn() -> bool, ready: impl Fn() -> bool) -> (bool, u32) {
    let (mut wait, mut action) = ReadinessWait::new(timeout);
    let mut now: u128 = 0;
    let mut asked = 0;
    loop {
        let event = match action {
            WaitAction::ReadClock => WaitEvent::Clock(now),
            WaitAction::ProbeStopped => WaitEvent::Stopped(stopped()),
            WaitAction::ProbeReady => {
                asked += 1;
                WaitEvent::Ready(ready())
            }
            WaitAction::Sleep => {
                now += poll;
                WaitEvent::Slept
            }
            WaitAction::Finish(answer) => return (answer, asked),
        };
        assert!(wait.awaits(event));
        action = wait.next(event);
    }
}

#[test]
fn times_out_when_server_never_becomes_ready() {
    let (answer, asked) = simulate(5_000_000, 1_000_000, || false, || false);
    assert!(!answer);
    assert_eq!(asked, 5);
}

#[test]
fn stops_waiting_after_early_process_exit() {
    let (answer, asked) = simulate(1_000_000_000, 1_000_000, || true, || false);
    assert!(!answer);
    assert_eq!(asked, 0);
}

#[test]
fn answers_true_once_the_server_answers() {
    let (answer, asked) = simulate(1_000_000_000, 1_000_000, || false, || true);
    assert!(answer);
    assert_eq!(asked, 1);
}

#[test]
fn a_zero_timeout_asks_nothing() {
    let (answer, asked) = simulate(0, 1, || false, || true);
    assert!(!answer);
    assert_eq!(asked, 0);
}

#[test]
fn quotes_the_last_lines_of_the_log() {
    assert_eq!(log_tail(""), None);
    assert_eq!(log_tail("one"), Some("one".to_string()));
    assert_eq!(log_tail("a\nb\r\nc\n"), Some("a\nb\nc".to_string()));
    assert_eq!(log_tail("a\r"), Some("a\r".to_string()));
    assert_eq!(log_tail("\n"), None);
    assert_eq!(log_tail("\n\n"), Some("\n".to_string()));
    let long: String = (1..=20).map(|i| format!("line {i}\n")).collect();
    let expected: Vec<String> = (9..=20).map(|i| format!("line {i}")).collect();
    assert_eq!(log_tail(&long), Some(expected.join("\n")));
    let unicode = "héllo\n世界\r\nend";
    assert_eq!(log_tail(unicode), Some("héllo\n世界\nend".to_string()));
}

#[test]
fn log_tail_agrees_with_str_lines() {
    let samples = ["x\ny", "x\r\ny\r\n", "\r\n\r\n", "a\n\n\nb", "only\r", "\u{1F600}\n\u{1F600}"];
    for s in samples {
        let mut lines: Vec<&str> = s.lines().rev().take(12).collect();
        lines.reverse();
        let tail = lines.join("\n");
        let expected = if tail.is_empty() { None } else { Some(tail) };
        assert_eq!(log_tail(s), expected);
    }
}

#[test]
fn reports_a_startup_failure() {
    assert_eq!(
        startup_failure(None, "/logs/dsh.log", None),
        "dsh did not become ready before the startup timeout. Startup log: /logs/dsh.log"
    );
    assert_eq!(
        startup_failure(Some("exit status: 1".to_string()), "/logs/dsh.log", Some("boot\nerror: port\n".to_string())),
        "dsh exited before becoming ready (exit status: 1). Startup log: /logs/dsh.log\nboot\nerror: port"
    );
    assert_eq!(
        startup_failure(None, "l", Some(String::new())),
        "dsh did not become ready before the startup timeout. Startup log: l"
    );
}
