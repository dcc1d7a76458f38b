use cunzhi_cli::launch::{
    LaunchAction, LaunchEvent, LaunchRetry, BACKOFF_MILLIS, MAX_ATTEMPTS, STARTUP_WAIT_MILLIS,
};
use cunzhi_cli::popup::{
    find_ui_command, read_ui_exit, request_file_name, ui_arguments, UiPlace, UiSearch,
};
use cunzhi_cli::probe::{
    error_reports_missing, CommandProbe, ProbeAction, ProbeStage, RunOutcome,
};
use cunzhi_cli::sync::{Cleanup, ResponseWait, WaitAction};
use cunzhi_cli::terminal::{LaunchError, Platform};
use cunzhi_cli::types::McpError;

/// Drives a wait whose response file holds `content_at(second)` at each poll;
/// returns the seconds slept, the progress lines, and the final action.
fn drive(
    timeout: u32,
    content_at: impl Fn(u32) -> Option<String>,
) -> (u64, Vec<String>, WaitAction) {
    let mut wait = ResponseWait::new(timeout);
    let mut slept = 0u64;
    let mut progress = Vec::new();
    let mut action = wait.begin();
    loop {
        match action {
            WaitAction::Poll => action = wait.observe(content_at(wait.elapsed)),
            WaitAction::Sleep { seconds } => {
                slept += seconds;
                let (line, next) = wait.slept();
                progress.extend(line);
                action = next;
            }
            done => return (slept, progress, done),
        }
    }
}

#[test]
fn a_wait_of_two_seconds_without_an_answer_times_out_after_two_seconds() {
    let (slept, progress, action) = drive(2, |_| None);
    assert_eq!(slept, 2);
    assert!(progress.is_empty());
    match action {
        WaitAction::TimedOut { error: McpError::Timeout(message), cleanup } => {
            assert_eq!(message, "终端交互超时（2秒），未收到用户响应");
            assert_eq!(cleanup, Cleanup { script: true, response: false });
        }
        other => panic!("{:?}", other),
    }
}

#[test]
fn an_empty_file_is_no_answer() {
    let (slept, _, action) = drive(3, |_| Some(String::new()));
    assert_eq!(slept, 3);
    assert!(matches!(action, WaitAction::TimedOut { .. }));
}

#[test]
fn the_first_content_is_the_whole_answer() {
    let (slept, _, action) = drive(10, |second| {
        if second >= 4 {
            Some("  用户选择: A\n".to_string())
        } else {
            None
        }
    });
    assert_eq!(slept, 4);
    match action {
        WaitAction::Accept { answer, cleanup } => {
            assert_eq!(answer, "用户选择: A");
            assert_eq!(cleanup, Cleanup { script: true, response: true });
        }
        other => panic!("{:?}", other),
    }
    let (slept, _, action) = drive(10, |_| Some("now".to_string()));
    assert_eq!(slept, 0);
    assert!(matches!(action, WaitAction::Accept { .. }));
}

#[test]
fn an_answer_that_comes_after_the_timeout_is_not_collected() {
    let (slept, _, action) = drive(2, |second| if second >= 2 { Some("late".to_string()) } else { None });
    assert_eq!(slept, 2);
    assert!(matches!(action, WaitAction::TimedOut { .. }));
    let (slept, _, action) = drive(0, |_| Some("there".to_string()));
    assert_eq!(slept, 0);
    assert!(matches!(action, WaitAction::TimedOut { .. }));
}

#[test]
fn progress_is_logged_every_thirty_seconds() {
    let (slept, progress, _) = drive(65, |_| None);
    assert_eq!(slept, 65);
    assert_eq!(
        progress,
        vec![
            "等待用户在终端中完成交互... (30/65 秒)".to_string(),
            "等待用户在终端中完成交互... (60/65 秒)".to_string(),
        ]
    );
    let (_, progress, _) = drive(30, |_| None);
    assert_eq!(progress, vec!["等待用户在终端中完成交互... (30/30 秒)".to_string()]);
}

#[test]
fn a_wait_that_ran_out_stays_as_it_is() {
    let mut wait = ResponseWait::new(1);
    wait.slept();
    assert_eq!(wait.elapsed, 1);
    let (line, action) = wait.slept();
    assert_eq!(wait.elapsed, 1);
    assert!(line.is_none());
    assert!(matches!(action, WaitAction::TimedOut { .. }));
}

/// Drives a launch; `spawn(attempt)` and `check(attempt)` give the events.
fn launch(
    wait: bool,
    spawn: impl Fn(u32) -> LaunchEvent,
    check: impl Fn(u32) -> LaunchEvent,
) -> (Vec<String>, Result<(), LaunchError>) {
    let mut state = LaunchRetry::new(wait);
    let mut trace = Vec::new();
    loop {
        match state.action() {
            LaunchAction::Spawn => {
                trace.push(format!("spawn{}", state.attempt()));
                state.advance(spawn(state.attempt()));
            }
            LaunchAction::WaitAndCheck { millis } => {
                trace.push(format!("check{}", millis));
                state.advance(check(state.attempt()));
            }
            LaunchAction::Sleep { millis } => {
                trace.push(format!("sleep{}", millis));
                state.advance(LaunchEvent::Slept);
            }
            LaunchAction::Done(result) => return (trace, result),
        }
        assert!(trace.len() <= 9);
    }
}

#[test]
fn launch_constants() {
    assert_eq!(MAX_ATTEMPTS, 3);
    assert_eq!(STARTUP_WAIT_MILLIS, 500);
    assert_eq!(BACKOFF_MILLIS, 1000);
}

#[test]
fn a_terminal_that_hands_off_succeeds_on_spawn() {
    let (trace, result) = launch(false, |_| LaunchEvent::Spawned, |_| LaunchEvent::Running);
    assert_eq!(trace, vec!["spawn1"]);
    assert!(result.is_ok());
}

#[test]
fn a_terminal_that_stays_is_checked_after_half_a_second() {
    let (trace, result) = launch(true, |_| LaunchEvent::Spawned, |_| LaunchEvent::Running);
    assert_eq!(trace, vec!["spawn1", "check500"]);
    assert!(result.is_ok());
    let (trace, result) = launch(
        true,
        |_| LaunchEvent::Spawned,
        |_| LaunchEvent::Exited { success: true, status: "exit status: 0".to_string() },
    );
    assert_eq!(trace, vec!["spawn1", "check500"]);
    assert!(result.is_ok());
}

#[test]
fn a_failed_attempt_is_retried_after_the_pause() {
    let (trace, result) = launch(
        true,
        |attempt| {
            if attempt == 1 {
                LaunchEvent::SpawnFailed("no such file".to_string())
            } else {
                LaunchEvent::Spawned
            }
        },
        |attempt| {
            if attempt == 2 {
                LaunchEvent::Exited { success: false, status: "exit status: 1".to_string() }
            } else {
                LaunchEvent::Running
            }
        },
    );
    assert_eq!(
        trace,
        vec!["spawn1", "sleep1000", "spawn2", "check500", "sleep1000", "spawn3", "check500"]
    );
    assert!(result.is_ok());
}

#[test]
fn three_failed_attempts_fail_with_the_last_error() {
    let (trace, result) = launch(
        true,
        |attempt| LaunchEvent::SpawnFailed(format!("try {}", attempt)),
        |_| LaunchEvent::Running,
    );
    assert_eq!(trace, vec!["spawn1", "sleep1000", "spawn2", "sleep1000", "spawn3"]);
    match result {
        Err(LaunchError::SpawnFailed(message)) => assert_eq!(message, "try 3"),
        other => panic!("{:?}", other),
    }
    let (trace, result) = launch(
        true,
        |_| LaunchEvent::Spawned,
        |attempt| {
            if attempt < 3 {
                LaunchEvent::Exited { success: false, status: "exit status: 2".to_string() }
            } else {
                LaunchEvent::CheckFailed("gone".to_string())
            }
        },
    );
    assert_eq!(trace.iter().filter(|s| s.starts_with("spawn")).count(), 3);
    match result {
        Err(LaunchError::StatusCheckFailed(message)) => assert_eq!(message, "gone"),
        other => panic!("{:?}", other),
    }
}

#[test]
fn an_event_that_was_not_asked_for_changes_nothing() {
    let mut state = LaunchRetry::new(true);
    state.advance(LaunchEvent::Slept);
    state.advance(LaunchEvent::Running);
    assert!(matches!(state.action(), LaunchAction::Spawn));
    assert_eq!(state.attempt(), 1);
    state.advance(LaunchEvent::Spawned);
    state.advance(LaunchEvent::Spawned);
    assert!(matches!(state.action(), LaunchAction::WaitAndCheck { millis: 500 }));
    state.advance(LaunchEvent::Running);
    state.advance(LaunchEvent::SpawnFailed("x".to_string()));
    assert!(matches!(state.action(), LaunchAction::Done(Ok(()))));
}

fn ok() -> Option<RunOutcome> {
    Some(RunOutcome { success: true, stdout_empty: false, stderr: String::new() })
}

fn failed(stderr: &str) -> Option<RunOutcome> {
    Some(RunOutcome { success: false, stdout_empty: true, stderr: stderr.to_string() })
}

/// Runs a probe against the outcomes; returns the runs asked for and the answer.
fn probe(command: &str, platform: Platform, outcomes: Vec<Option<RunOutcome>>) -> (Vec<String>, bool) {
    let mut state = CommandProbe::new(command, platform);
    let mut runs = Vec::new();
    let mut outcomes = outcomes.into_iter();
    loop {
        match state.action() {
            ProbeAction::Run(run) => {
                runs.push(format!("{} {}", run.program, run.args.join(" ")).trim_end().to_string());
                state.advance(outcomes.next().expect("the probe asked for more runs"));
            }
            ProbeAction::Finish(answer) => return (runs, answer),
        }
        assert!(runs.len() <= 6);
    }
}

#[test]
fn the_lookup_settles_a_command_that_it_finds() {
    assert_eq!(probe("xterm", Platform::Linux, vec![ok()]), (vec!["which xterm".to_string()], true));
    assert_eq!(probe("wt", Platform::Windows, vec![ok()]), (vec!["where wt".to_string()], true));
}

#[test]
fn a_lookup_without_output_does_not_count() {
    let silent = Some(RunOutcome { success: true, stdout_empty: true, stderr: String::new() });
    let (runs, answer) = probe("xterm", Platform::Linux, vec![silent, ok()]);
    assert_eq!(runs, vec!["which xterm", "xterm --version"]);
    assert!(answer);
}

#[test]
fn version_flags_are_tried_in_order_then_the_bare_command() {
    let (runs, answer) = probe(
        "tool",
        Platform::Linux,
        vec![None, failed(""), None, failed(""), failed(""), failed("tool: unknown option")],
    );
    assert_eq!(
        runs,
        vec!["which tool", "tool --version", "tool -v", "tool --help", "tool -h", "tool"]
    );
    assert!(answer);
    let (_, answer) = probe(
        "tool",
        Platform::Linux,
        vec![None, None, None, None, None, failed("sh: tool: command NOT FOUND")],
    );
    assert!(!answer);
    let (_, answer) = probe("tool", Platform::Linux, vec![None, None, None, None, None, None]);
    assert!(!answer);
    let (_, answer) = probe("tool", Platform::Linux, vec![None, None, None, None, None, ok()]);
    assert!(!answer);
    let (runs, answer) = probe("tool", Platform::Linux, vec![None, None, None, ok()]);
    assert_eq!(runs.len(), 4);
    assert!(answer);
}

#[test]
fn some_commands_have_a_check_of_their_own() {
    assert_eq!(probe("cmd", Platform::Windows, vec![None]), (vec!["where cmd".to_string()], true));
    let (runs, answer) = probe("cmd", Platform::Linux, vec![None, ok()]);
    assert_eq!(runs, vec!["which cmd", "cmd --version"]);
    assert!(answer);
    assert_eq!(
        probe("osascript", Platform::MacOs, vec![None, ok()]),
        (vec!["which osascript".to_string(), "osascript -e return 1".to_string()], true)
    );
    assert_eq!(probe("osascript", Platform::MacOs, vec![None, failed("")]).1, false);
    assert_eq!(probe("osascript", Platform::MacOs, vec![None, None]).1, false);
    assert_eq!(
        probe("wt", Platform::Windows, vec![failed(""), ok()]),
        (vec!["where wt".to_string(), "wt --help".to_string()], true)
    );
    let (runs, _) = probe("wt", Platform::Linux, vec![None, ok()]);
    assert_eq!(runs[1], "wt --version");
}

#[test]
fn not_found_patterns() {
    assert!(error_reports_missing("bash: foo: command not found"));
    assert!(error_reports_missing("'foo' is not recognized as an internal or external command"));
    assert!(error_reports_missing("no such file or directory"));
    assert!(!error_reports_missing("usage: foo [options]"));
    assert!(!error_reports_missing("Not Found"));
    assert!(!error_reports_missing(""));
    let mut state = CommandProbe::new("x", Platform::Linux);
    assert_eq!(state.current_stage(), ProbeStage::Lookup);
    state.advance(None);
    assert_eq!(state.current_stage(), ProbeStage::Version(0));
}

#[test]
fn the_ui_executable_is_looked_for_in_three_places() {
    assert!(matches!(find_ui_command(None, None, None), UiSearch::Probe(UiPlace::Local)));
    match find_ui_command(Some(Some("/opt/app/cunzhi-ui".to_string())), None, None) {
        UiSearch::Use(command) => {
            assert_eq!(command.program, "/opt/app/cunzhi-ui");
            assert!(command.leading_args.is_empty());
            assert_eq!(ui_arguments(&command, "/tmp/r.json"), vec!["--mcp-request", "/tmp/r.json"]);
        }
        other => panic!("{:?}", other),
    }
    assert!(matches!(find_ui_command(Some(None), None, None), UiSearch::Probe(UiPlace::Global)));
    match find_ui_command(Some(None), Some(true), None) {
        UiSearch::Use(command) => assert_eq!(command.program, "cunzhi-ui"),
        other => panic!("{:?}", other),
    }
    assert!(matches!(
        find_ui_command(Some(None), Some(false), None),
        UiSearch::Probe(UiPlace::Development)
    ));
    match find_ui_command(Some(None), Some(false), Some(true)) {
        UiSearch::Use(command) => {
            assert_eq!(command.program, "cargo");
            assert_eq!(
                ui_arguments(&command, "r.json"),
                vec!["run", "--bin", "cunzhi-ui", "--", "--mcp-request", "r.json"]
            );
        }
        other => panic!("{:?}", other),
    }
    match find_ui_command(Some(None), Some(false), Some(false)) {
        UiSearch::Missing(message) => assert_eq!(
            message,
            "找不到cunzhi-ui命令。请确保：\n1. 已编译项目：cargo build --release\n2. 或已全局安装：cargo install --path .\n3. 或cunzhi-ui命令在同目录下"
        ),
        other => panic!("{:?}", other),
    }
    match find_ui_command(Some(Some("here".to_string())), Some(false), Some(false)) {
        UiSearch::Use(command) => assert_eq!(command.program, "here"),
        other => panic!("{:?}", other),
    }
}

#[test]
fn the_exit_of_the_ui_process() {
    assert_eq!(request_file_name("abc"), "mcp_request_abc.json");
    assert_eq!(read_ui_exit(true, Ok("  answer \n".to_string()), "noise"), Ok("answer".to_string()));
    assert_eq!(
        read_ui_exit(false, Ok("answer".to_string()), "it broke"),
        Err("UI进程失败: it broke".to_string())
    );
    assert_eq!(
        read_ui_exit(true, Err("invalid utf-8".to_string()), ""),
        Err("invalid utf-8".to_string())
    );
}
