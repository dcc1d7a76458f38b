use cunzhi_cli::escape::{
    escape_applescript, escape_cmd, escape_powershell, escape_powershell_literal,
    quote_argv, quote_cmd_word, quote_powershell_word, shell_quote,
};
use cunzhi_cli::terminal::{
    detect_system_terminal, diagnose_terminal_availability, terminal_list, HostFacts, LaunchError,
    Platform, ProcessDetachment, TerminalLauncher, TerminalLauncherConfig, TerminalType,
};

fn host(platform: Platform) -> HostFacts {
    HostFacts {
        platform,
        commands: vec![],
        paths: vec![],
        desktop: None,
        session: None,
        display: None,
        shell: None,
        term: None,
    }
}

fn linux_with(commands: &[&str]) -> HostFacts {
    let mut h = host(Platform::Linux);
    h.commands = commands.iter().map(|c| c.to_string()).collect();
    h
}

fn launcher_titled(title: &str) -> TerminalLauncher {
    let mut config = TerminalLauncherConfig::default();
    config.window_title = Some(title.to_string());
    TerminalLauncher::new(config)
}

fn names(list: &[TerminalType]) -> Vec<String> {
    list.iter().map(|t| t.name()).collect()
}

fn built(
    launcher: &TerminalLauncher,
    terminal: &TerminalType,
    command: &str,
    args: &[&str],
    host: &HostFacts,
) -> (String, Vec<String>) {
    let args: Vec<String> = args.iter().map(|a| a.to_string()).collect();
    launcher.build_terminal_command(terminal, command, &args, host).unwrap()
}

#[test]
fn platform_names() {
    assert_eq!(Platform::from_os_name("macos"), Platform::MacOs);
    assert_eq!(Platform::from_os_name("linux"), Platform::Linux);
    assert_eq!(Platform::from_os_name("windows"), Platform::Windows);
    assert_eq!(Platform::from_os_name("freebsd"), Platform::FreeBsd);
    assert_eq!(Platform::from_os_name("haiku"), Platform::Other);
    assert_eq!(Platform::from_os_name("Linux"), Platform::Other);
}

#[test]
fn candidates_by_platform() {
    let launcher = TerminalLauncher::new(TerminalLauncherConfig::default());
    assert_eq!(
        names(&launcher.get_platform_terminal_candidates(Platform::MacOs)),
        vec!["ITerm2", "TerminalApp", "Alacritty"]
    );
    assert_eq!(
        names(&launcher.get_platform_terminal_candidates(Platform::Linux)),
        vec!["GnomeTerminal", "Konsole", "Alacritty", "Xterm"]
    );
    assert_eq!(
        names(&launcher.get_platform_terminal_candidates(Platform::Windows)),
        vec!["WindowsTerminal", "PowerShell", "Cmd"]
    );
    assert_eq!(names(&launcher.get_platform_terminal_candidates(Platform::Other)), vec!["Xterm"]);
    assert_eq!(names(&launcher.get_platform_terminal_candidates(Platform::FreeBsd)), vec!["Xterm"]);
}

#[test]
fn default_launcher_config() {
    let config = TerminalLauncherConfig::default();
    assert!(config.preferred_terminal.is_none());
    assert!(config.fallback_to_cli);
    assert!(config.working_directory.is_none());
    assert_eq!(config.window_title, Some("寸止 CLI 交互".to_string()));
    assert_eq!(config.timeout_seconds, 300);
    assert_eq!(TerminalLauncher::new(config).timeout_seconds(), 300);
}

#[test]
fn availability_combines_platform_commands_paths_and_variables() {
    let launcher = TerminalLauncher::new(TerminalLauncherConfig::default());

    let mut h = linux_with(&["gnome-terminal", "konsole", "xterm", "alacritty", "pwsh"]);
    assert!(!launcher.is_terminal_available(&TerminalType::GnomeTerminal, &h));
    assert!(!launcher.is_terminal_available(&TerminalType::Konsole, &h));
    assert!(!launcher.is_terminal_available(&TerminalType::Xterm, &h));
    assert!(launcher.is_terminal_available(&TerminalType::Alacritty, &h));
    assert!(launcher.is_terminal_available(&TerminalType::PowerShell, &h));
    assert!(!launcher.is_terminal_available(&TerminalType::Cmd, &h));
    assert!(!launcher.is_terminal_available(&TerminalType::WindowsTerminal, &h));
    h.desktop = Some("ubuntu:GNOME".to_string());
    assert!(launcher.is_terminal_available(&TerminalType::GnomeTerminal, &h));
    h.desktop = Some("gnome".to_string());
    assert!(!launcher.is_terminal_available(&TerminalType::GnomeTerminal, &h));
    h.session = Some("gnome-xorg".to_string());
    assert!(launcher.is_terminal_available(&TerminalType::GnomeTerminal, &h));
    h.desktop = Some("KDE".to_string());
    assert!(launcher.is_terminal_available(&TerminalType::Konsole, &h));
    h.display = Some(String::new());
    assert!(launcher.is_terminal_available(&TerminalType::Xterm, &h));
    h.platform = Platform::FreeBsd;
    assert!(launcher.is_terminal_available(&TerminalType::Xterm, &h));
    assert!(!launcher.is_terminal_available(&TerminalType::GnomeTerminal, &h));

    let mut mac = host(Platform::MacOs);
    assert!(!launcher.is_terminal_available(&TerminalType::TerminalApp, &mac));
    mac.commands = vec!["osascript".to_string()];
    assert!(!launcher.is_terminal_available(&TerminalType::TerminalApp, &mac));
    mac.paths = vec!["/System/Applications/Utilities/Terminal.app".to_string()];
    assert!(launcher.is_terminal_available(&TerminalType::TerminalApp, &mac));
    assert!(!launcher.is_terminal_available(&TerminalType::ITerm2, &mac));
    mac.paths.push("/Applications/iTerm.app".to_string());
    assert!(launcher.is_terminal_available(&TerminalType::ITerm2, &mac));
    mac.platform = Platform::Linux;
    assert!(!launcher.is_terminal_available(&TerminalType::ITerm2, &mac));

    let mut win = host(Platform::Windows);
    assert!(launcher.is_terminal_available(&TerminalType::Cmd, &win));
    assert!(!launcher.is_terminal_available(&TerminalType::PowerShell, &win));
    win.commands = vec!["powershell".to_string()];
    assert!(launcher.is_terminal_available(&TerminalType::PowerShell, &win));
    assert!(!launcher.is_terminal_available(&TerminalType::WindowsTerminal, &win));
    win.commands.push("wt".to_string());
    assert!(launcher.is_terminal_available(&TerminalType::WindowsTerminal, &win));

    let custom = TerminalType::Custom("kitty".to_string());
    assert!(!launcher.is_terminal_available(&custom, &win));
    win.commands.push("kitty".to_string());
    assert!(launcher.is_terminal_available(&custom, &win));
    assert!(win.test_command_exists("kitty"));
    assert!(!win.test_command_exists("kitt"));
    assert!(!win.path_exists("kitty"));
}

#[test]
fn detection_takes_the_preferred_terminal_first() {
    let mut h = linux_with(&["konsole", "alacritty", "xterm"]);
    h.desktop = Some("KDE".to_string());
    h.display = Some(":0".to_string());

    let launcher = TerminalLauncher::new(TerminalLauncherConfig::default());
    assert_eq!(launcher.detect_best_terminal(&h).unwrap().name(), "Konsole");

    let mut config = TerminalLauncherConfig::default();
    config.preferred_terminal = Some(TerminalType::Xterm);
    let prefers_xterm = TerminalLauncher::new(config);
    assert_eq!(prefers_xterm.detect_best_terminal(&h).unwrap().name(), "Xterm");

    let mut config = TerminalLauncherConfig::default();
    config.preferred_terminal = Some(TerminalType::GnomeTerminal);
    let prefers_gnome = TerminalLauncher::new(config);
    assert_eq!(prefers_gnome.detect_best_terminal(&h).unwrap().name(), "Konsole");

    h.desktop = None;
    assert_eq!(launcher.detect_best_terminal(&h).unwrap().name(), "Alacritty");
    h.commands = vec!["xterm".to_string()];
    assert_eq!(launcher.detect_best_terminal(&h).unwrap().name(), "Xterm");
    assert_eq!(detect_system_terminal(&h).unwrap().name(), "Xterm");
}

#[test]
fn detection_is_repeatable_on_the_same_host() {
    let mut h = linux_with(&["xterm", "alacritty"]);
    h.display = Some(":1".to_string());
    let launcher = TerminalLauncher::new(TerminalLauncherConfig::default());
    let first = launcher.detect_best_terminal(&h).unwrap().name();
    for _ in 0..20 {
        assert_eq!(launcher.detect_best_terminal(&h.clone()).unwrap().name(), first);
    }
    let mut other = h.clone();
    other.commands = vec!["alacritty".to_string(), "xterm".to_string(), "vim".to_string()];
    other.term = Some("xterm-256color".to_string());
    assert_eq!(launcher.detect_best_terminal(&other).unwrap().name(), first);
}

#[test]
fn no_terminal_is_a_typed_failure() {
    let launcher = TerminalLauncher::new(TerminalLauncherConfig::default());
    let h = host(Platform::Linux);
    match launcher.detect_best_terminal(&h) {
        Err(LaunchError::NoTerminalAvailable { candidates }) => {
            assert_eq!(names(&candidates), vec!["GnomeTerminal", "Konsole", "Alacritty", "Xterm"])
        }
        other => panic!("{:?}", other),
    }
    let error = launcher.detect_best_terminal(&h).unwrap_err();
    assert_eq!(
        error.to_string(),
        "未找到可用的终端程序。候选列表: [GnomeTerminal, Konsole, Alacritty, Xterm]"
    );
    assert_eq!(error.duplicate().to_string(), error.to_string());
    assert_eq!(launcher.launch_failure(&error), "终端启动失败，需要回退到CLI模式");
    let mut config = TerminalLauncherConfig::default();
    config.fallback_to_cli = false;
    let strict = TerminalLauncher::new(config);
    assert_eq!(
        strict.launch_failure(&LaunchError::SpawnFailed("denied".to_string())),
        "终端启动失败: 启动终端失败: denied"
    );
    assert_eq!(LaunchError::AbnormalExit("exit status: 1".to_string()).to_string(), "终端进程异常退出: exit status: 1");
    assert_eq!(LaunchError::StatusCheckFailed("x".to_string()).to_string(), "检查进程状态失败: x");
    assert_eq!(LaunchError::Unknown.to_string(), "未知错误");
    assert!(launcher.launch_terminal_with_command("bash", &vec![], &h).is_err());
}

#[test]
fn terminal_names_print_like_their_variants() {
    assert_eq!(TerminalType::Custom("my term".to_string()).name(), "Custom(\"my term\")");
    assert_eq!(TerminalType::Custom("a\"b".to_string()).name(), "Custom(\"a\\\"b\")");
    assert_eq!(
        terminal_list(&vec![TerminalType::Cmd, TerminalType::Custom("x".to_string())]),
        "[Cmd, Custom(\"x\")]"
    );
    assert_eq!(terminal_list(&vec![]), "[]");
}

#[test]
fn shell_terminals_take_the_title_as_an_argument_of_its_own() {
    let mut h = host(Platform::Linux);
    h.shell = Some("/bin/zsh".to_string());
    let launcher = launcher_titled("My Title");
    assert_eq!(
        built(&launcher, &TerminalType::Xterm, "bash", &["/tmp/s.sh"], &h),
        (
            "xterm".to_string(),
            vec![
                "-T".to_string(),
                "My Title".to_string(),
                "-e".to_string(),
                "/bin/zsh".to_string(),
                "-c".to_string(),
                "bash /tmp/s.sh; exec /bin/zsh".to_string(),
            ]
        )
    );
    assert_eq!(
        built(&launcher, &TerminalType::Alacritty, "bash", &["/tmp/s.sh", "-x"], &h),
        (
            "alacritty".to_string(),
            vec![
                "--title".to_string(),
                "My Title".to_string(),
                "-e".to_string(),
                "/bin/zsh".to_string(),
                "-c".to_string(),
                "bash /tmp/s.sh -x; exec /bin/zsh".to_string(),
            ]
        )
    );
    h.shell = None;
    assert_eq!(
        built(&launcher, &TerminalType::GnomeTerminal, "top", &[], &h),
        (
            "gnome-terminal".to_string(),
            vec![
                "--title".to_string(),
                "My Title".to_string(),
                "--".to_string(),
                "/bin/bash".to_string(),
                "-c".to_string(),
                "top; exec /bin/bash".to_string(),
            ]
        )
    );
    assert_eq!(
        built(&launcher, &TerminalType::Konsole, "top", &[], &h),
        (
            "konsole".to_string(),
            vec![
                "--new-tab".to_string(),
                "-p".to_string(),
                "tabtitle=My Title".to_string(),
                "-e".to_string(),
                "/bin/bash".to_string(),
                "-c".to_string(),
                "top; exec /bin/bash".to_string(),
            ]
        )
    );
    assert_eq!(
        built(&launcher, &TerminalType::Custom("kitty".to_string()), "top", &["-d", "1"], &h),
        ("kitty".to_string(), vec!["top -d 1".to_string()])
    );
}

#[test]
fn the_built_in_title_stands_in_for_a_missing_one() {
    let mut config = TerminalLauncherConfig::default();
    config.window_title = None;
    let launcher = TerminalLauncher::new(config);
    let (_, args) = built(&launcher, &TerminalType::Xterm, "top", &[], &host(Platform::Linux));
    assert_eq!(args[1], "寸止 CLI");
    let launcher = TerminalLauncher::new(TerminalLauncherConfig::default());
    let (_, args) = built(&launcher, &TerminalType::Xterm, "top", &[], &host(Platform::Linux));
    assert_eq!(args[1], "寸止 CLI 交互");
}

#[test]
fn mac_terminals_are_driven_by_a_script() {
    let launcher = launcher_titled("T");
    let h = host(Platform::MacOs);
    let (program, args) = built(&launcher, &TerminalType::TerminalApp, "bash", &["/tmp/s.sh"], &h);
    assert_eq!(program, "osascript");
    assert_eq!(args.len(), 2);
    assert_eq!(args[0], "-e");
    assert_eq!(
        args[1],
        "tell application \"Terminal\"\n                        activate\n                        do script \"bash /tmp/s.sh\" in window 1\n                        set custom title of front window to \"T\"\n                    end tell"
    );
    let (program, args) = built(&launcher, &TerminalType::ITerm2, "bash", &["/tmp/s.sh"], &h);
    assert_eq!(program, "osascript");
    assert_eq!(
        args[1],
        "tell application \"iTerm\"\n                        activate\n                        create window with default profile\n                        tell current session of current window\n                            write text \"bash /tmp/s.sh\"\n                            set name to \"T\"\n                        end tell\n                    end tell"
    );
}

#[test]
fn windows_terminals() {
    let launcher = launcher_titled("My Title");
    let h = host(Platform::Windows);
    assert_eq!(launcher.get_default_shell(&h), "cmd");
    assert_eq!(
        built(&launcher, &TerminalType::Cmd, "run.bat", &["a"], &h),
        (
            "cmd".to_string(),
            vec![
                "/C".to_string(),
                "start".to_string(),
                "\"My Title\"".to_string(),
                "cmd".to_string(),
                "/K".to_string(),
                "title My Title && run.bat a".to_string(),
            ]
        )
    );
    assert_eq!(
        built(&launcher, &TerminalType::WindowsTerminal, "run.bat", &[], &h),
        (
            "wt".to_string(),
            vec![
                "new-tab".to_string(),
                "--title".to_string(),
                "My Title".to_string(),
                "--".to_string(),
                "cmd".to_string(),
                "/K".to_string(),
                "title My Title && run.bat".to_string(),
            ]
        )
    );
    assert_eq!(
        built(&launcher, &TerminalType::PowerShell, "run", &[], &h),
        (
            "powershell".to_string(),
            vec![
                "-NoProfile".to_string(),
                "-Command".to_string(),
                "Start-Process powershell -ArgumentList '-NoProfile', '-Command', \"`$Host.UI.RawUI.WindowTitle = `'My Title`'; & `'run`'; Read-Host `'Press Enter to continue`'\"".to_string(),
            ]
        )
    );
}

const HOSTILE: &str = "a\"b`c$d\ne";

#[test]
fn a_hostile_title_stays_one_literal_argument() {
    let launcher = launcher_titled(HOSTILE);
    let linux = host(Platform::Linux);
    for terminal in [TerminalType::Xterm, TerminalType::Alacritty, TerminalType::GnomeTerminal] {
        let (_, args) = built(&launcher, &terminal, "bash", &["/tmp/s.sh"], &linux);
        assert_eq!(args.len(), 6);
        assert_eq!(args[1], HOSTILE);
        assert_eq!(args[5], "bash /tmp/s.sh; exec /bin/bash");
    }
    let (_, args) = built(&launcher, &TerminalType::Konsole, "bash", &[], &linux);
    assert_eq!(args.len(), 7);
    assert_eq!(args[2], format!("tabtitle={}", HOSTILE));

    let windows = host(Platform::Windows);
    let (_, args) = built(&launcher, &TerminalType::WindowsTerminal, "run", &[], &windows);
    assert_eq!(args[2], HOSTILE);
    assert_eq!(args[6], "title a^\"b`c$d e && run");
    let (_, args) = built(&launcher, &TerminalType::Cmd, "run", &[], &windows);
    assert_eq!(args[2], "\"a'b`c$d e\"");
    assert_eq!(args[5], "title a^\"b`c$d e && run");
}

#[test]
fn a_hostile_title_is_escaped_in_a_script() {
    let launcher = launcher_titled(HOSTILE);
    let mac = host(Platform::MacOs);
    let (_, args) = built(&launcher, &TerminalType::TerminalApp, "bash", &["/tmp/s.sh"], &mac);
    assert!(args[1].ends_with(
        "set custom title of front window to \"a\\\"b`c$d\\ne\"\n                    end tell"
    ));
    assert_eq!(args[1].matches('\n').count(), 4);
    let (_, args) = built(&launcher, &TerminalType::ITerm2, "echo", &["\"hi\""], &mac);
    assert!(args[1].contains("write text \"echo '\\\"hi\\\"'\"\n"));
    assert!(args[1].contains("set name to \"a\\\"b`c$d\\ne\"\n"));

    let windows = host(Platform::Windows);
    let (_, args) = built(&launcher, &TerminalType::PowerShell, "run", &[], &windows);
    assert_eq!(
        args[2],
        "Start-Process powershell -ArgumentList '-NoProfile', '-Command', \"`$Host.UI.RawUI.WindowTitle = `'a`\"b``c`$d\ne`'; & `'run`'; Read-Host `'Press Enter to continue`'\""
    );
    let launcher = launcher_titled("it's");
    let (_, args) = built(&launcher, &TerminalType::PowerShell, "run", &[], &windows);
    assert!(args[2].contains("WindowTitle = `'it`'`'s`'; & `'run`';"));
}

#[test]
fn escapers() {
    assert_eq!(escape_applescript("a\\b\"c\nd\re"), "a\\\\b\\\"c\\nd\\re");
    assert_eq!(escape_applescript("plain 文字"), "plain 文字");
    assert_eq!(escape_powershell("a\"b'c`d$e"), "a`\"b`'c``d`$e");
    assert_eq!(escape_powershell("plain"), "plain");
    assert_eq!(escape_powershell_literal("it's"), "it''s");
    assert_eq!(escape_cmd("a&b|c<d>e^f\"g%h(i)j!k\nl"), "a^&b^|c^<d^>e^^f^\"g^%h^(i^)j^!k l");
    assert_eq!(escape_cmd("plain text"), "plain text");
    assert_eq!(shell_quote("plain-word_1.txt"), "plain-word_1.txt");
    assert_eq!(shell_quote("/tmp/cunzhi_response_1a2b.txt"), "/tmp/cunzhi_response_1a2b.txt");
    assert_eq!(shell_quote(""), "''");
    assert_eq!(shell_quote("two words"), "'two words'");
    assert_eq!(shell_quote("it's"), "'it'\\''s'");
    assert_eq!(shell_quote("$(rm -rf /); `x` \"y\"\n"), "'$(rm -rf /); `x` \"y\"\n'");
    let launcher = TerminalLauncher::new(TerminalLauncherConfig::default());
    assert_eq!(launcher.escape_applescript("\""), "\\\"");
    assert_eq!(launcher.escape_powershell("$"), "`$");
}

#[test]
fn startup_is_awaited_for_terminals_that_stay() {
    let launcher = TerminalLauncher::new(TerminalLauncherConfig::default());
    for terminal in [
        TerminalType::GnomeTerminal,
        TerminalType::Konsole,
        TerminalType::Alacritty,
        TerminalType::Xterm,
    ] {
        assert!(launcher.should_wait_for_startup(&terminal));
    }
    for terminal in [
        TerminalType::TerminalApp,
        TerminalType::ITerm2,
        TerminalType::Cmd,
        TerminalType::PowerShell,
        TerminalType::WindowsTerminal,
        TerminalType::Custom("x".to_string()),
    ] {
        assert!(!launcher.should_wait_for_startup(&terminal));
    }
}

#[test]
fn every_stream_is_detached() {
    let launcher = TerminalLauncher::new(TerminalLauncherConfig::default());
    let plain =
        ProcessDetachment { stdin_null: true, stdout_null: true, stderr_null: true, creation_flags: None };
    assert_eq!(launcher.configure_process_detachment(&TerminalType::Xterm, Platform::Linux), plain);
    assert_eq!(launcher.configure_process_detachment(&TerminalType::ITerm2, Platform::MacOs), plain);
    assert_eq!(launcher.configure_process_detachment(&TerminalType::Cmd, Platform::Linux), plain);
    let detached = ProcessDetachment { creation_flags: Some(8), ..plain };
    assert_eq!(launcher.configure_process_detachment(&TerminalType::Cmd, Platform::Windows), detached);
    assert_eq!(
        launcher.configure_process_detachment(&TerminalType::WindowsTerminal, Platform::Windows),
        detached
    );
    assert_eq!(
        launcher.configure_process_detachment(&TerminalType::Alacritty, Platform::Windows),
        plain
    );
}

#[test]
fn a_launch_is_planned_from_detection_to_invocation() {
    let mut config = TerminalLauncherConfig::default();
    config.working_directory = Some("/work".to_string());
    config.window_title = Some("W".to_string());
    let launcher = TerminalLauncher::new(config);
    let mut h = linux_with(&["xterm"]);
    h.display = Some(":0".to_string());
    let plan = launcher
        .launch_terminal_with_command("bash", &vec!["/tmp/s.sh".to_string()], &h)
        .unwrap();
    assert_eq!(plan.terminal.name(), "Xterm");
    assert_eq!(plan.program, "xterm");
    assert_eq!(plan.args, vec!["-T", "W", "-e", "/bin/bash", "-c", "bash /tmp/s.sh; exec /bin/bash"]);
    assert_eq!(plan.working_directory, Some("/work".to_string()));
    assert!(plan.wait_for_startup);
    assert!(plan.detachment.stdin_null && plan.detachment.stdout_null && plan.detachment.stderr_null);
    assert_eq!(plan.detachment.creation_flags, None);
}

#[test]
fn diagnosis_report() {
    let mut h = linux_with(&["xterm"]);
    h.display = Some(":0".to_string());
    h.shell = Some("/bin/sh".to_string());
    let report = diagnose_terminal_availability("linux", "x86_64", &h);
    assert_eq!(
        report,
        "=== 终端可用性诊断报告 ===\n操作系统: linux\n架构: x86_64\n\n--- 环境变量 ---\nDISPLAY: :0\nXDG_CURRENT_DESKTOP: (未设置)\nDESKTOP_SESSION: (未设置)\nSHELL: /bin/sh\nTERM: (未设置)\n\n--- 终端可用性检查 ---\nTerminalApp: ✗ 不可用\nITerm2: ✗ 不可用\nAlacritty: ✗ 不可用\nGnomeTerminal: ✗ 不可用\nKonsole: ✗ 不可用\nXterm: ✓ 可用\nCmd: ✗ 不可用\nPowerShell: ✗ 不可用\nWindowsTerminal: ✗ 不可用\n\n--- 平台终端候选列表 ---\n1. GnomeTerminal: ✗\n2. Konsole: ✗\n3. Alacritty: ✗\n4. Xterm: ✓\n\n--- 检测结果 ---\n推荐终端: Xterm\n=== 诊断报告结束 ===\n"
    );
    let report = diagnose_terminal_availability("haiku", "arm", &host(Platform::Other));
    assert!(report.contains("1. Xterm: ✗\n\n--- 检测结果 ---\n检测失败: 未找到可用的终端程序。候选列表: [Xterm]\n"));
}

#[test]
fn words_of_the_command_line_are_quoted_for_a_posix_shell() {
    let launcher = launcher_titled("T");
    let mut h = host(Platform::Linux);
    h.shell = Some("/opt/my shell/zsh".to_string());
    let (_, args) = built(&launcher, &TerminalType::Xterm, "bash", &["/tmp/my dir/s.sh", "it's"], &h);
    assert_eq!(args[3], "/opt/my shell/zsh");
    assert_eq!(args[5], "bash '/tmp/my dir/s.sh' 'it'\\''s'; exec '/opt/my shell/zsh'");
    let (_, args) = built(&launcher, &TerminalType::Konsole, "my tool", &[], &h);
    assert_eq!(args[6], "'my tool'; exec '/opt/my shell/zsh'");

    let mac = host(Platform::MacOs);
    let (_, args) = built(&launcher, &TerminalType::TerminalApp, "bash", &["/tmp/my dir/s.sh"], &mac);
    assert!(args[1].contains("do script \"bash '/tmp/my dir/s.sh'\" in window 1\n"));
    let (_, args) = built(&launcher, &TerminalType::ITerm2, "echo", &["say \"hi\""], &mac);
    assert!(args[1].contains("write text \"echo 'say \\\"hi\\\"'\"\n"));

    let windows = host(Platform::Windows);
    let (_, args) = built(&launcher, &TerminalType::Cmd, "run.bat", &["a b"], &windows);
    assert_eq!(args[5], "title T && run.bat ^\"a b^\"");
    let (_, args) = built(&launcher, &TerminalType::Custom("kitty".to_string()), "top", &["a b"], &h);
    assert_eq!(args, vec!["top a b"]);
}

#[test]
fn words_of_the_command_line_are_escaped_for_cmd() {
    let launcher = launcher_titled("T");
    let windows = host(Platform::Windows);
    let hostile = ["a&b", "x|y>z", "%PATH%", "say \"hi\"", "l1\nl2", "(p)!^"];
    let (_, args) = built(&launcher, &TerminalType::Cmd, "run&me.bat", &hostile, &windows);
    assert_eq!(
        args[5],
        "title T && run^&me.bat a^&b x^|y^>z ^%PATH^% ^\"say \\^\"hi\\^\"^\" ^\"l1 l2^\" ^(p^)^!^^"
    );
    let (_, args) = built(
        &launcher,
        &TerminalType::WindowsTerminal,
        "C:\\Program Files\\run.bat",
        &["a&b"],
        &windows,
    );
    assert_eq!(args[6], "title T && ^\"C:\\Program Files\\run.bat^\" a^&b");
    assert_eq!(quote_cmd_word("plain-word_1.txt"), "plain-word_1.txt");
    assert_eq!(escape_cmd("plain-word_1.txt"), "plain-word_1.txt");
}

#[test]
fn arguments_of_a_windows_program_are_quoted() {
    assert_eq!(quote_argv("plain\\path\\x.txt"), "plain\\path\\x.txt");
    assert_eq!(quote_argv(""), "\"\"");
    assert_eq!(quote_argv("a b"), "\"a b\"");
    assert_eq!(quote_argv("a\\b c"), "\"a\\b c\"");
    assert_eq!(quote_argv("C:\\my dir\\"), "\"C:\\my dir\\\\\"");
    assert_eq!(quote_argv("a\"b"), "\"a\\\"b\"");
    assert_eq!(quote_argv("a\\\"b"), "\"a\\\\\\\"b\"");
    assert_eq!(quote_argv("tab\there"), "\"tab\there\"");
}

#[test]
fn words_of_the_command_line_are_quoted_for_powershell() {
    assert_eq!(quote_powershell_word("run"), "'run'");
    assert_eq!(quote_powershell_word(""), "''");
    assert_eq!(quote_powershell_word("it's $x `y \"z\"; rm"), "'it''s $x `y \"z\"; rm'");
    let launcher = launcher_titled("T");
    let windows = host(Platform::Windows);
    let (_, args) =
        built(&launcher, &TerminalType::PowerShell, "my tool", &["a b", "it's", "$x;y"], &windows);
    assert_eq!(
        args[2],
        "Start-Process powershell -ArgumentList '-NoProfile', '-Command', \"`$Host.UI.RawUI.WindowTitle = `'T`'; & `'my tool`' `'a b`' `'it`'`'s`' `'`$x;y`'; Read-Host `'Press Enter to continue`'\""
    );
}
