//! The terminal launcher: which terminal emulator to use on this host, and
//! the exact invocation that opens a detached window running a command in it.

use crate::escape::{
    applescript_escaped, applescript_read, cmd_escaped, cmd_flattened, cmd_read, cmd_word,
    cmd_word_read, escape_applescript, escape_cmd, escape_powershell, escape_powershell_literal,
    lemma_applescript_round_trip, lemma_cmd_round_trip, lemma_cmd_word_round_trip,
    lemma_powershell_literal_round_trip, quote_cmd_word,
    lemma_powershell_round_trip, lemma_powershell_word_round_trip, lemma_shell_round_trip,
    powershell_escaped, powershell_literal_escaped, powershell_literal_read, powershell_read,
    powershell_word, powershell_word_read, quote_powershell_word, shell_quote, shell_quoted,
    shell_read,
};
use crate::text::{
    contains, decimal, join, joined, push_decimal, str_contains, str_eq, to_chars, views,
};
use vstd::prelude::*;

verus! {

/// The operating system the launcher runs on.
#[derive(Debug, Clone, Copy, PartialEq, Eq, Structural)]
pub enum Platform {
    MacOs,
    Linux,
    Windows,
    FreeBsd,
    Other,
}

impl Platform {
    /// The platform that goes by the given name of an operating system.
    pub fn from_os_name(name: &str) -> (r: Platform)
        ensures
            r == if name@ == "macos"@ {
                Platform::MacOs
            } else if name@ == "linux"@ {
                Platform::Linux
            } else if name@ == "windows"@ {
                Platform::Windows
            } else if name@ == "freebsd"@ {
                Platform::FreeBsd
            } else {
                Platform::Other
            },
    {
        if str_eq(name, "macos") {
            Platform::MacOs
        } else if str_eq(name, "linux") {
            Platform::Linux
        } else if str_eq(name, "windows") {
            Platform::Windows
        } else if str_eq(name, "freebsd") {
            Platform::FreeBsd
        } else {
            Platform::Other
        }
    }
}

/// The kinds of terminal the launcher knows.
#[derive(Debug, Clone)]
pub enum TerminalType {
    TerminalApp,
    ITerm2,
    Alacritty,
    GnomeTerminal,
    Konsole,
    Xterm,
    Cmd,
    PowerShell,
    WindowsTerminal,
    /// A terminal known by its command alone.
    Custom(String),
}

/// The view of a [`TerminalType`].
pub enum TerminalKind {
    TerminalApp,
    ITerm2,
    Alacritty,
    GnomeTerminal,
    Konsole,
    Xterm,
    Cmd,
    PowerShell,
    WindowsTerminal,
    Custom(Seq<char>),
}

impl View for TerminalType {
    type V = TerminalKind;

    open spec fn view(&self) -> TerminalKind {
        match self {
            TerminalType::TerminalApp => TerminalKind::TerminalApp,
            TerminalType::ITerm2 => TerminalKind::ITerm2,
            TerminalType::Alacritty => TerminalKind::Alacritty,
            TerminalType::GnomeTerminal => TerminalKind::GnomeTerminal,
            TerminalType::Konsole => TerminalKind::Konsole,
            TerminalType::Xterm => TerminalKind::Xterm,
            TerminalType::Cmd => TerminalKind::Cmd,
            TerminalType::PowerShell => TerminalKind::PowerShell,
            TerminalType::WindowsTerminal => TerminalKind::WindowsTerminal,
            TerminalType::Custom(c) => TerminalKind::Custom(c@),
        }
    }
}

impl TerminalType {
    /// A copy of the terminal kind.
    pub fn duplicate(&self) -> (r: TerminalType)
        ensures
            r@ == self@,
    {
        match self {
            TerminalType::TerminalApp => TerminalType::TerminalApp,
            TerminalType::ITerm2 => TerminalType::ITerm2,
            TerminalType::Alacritty => TerminalType::Alacritty,
            TerminalType::GnomeTerminal => TerminalType::GnomeTerminal,
            TerminalType::Konsole => TerminalType::Konsole,
            TerminalType::Xterm => TerminalType::Xterm,
            TerminalType::Cmd => TerminalType::Cmd,
            TerminalType::PowerShell => TerminalType::PowerShell,
            TerminalType::WindowsTerminal => TerminalType::WindowsTerminal,
            TerminalType::Custom(c) => TerminalType::Custom(c.clone()),
        }
    }
}

/// The views of a vector of terminal kinds.
pub open spec fn kinds(v: Seq<TerminalType>) -> Seq<TerminalKind> {
    Seq::new(v.len(), |i: int| v[i]@)
}

/// What was found out about the host before a launch: the platform, the
/// commands and application bundles that were probed and found, and the
/// environment variables that the terminals go by.
#[derive(Debug, Clone)]
pub struct HostFacts {
    pub platform: Platform,
    /// The commands found.
    pub commands: Vec<String>,
    /// The paths found on disk.
    pub paths: Vec<String>,
    /// `XDG_CURRENT_DESKTOP`.
    pub desktop: Option<String>,
    /// `DESKTOP_SESSION`.
    pub session: Option<String>,
    /// `DISPLAY`.
    pub display: Option<String>,
    /// `SHELL`.
    pub shell: Option<String>,
    /// `TERM`.
    pub term: Option<String>,
}

/// The view of [`HostFacts`].
pub struct HostView {
    pub platform: Platform,
    pub commands: Seq<Seq<char>>,
    pub paths: Seq<Seq<char>>,
    pub desktop: Option<Seq<char>>,
    pub session: Option<Seq<char>>,
    pub display: Option<Seq<char>>,
    pub shell: Option<Seq<char>>,
    pub term: Option<Seq<char>>,
}

/// The view of an optional string.
pub open spec fn optional(text: Option<String>) -> Option<Seq<char>> {
    match text {
        Some(s) => Some(s@),
        None => None,
    }
}

/// The text of a variable, or the empty text where it is not set.
pub open spec fn or_empty(text: Option<Seq<char>>) -> Seq<char> {
    match text {
        Some(s) => s,
        None => Seq::empty(),
    }
}

impl View for HostFacts {
    type V = HostView;

    open spec fn view(&self) -> HostView {
        HostView {
            platform: self.platform,
            commands: views(self.commands@),
            paths: views(self.paths@),
            desktop: optional(self.desktop),
            session: optional(self.session),
            display: optional(self.display),
            shell: optional(self.shell),
            term: optional(self.term),
        }
    }
}

/// The command `name` was found.
pub open spec fn has_command(host: HostView, name: Seq<char>) -> bool {
    host.commands.contains(name)
}

/// The path `path` was found.
pub open spec fn has_path(host: HostView, path: Seq<char>) -> bool {
    host.paths.contains(path)
}

/// Whether a terminal of the given kind can be used on the host.
pub open spec fn terminal_available(terminal: TerminalKind, host: HostView) -> bool {
    match terminal {
        TerminalKind::TerminalApp => host.platform == Platform::MacOs && has_command(
            host,
            "osascript"@,
        ) && (has_path(host, "/Applications/Utilities/Terminal.app"@) || has_path(
            host,
            "/System/Applications/Utilities/Terminal.app"@,
        )),
        TerminalKind::ITerm2 => host.platform == Platform::MacOs && has_command(
            host,
            "osascript"@,
        ) && (has_path(host, "/Applications/iTerm.app"@) || has_path(
            host,
            "/Applications/iTerm2.app"@,
        )),
        TerminalKind::Alacritty => has_command(host, "alacritty"@),
        TerminalKind::GnomeTerminal => host.platform == Platform::Linux && has_command(
            host,
            "gnome-terminal"@,
        ) && (contains(or_empty(host.desktop), "GNOME"@) || contains(
            or_empty(host.session),
            "gnome"@,
        )),
        TerminalKind::Konsole => host.platform == Platform::Linux && has_command(
            host,
            "konsole"@,
        ) && (contains(or_empty(host.desktop), "KDE"@) || contains(or_empty(host.session), "kde"@)),
        TerminalKind::Xterm => (host.platform == Platform::Linux || host.platform
            == Platform::FreeBsd) && has_command(host, "xterm"@) && host.display is Some,
        TerminalKind::Cmd => host.platform == Platform::Windows,
        TerminalKind::PowerShell => if host.platform == Platform::Windows {
            has_command(host, "powershell"@) || has_command(host, "pwsh"@)
        } else {
            has_command(host, "pwsh"@)
        },
        TerminalKind::WindowsTerminal => host.platform == Platform::Windows && has_command(
            host,
            "wt"@,
        ),
        TerminalKind::Custom(command) => has_command(host, command),
    }
}

/// The terminals tried on a platform, in order.
pub open spec fn platform_candidates(platform: Platform) -> Seq<TerminalKind> {
    match platform {
        Platform::MacOs => seq![
            TerminalKind::ITerm2,
            TerminalKind::TerminalApp,
            TerminalKind::Alacritty,
        ],
        Platform::Linux => seq![
            TerminalKind::GnomeTerminal,
            TerminalKind::Konsole,
            TerminalKind::Alacritty,
            TerminalKind::Xterm,
        ],
        Platform::Windows => seq![
            TerminalKind::WindowsTerminal,
            TerminalKind::PowerShell,
            TerminalKind::Cmd,
        ],
        _ => seq![TerminalKind::Xterm],
    }
}

/// The first terminal of `list` that can be used.
pub open spec fn first_available(list: Seq<TerminalKind>, host: HostView) -> Option<TerminalKind>
    decreases list.len(),
{
    if list.len() == 0 {
        None
    } else if terminal_available(list[0], host) {
        Some(list[0])
    } else {
        first_available(list.drop_first(), host)
    }
}

/// The terminals in the order in which detection tries them: the preferred
/// one, if any, before those of the platform.
pub open spec fn detection_order(preferred: Option<TerminalKind>, platform: Platform) -> Seq<
    TerminalKind,
> {
    match preferred {
        Some(p) => seq![p] + platform_candidates(platform),
        None => platform_candidates(platform),
    }
}

/// The terminal that detection settles on.
pub open spec fn detected(preferred: Option<TerminalKind>, host: HostView) -> Option<TerminalKind> {
    first_available(detection_order(preferred, host.platform), host)
}

/// The terminals that stay the process that was spawned: for them a launch
/// counts only once the process has survived its start.
pub open spec fn waits_for_startup(terminal: TerminalKind) -> bool {
    terminal is GnomeTerminal || terminal is Konsole || terminal is Alacritty || terminal is Xterm
}

/// The shell that a terminal is told to run.
pub open spec fn default_shell(host: HostView) -> Seq<char> {
    if host.platform == Platform::Windows {
        "cmd"@
    } else {
        match host.shell {
            Some(s) => s,
            None => "/bin/bash"@,
        }
    }
}

/// The command and its arguments as one command line, each as it is given.
pub open spec fn command_line(command: Seq<char>, args: Seq<Seq<char>>) -> Seq<char> {
    if args.len() == 0 {
        command
    } else {
        command + " "@ + joined(args, " "@)
    }
}

/// The command and its arguments, each as one word of a POSIX shell.
pub open spec fn shell_words(command: Seq<char>, args: Seq<Seq<char>>) -> Seq<Seq<char>> {
    Seq::new(
        args.len() + 1,
        |i: int|
            if i == 0 {
                shell_quoted(command)
            } else {
                shell_quoted(args[i - 1])
            },
    )
}

/// The command and its arguments as one command line of a POSIX shell.
pub open spec fn shell_line(command: Seq<char>, args: Seq<Seq<char>>) -> Seq<char> {
    joined(shell_words(command, args), " "@)
}

/// The command and its arguments, each as one word of a `cmd` command line.
pub open spec fn cmd_words(command: Seq<char>, args: Seq<Seq<char>>) -> Seq<Seq<char>> {
    Seq::new(
        args.len() + 1,
        |i: int|
            if i == 0 {
                cmd_word(command)
            } else {
                cmd_word(args[i - 1])
            },
    )
}

/// The command and its arguments as one command line of `cmd`.
pub open spec fn cmd_line(command: Seq<char>, args: Seq<Seq<char>>) -> Seq<char> {
    joined(cmd_words(command, args), " "@)
}

/// The command and its arguments, each as one word of PowerShell.
pub open spec fn powershell_words(command: Seq<char>, args: Seq<Seq<char>>) -> Seq<Seq<char>> {
    Seq::new(
        args.len() + 1,
        |i: int|
            if i == 0 {
                powershell_word(command)
            } else {
                powershell_word(args[i - 1])
            },
    )
}

/// The command and its arguments as one command of PowerShell: the call
/// operator, then the words.
pub open spec fn powershell_line(command: Seq<char>, args: Seq<Seq<char>>) -> Seq<char> {
    "& "@ + joined(powershell_words(command, args), " "@)
}

/// The command line that a terminal is given, escaped for the dialect that
/// reads it: each word quoted for a POSIX shell, for `cmd` and the program it
/// starts, or for PowerShell. A terminal of the user's own is given the words as they
/// are, in one argument: nothing is known of how it reads them.
pub open spec fn line_for(terminal: TerminalKind, command: Seq<char>, args: Seq<Seq<char>>) -> Seq<
    char,
> {
    match terminal {
        TerminalKind::Cmd => cmd_line(command, args),
        TerminalKind::PowerShell => powershell_line(command, args),
        TerminalKind::WindowsTerminal => cmd_line(command, args),
        TerminalKind::Custom(_) => command_line(command, args),
        _ => shell_line(command, args),
    }
}

/// The command line followed by a shell that keeps the window open.
pub open spec fn then_shell(line: Seq<char>, shell: Seq<char>) -> Seq<char> {
    line + "; exec "@ + shell_quoted(shell)
}

/// The script for Terminal.app up to the command line.
pub const TERMINAL_APP_OPEN: &'static str =
    "tell application \"Terminal\"\n                        activate\n                        do script \"";

/// The script for Terminal.app between the command line and the title.
pub const TERMINAL_APP_TITLE: &'static str =
    "\" in window 1\n                        set custom title of front window to \"";

/// The script for Terminal.app after the title.
pub const TERMINAL_APP_CLOSE: &'static str = "\"\n                    end tell";

/// The script for iTerm up to the command line.
pub const ITERM_OPEN: &'static str =
    "tell application \"iTerm\"\n                        activate\n                        create window with default profile\n                        tell current session of current window\n                            write text \"";

/// The script for iTerm between the command line and the title.
pub const ITERM_TITLE: &'static str = "\"\n                            set name to \"";

/// The script for iTerm after the title.
pub const ITERM_CLOSE: &'static str =
    "\"\n                        end tell\n                    end tell";

/// The script that opens a Terminal.app window: the command line and the
/// title stand in it as AppleScript string literals.
pub open spec fn terminal_app_script(line: Seq<char>, title: Seq<char>) -> Seq<char> {
    TERMINAL_APP_OPEN@ + applescript_escaped(line) + TERMINAL_APP_TITLE@ + applescript_escaped(
        title,
    ) + TERMINAL_APP_CLOSE@
}

/// The script that opens an iTerm window.
pub open spec fn iterm_script(line: Seq<char>, title: Seq<char>) -> Seq<char> {
    ITERM_OPEN@ + applescript_escaped(line) + ITERM_TITLE@ + applescript_escaped(title)
        + ITERM_CLOSE@
}

/// What `cmd /K` is given: the window's title is set, then the command line
/// runs. The title stands escaped for `cmd`.
pub open spec fn cmd_titled(line: Seq<char>, title: Seq<char>) -> Seq<char> {
    "title "@ + cmd_escaped(title) + " && "@ + line
}

/// The title between the double quotes that `start` takes its title in. What
/// stands between them is read as it is but for a double quote and a line
/// break, so a single quote stands for the one and a space for the other.
pub open spec fn start_title(title: Seq<char>) -> Seq<char> {
    "\""@ + Seq::new(title.len(), |i: int| start_title_char(title[i])) + "\""@
}

/// The character that stands for `c` in the title that `start` is given.
pub open spec fn start_title_char(c: char) -> char {
    if c == '"' {
        '\''
    } else if c == '\n' || c == '\r' {
        ' '
    } else {
        c
    }
}

/// The PowerShell program that the new window runs: the title is set from a
/// single-quoted string, the command line runs, the window waits for Enter.
pub open spec fn powershell_program(line: Seq<char>, title: Seq<char>) -> Seq<char> {
    "$Host.UI.RawUI.WindowTitle = '"@ + powershell_literal_escaped(title) + "'; "@ + line
        + "; Read-Host 'Press Enter to continue'"@
}

/// The PowerShell command that starts the new window: the program stands in
/// it as a double-quoted string.
pub open spec fn powershell_start(line: Seq<char>, title: Seq<char>) -> Seq<char> {
    "Start-Process powershell -ArgumentList '-NoProfile', '-Command', \""@ + powershell_escaped(
        powershell_program(line, title),
    ) + "\""@
}

/// The program and the arguments that open a window of the given terminal
/// with the title `title`, running `command` with `args` and then `shell`.
pub open spec fn terminal_command(
    terminal: TerminalKind,
    command: Seq<char>,
    args: Seq<Seq<char>>,
    title: Seq<char>,
    shell: Seq<char>,
) -> (Seq<char>, Seq<Seq<char>>) {
    let line = line_for(terminal, command, args);
    match terminal {
        TerminalKind::TerminalApp => ("osascript"@, seq!["-e"@, terminal_app_script(line, title)]),
        TerminalKind::ITerm2 => ("osascript"@, seq!["-e"@, iterm_script(line, title)]),
        TerminalKind::Alacritty => (
            "alacritty"@,
            seq!["--title"@, title, "-e"@, shell, "-c"@, then_shell(line, shell)],
        ),
        TerminalKind::GnomeTerminal => (
            "gnome-terminal"@,
            seq!["--title"@, title, "--"@, shell, "-c"@, then_shell(line, shell)],
        ),
        TerminalKind::Konsole => (
            "konsole"@,
            seq![
                "--new-tab"@,
                "-p"@,
                "tabtitle="@ + title,
                "-e"@,
                shell,
                "-c"@,
                then_shell(line, shell),
            ],
        ),
        TerminalKind::Xterm => (
            "xterm"@,
            seq!["-T"@, title, "-e"@, shell, "-c"@, then_shell(line, shell)],
        ),
        TerminalKind::Cmd => (
            "cmd"@,
            seq!["/C"@, "start"@, start_title(title), "cmd"@, "/K"@, cmd_titled(line, title)],
        ),
        TerminalKind::PowerShell => (
            "powershell"@,
            seq!["-NoProfile"@, "-Command"@, powershell_start(line, title)],
        ),
        TerminalKind::WindowsTerminal => (
            "wt"@,
            seq![
                "new-tab"@,
                "--title"@,
                title,
                "--"@,
                "cmd"@,
                "/K"@,
                cmd_titled(line, title),
            ],
        ),
        TerminalKind::Custom(program) => (program, seq![line]),
    }
}

/// How the launcher is set up for one launch.
#[derive(Debug, Clone)]
pub struct TerminalLauncherConfig {
    pub preferred_terminal: Option<TerminalType>,
    pub fallback_to_cli: bool,
    pub working_directory: Option<String>,
    pub window_title: Option<String>,
    /// How long an answer from the window is waited for.
    pub timeout_seconds: u32,
}

impl Default for TerminalLauncherConfig {
    fn default() -> (r: TerminalLauncherConfig)
        ensures
            r.preferred_terminal is None,
            r.fallback_to_cli,
            r.working_directory is None,
            optional(r.window_title) == Some("寸止 CLI 交互"@),
            r.timeout_seconds == 300,
    {
        TerminalLauncherConfig {
            preferred_terminal: None,
            fallback_to_cli: true,
            working_directory: None,
            window_title: Some("寸止 CLI 交互".to_string()),
            timeout_seconds: 300,
        }
    }
}

/// How the spawned process is cut loose from the launcher.
#[derive(Debug, Clone, Copy, PartialEq, Eq, Structural)]
pub struct ProcessDetachment {
    /// Standard input is the null device.
    pub stdin_null: bool,
    /// Standard output is the null device.
    pub stdout_null: bool,
    /// Standard error is the null device.
    pub stderr_null: bool,
    /// The process creation flags to set, on Windows.
    pub creation_flags: Option<u32>,
}

/// The Windows creation flag of a process without a console of its parent.
pub const DETACHED_PROCESS: u32 = 0x00000008;

/// Why a launch failed.
#[derive(Debug, Clone)]
pub enum LaunchError {
    /// No terminal of the list can be used on this host.
    NoTerminalAvailable { candidates: Vec<TerminalType> },
    /// The terminal could not be spawned.
    SpawnFailed(String),
    /// The terminal exited at once, with a failure status.
    AbnormalExit(String),
    /// The state of the spawned terminal could not be read.
    StatusCheckFailed(String),
    /// A launch failed and nothing is known of it.
    Unknown,
}

/// The view of a [`LaunchError`].
pub enum LaunchErrorView {
    NoTerminalAvailable { candidates: Seq<TerminalKind> },
    SpawnFailed(Seq<char>),
    AbnormalExit(Seq<char>),
    StatusCheckFailed(Seq<char>),
    Unknown,
}

impl View for LaunchError {
    type V = LaunchErrorView;

    open spec fn view(&self) -> LaunchErrorView {
        match self {
            LaunchError::NoTerminalAvailable { candidates } => {
                LaunchErrorView::NoTerminalAvailable { candidates: kinds(candidates@) }
            },
            LaunchError::SpawnFailed(m) => LaunchErrorView::SpawnFailed(m@),
            LaunchError::AbnormalExit(m) => LaunchErrorView::AbnormalExit(m@),
            LaunchError::StatusCheckFailed(m) => LaunchErrorView::StatusCheckFailed(m@),
            LaunchError::Unknown => LaunchErrorView::Unknown,
        }
    }
}

/// What `{:?}` prints for a string.
pub uninterp spec fn debug_text(s: Seq<char>) -> Seq<char>;

/// `format!("{:?}", s)`: the string between double quotes, with escapes for
/// what would not print.
#[verifier::external_body]
fn debug_string(s: &str) -> (r: String)
    ensures
        r@ == debug_text(s@),
{
    format!("{:?}", s)
}

/// The name of a terminal kind as it prints.
pub open spec fn kind_name(terminal: TerminalKind) -> Seq<char> {
    match terminal {
        TerminalKind::TerminalApp => "TerminalApp"@,
        TerminalKind::ITerm2 => "ITerm2"@,
        TerminalKind::Alacritty => "Alacritty"@,
        TerminalKind::GnomeTerminal => "GnomeTerminal"@,
        TerminalKind::Konsole => "Konsole"@,
        TerminalKind::Xterm => "Xterm"@,
        TerminalKind::Cmd => "Cmd"@,
        TerminalKind::PowerShell => "PowerShell"@,
        TerminalKind::WindowsTerminal => "WindowsTerminal"@,
        TerminalKind::Custom(c) => "Custom("@ + debug_text(c) + ")"@,
    }
}

/// The names of a list of terminal kinds, between brackets.
pub open spec fn kind_list(list: Seq<TerminalKind>) -> Seq<char> {
    "["@ + joined(Seq::new(list.len(), |i: int| kind_name(list[i])), ", "@) + "]"@
}

impl LaunchErrorView {
    /// The text that the error shows as.
    pub open spec fn text(self) -> Seq<char> {
        match self {
            LaunchErrorView::NoTerminalAvailable { candidates } => "未找到可用的终端程序。候选列表: "@
                + kind_list(candidates),
            LaunchErrorView::SpawnFailed(m) => "启动终端失败: "@ + m,
            LaunchErrorView::AbnormalExit(m) => "终端进程异常退出: "@ + m,
            LaunchErrorView::StatusCheckFailed(m) => "检查进程状态失败: "@ + m,
            LaunchErrorView::Unknown => "未知错误"@,
        }
    }
}

impl TerminalType {
    /// The name of the kind as it prints.
    pub fn name(&self) -> (r: String)
        ensures
            r@ == kind_name(self@),
    {
        match self {
            TerminalType::TerminalApp => "TerminalApp".to_string(),
            TerminalType::ITerm2 => "ITerm2".to_string(),
            TerminalType::Alacritty => "Alacritty".to_string(),
            TerminalType::GnomeTerminal => "GnomeTerminal".to_string(),
            TerminalType::Konsole => "Konsole".to_string(),
            TerminalType::Xterm => "Xterm".to_string(),
            TerminalType::Cmd => "Cmd".to_string(),
            TerminalType::PowerShell => "PowerShell".to_string(),
            TerminalType::WindowsTerminal => "WindowsTerminal".to_string(),
            TerminalType::Custom(c) => {
                let mut r = "Custom(".to_string();
                r.append(debug_string(c.as_str()).as_str());
                r.append(")");
                r
            },
        }
    }
}

/// The names of the terminals, between brackets.
pub fn terminal_list(list: &Vec<TerminalType>) -> (r: String)
    ensures
        r@ == kind_list(kinds(list@)),
{
    let mut names: Vec<String> = Vec::new();
    let mut i: usize = 0;
    while i < list.len()
        invariant
            i <= list.len(),
            names@.len() == i,
            forall|k: int| 0 <= k < i ==> (#[trigger] names@[k])@ == kind_name(list@[k]@),
        decreases list.len() - i,
    {
        names.push(list[i].name());
        i += 1;
    }
    proof {
        let shown = kinds(list@);
        assert(views(names@) =~= Seq::new(shown.len(), |i: int| kind_name(shown[i])));
    }
    let mut r = "[".to_string();
    r.append(join(&names, ", ").as_str());
    r.append("]");
    r
}

impl LaunchError {
    /// A copy of the error.
    pub fn duplicate(&self) -> (r: LaunchError)
        ensures
            r@ == self@,
    {
        match self {
            LaunchError::NoTerminalAvailable { candidates } => {
                let mut copy: Vec<TerminalType> = Vec::new();
                let mut i: usize = 0;
                while i < candidates.len()
                    invariant
                        i <= candidates.len(),
                        copy@.len() == i,
                        forall|k: int| 0 <= k < i ==> (#[trigger] copy@[k])@ == candidates@[k]@,
                    decreases candidates.len() - i,
                {
                    copy.push(candidates[i].duplicate());
                    i += 1;
                }
                assert(kinds(copy@) =~= kinds(candidates@));
                LaunchError::NoTerminalAvailable { candidates: copy }
            },
            LaunchError::SpawnFailed(m) => LaunchError::SpawnFailed(m.clone()),
            LaunchError::AbnormalExit(m) => LaunchError::AbnormalExit(m.clone()),
            LaunchError::StatusCheckFailed(m) => LaunchError::StatusCheckFailed(m.clone()),
            LaunchError::Unknown => LaunchError::Unknown,
        }
    }

    /// The text that the error shows as.
    pub fn to_string(&self) -> (r: String)
        ensures
            r@ == self@.text(),
    {
        match self {
            LaunchError::NoTerminalAvailable { candidates } => {
                let mut r = "未找到可用的终端程序。候选列表: ".to_string();
                r.append(terminal_list(candidates).as_str());
                r
            },
            LaunchError::SpawnFailed(m) => {
                let mut r = "启动终端失败: ".to_string();
                r.append(m.as_str());
                r
            },
            LaunchError::AbnormalExit(m) => {
                let mut r = "终端进程异常退出: ".to_string();
                r.append(m.as_str());
                r
            },
            LaunchError::StatusCheckFailed(m) => {
                let mut r = "检查进程状态失败: ".to_string();
                r.append(m.as_str());
                r
            },
            LaunchError::Unknown => "未知错误".to_string(),
        }
    }
}

fn list_has(list: &Vec<String>, name: &str) -> (r: bool)
    ensures
        r == views(list@).contains(name@),
{
    let mut i: usize = 0;
    while i < list.len()
        invariant
            i <= list.len(),
            forall|k: int| 0 <= k < i ==> (#[trigger] views(list@)[k]) != name@,
        decreases list.len() - i,
    {
        if str_eq(list[i].as_str(), name) {
            assert(views(list@)[i as int] == name@);
            return true;
        }
        i += 1;
    }
    false
}

fn variable_contains(value: &Option<String>, needle: &str) -> (r: bool)
    ensures
        r == contains(or_empty(optional(*value)), needle@),
{
    match value {
        Some(s) => str_contains(s.as_str(), needle),
        None => {
            proof {
                reveal_strlit("");
                assert(""@ =~= Seq::<char>::empty());
            }
            str_contains("", needle)
        },
    }
}

impl HostFacts {
    /// Whether the command `command` was found on the host.
    pub fn test_command_exists(&self, command: &str) -> (r: bool)
        ensures
            r == has_command(self@, command@),
    {
        list_has(&self.commands, command)
    }

    /// Whether the path `path` was found on the host.
    pub fn path_exists(&self, path: &str) -> (r: bool)
        ensures
            r == has_path(self@, path@),
    {
        list_has(&self.paths, path)
    }
}

/// The launcher of terminal windows.
#[derive(Debug, Clone)]
pub struct TerminalLauncher {
    config: TerminalLauncherConfig,
}

/// A launch, planned: what to spawn, where, and how to watch it.
#[derive(Debug, Clone)]
pub struct LaunchPlan {
    pub terminal: TerminalType,
    pub program: String,
    pub args: Vec<String>,
    pub working_directory: Option<String>,
    pub detachment: ProcessDetachment,
    /// Whether the process must survive its start for the launch to count.
    pub wait_for_startup: bool,
}

/// The title of the window: the configured one, or the built-in one.
pub open spec fn window_title_of(configured: Option<Seq<char>>) -> Seq<char> {
    match configured {
        Some(t) => t,
        None => "寸止 CLI"@,
    }
}

/// How a process of the given terminal is cut loose: its three standard
/// streams are the null device, whatever the terminal; the Windows terminals
/// are created detached on Windows.
pub open spec fn detachment_of(terminal: TerminalKind, platform: Platform) -> ProcessDetachment {
    ProcessDetachment {
        stdin_null: true,
        stdout_null: true,
        stderr_null: true,
        creation_flags: if (terminal is Cmd || terminal is PowerShell || terminal
            is WindowsTerminal) && platform == Platform::Windows {
            Some(DETACHED_PROCESS)
        } else {
            None
        },
    }
}

impl TerminalLauncher {
    /// The configuration that the launcher was made with.
    pub closed spec fn config(&self) -> TerminalLauncherConfig {
        self.config
    }

    /// The preferred terminal of the configuration.
    pub open spec fn preferred(&self) -> Option<TerminalKind> {
        match self.config().preferred_terminal {
            Some(t) => Some(t@),
            None => None,
        }
    }

    /// The window title that the launcher uses.
    pub open spec fn window_title(&self) -> Seq<char> {
        window_title_of(optional(self.config().window_title))
    }

    /// A launcher with the given setup.
    pub fn new(config: TerminalLauncherConfig) -> (r: TerminalLauncher)
        ensures
            r.config() == config,
    {
        TerminalLauncher { config }
    }

    /// How long an answer from the window is waited for.
    pub fn timeout_seconds(&self) -> (r: u32)
        ensures
            r == self.config().timeout_seconds,
    {
        self.config.timeout_seconds
    }

    /// Whether a launch counts only once the process has survived its start.
    pub fn should_wait_for_startup(&self, terminal: &TerminalType) -> (r: bool)
        ensures
            r == waits_for_startup(terminal@),
    {
        match terminal {
            TerminalType::GnomeTerminal => true,
            TerminalType::Konsole => true,
            TerminalType::Alacritty => true,
            TerminalType::Xterm => true,
            _ => false,
        }
    }

    /// The terminals tried on a platform, in order.
    pub fn get_platform_terminal_candidates(&self, platform: Platform) -> (r: Vec<TerminalType>)
        ensures
            kinds(r@) == platform_candidates(platform),
            r@.len() == platform_candidates(platform).len(),
    {
        let r = match platform {
            Platform::MacOs => vec![
                TerminalType::ITerm2,
                TerminalType::TerminalApp,
                TerminalType::Alacritty,
            ],
            Platform::Linux => vec![
                TerminalType::GnomeTerminal,
                TerminalType::Konsole,
                TerminalType::Alacritty,
                TerminalType::Xterm,
            ],
            Platform::Windows => vec![
                TerminalType::WindowsTerminal,
                TerminalType::PowerShell,
                TerminalType::Cmd,
            ],
            _ => vec![TerminalType::Xterm],
        };
        assert(kinds(r@) =~= platform_candidates(platform));
        r
    }

    /// Whether a terminal of the given kind can be used on the host.
    pub fn is_terminal_available(&self, terminal: &TerminalType, host: &HostFacts) -> (r: bool)
        ensures
            r == terminal_available(terminal@, host@),
    {
        match terminal {
            TerminalType::TerminalApp => host.platform == Platform::MacOs
                && host.test_command_exists("osascript") && (host.path_exists(
                "/Applications/Utilities/Terminal.app",
            ) || host.path_exists("/System/Applications/Utilities/Terminal.app")),
            TerminalType::ITerm2 => host.platform == Platform::MacOs && host.test_command_exists(
                "osascript",
            ) && (host.path_exists("/Applications/iTerm.app") || host.path_exists(
                "/Applications/iTerm2.app",
            )),
            TerminalType::Alacritty => host.test_command_exists("alacritty"),
            TerminalType::GnomeTerminal => host.platform == Platform::Linux
                && host.test_command_exists("gnome-terminal") && (variable_contains(
                &host.desktop,
                "GNOME",
            ) || variable_contains(&host.session, "gnome")),
            TerminalType::Konsole => host.platform == Platform::Linux && host.test_command_exists(
                "konsole",
            ) && (variable_contains(&host.desktop, "KDE") || variable_contains(
                &host.session,
                "kde",
            )),
            TerminalType::Xterm => (host.platform == Platform::Linux || host.platform
                == Platform::FreeBsd) && host.test_command_exists("xterm")
                && host.display.is_some(),
            TerminalType::Cmd => host.platform == Platform::Windows,
            TerminalType::PowerShell => {
                if host.platform == Platform::Windows {
                    host.test_command_exists("powershell") || host.test_command_exists("pwsh")
                } else {
                    host.test_command_exists("pwsh")
                }
            },
            TerminalType::WindowsTerminal => host.platform == Platform::Windows
                && host.test_command_exists("wt"),
            TerminalType::Custom(command) => host.test_command_exists(command.as_str()),
        }
    }

    /// Whether the command `command` was found on the host.
    pub fn test_command_exists(&self, command: &str, host: &HostFacts) -> (r: bool)
        ensures
            r == has_command(host@, command@),
    {
        host.test_command_exists(command)
    }

    /// The terminal to use: the preferred one where it can be used, else the
    /// first of the platform's that can. Where none can, the error names the
    /// platform's list.
    pub fn detect_best_terminal(&self, host: &HostFacts) -> (r: Result<TerminalType, LaunchError>)
        ensures
            match r {
                Ok(t) => detected(self.preferred(), host@) == Some(t@),
                Err(e) => detected(self.preferred(), host@) is None && e@
                    == (LaunchErrorView::NoTerminalAvailable {
                    candidates: platform_candidates(host.platform),
                }),
            },
    {
        let candidates = self.get_platform_terminal_candidates(host.platform);
        let ghost list = platform_candidates(host.platform);
        proof {
            match self.preferred() {
                Some(p) => {
                    assert((seq![p] + list).drop_first() =~= list);
                },
                None => {},
            }
        }
        match &self.config.preferred_terminal {
            Some(preferred) => {
                if self.is_terminal_available(preferred, host) {
                    return Ok(preferred.duplicate());
                }
            },
            None => {},
        }
        assert(detected(self.preferred(), host@) == first_available(list, host@));
        assert(list.skip(0) =~= list);
        let mut i: usize = 0;
        while i < candidates.len()
            invariant
                i <= candidates.len(),
                kinds(candidates@) == list,
                detected(self.preferred(), host@) == first_available(list, host@),
                first_available(list, host@) == first_available(list.skip(i as int), host@),
            decreases candidates.len() - i,
        {
            proof {
                assert(list.skip(i as int)[0] == candidates@[i as int]@);
                assert(list.skip(i as int).drop_first() =~= list.skip(i + 1));
            }
            if self.is_terminal_available(&candidates[i], host) {
                return Ok(candidates[i].duplicate());
            }
            i += 1;
        }
        Err(LaunchError::NoTerminalAvailable { candidates })
    }

    /// The shell that the terminal is told to run.
    pub fn get_default_shell(&self, host: &HostFacts) -> (r: String)
        ensures
            r@ == default_shell(host@),
    {
        if host.platform == Platform::Windows {
            "cmd".to_string()
        } else {
            match &host.shell {
                Some(s) => s.clone(),
                None => "/bin/bash".to_string(),
            }
        }
    }

    /// `text` for an AppleScript string literal.
    pub fn escape_applescript(&self, text: &str) -> (r: String)
        ensures
            r@ == applescript_escaped(text@),
    {
        escape_applescript(text)
    }

    /// `text` for a double-quoted PowerShell string.
    pub fn escape_powershell(&self, text: &str) -> (r: String)
        ensures
            r@ == powershell_escaped(text@),
    {
        escape_powershell(text)
    }

    /// How a process of the given terminal is cut loose from the launcher.
    pub fn configure_process_detachment(&self, terminal: &TerminalType, platform: Platform) -> (r:
        ProcessDetachment)
        ensures
            r == detachment_of(terminal@, platform),
    {
        let windows_terminal = match terminal {
            TerminalType::Cmd => true,
            TerminalType::PowerShell => true,
            TerminalType::WindowsTerminal => true,
            _ => false,
        };
        ProcessDetachment {
            stdin_null: true,
            stdout_null: true,
            stderr_null: true,
            creation_flags: if windows_terminal && platform == Platform::Windows {
                Some(DETACHED_PROCESS)
            } else {
                None
            },
        }
    }
}


fn command_line_text(command: &str, args: &Vec<String>) -> (r: String)
    ensures
        r@ == command_line(command@, views(args@)),
{
    assert(views(args@).len() == args@.len());
    if args.len() == 0 {
        command.to_string()
    } else {
        let mut r = command.to_string();
        r.append(" ");
        r.append(join(args, " ").as_str());
        r
    }
}

fn shell_line_text(command: &str, args: &Vec<String>) -> (r: String)
    ensures
        r@ == shell_line(command@, views(args@)),
{
    let mut words: Vec<String> = Vec::new();
    words.push(shell_quote(command));
    let mut i: usize = 0;
    while i < args.len()
        invariant
            i <= args.len(),
            words@.len() == i + 1,
            words@[0]@ == shell_quoted(command@),
            forall|k: int| 0 <= k < i ==> (#[trigger] words@[k + 1])@ == shell_quoted(args@[k]@),
        decreases args.len() - i,
    {
        words.push(shell_quote(args[i].as_str()));
        i += 1;
    }
    proof {
        let want = shell_words(command@, views(args@));
        assert(views(words@).len() == want.len());
        assert forall|k: int| 0 <= k < want.len() implies views(words@)[k] == want[k] by {
            if k > 0 {
                assert(words@[(k - 1) + 1]@ == shell_quoted(args@[k - 1]@));
            }
        }
        assert(views(words@) =~= want);
    }
    join(&words, " ")
}

fn cmd_line_text(command: &str, args: &Vec<String>) -> (r: String)
    ensures
        r@ == cmd_line(command@, views(args@)),
{
    let mut words: Vec<String> = Vec::new();
    words.push(quote_cmd_word(command));
    let mut i: usize = 0;
    while i < args.len()
        invariant
            i <= args.len(),
            words@.len() == i + 1,
            words@[0]@ == cmd_word(command@),
            forall|k: int| 0 <= k < i ==> (#[trigger] words@[k + 1])@ == cmd_word(args@[k]@),
        decreases args.len() - i,
    {
        words.push(quote_cmd_word(args[i].as_str()));
        i += 1;
    }
    proof {
        let want = cmd_words(command@, views(args@));
        assert(views(words@).len() == want.len());
        assert forall|k: int| 0 <= k < want.len() implies views(words@)[k] == want[k] by {
            if k > 0 {
                assert(words@[(k - 1) + 1]@ == cmd_word(args@[k - 1]@));
            }
        }
        assert(views(words@) =~= want);
    }
    join(&words, " ")
}

fn powershell_line_text(command: &str, args: &Vec<String>) -> (r: String)
    ensures
        r@ == powershell_line(command@, views(args@)),
{
    let mut words: Vec<String> = Vec::new();
    words.push(quote_powershell_word(command));
    let mut i: usize = 0;
    while i < args.len()
        invariant
            i <= args.len(),
            words@.len() == i + 1,
            words@[0]@ == powershell_word(command@),
            forall|k: int| 0 <= k < i ==> (#[trigger] words@[k + 1])@ == powershell_word(args@[k]@),
        decreases args.len() - i,
    {
        words.push(quote_powershell_word(args[i].as_str()));
        i += 1;
    }
    proof {
        let want = powershell_words(command@, views(args@));
        assert(views(words@).len() == want.len());
        assert forall|k: int| 0 <= k < want.len() implies views(words@)[k] == want[k] by {
            if k > 0 {
                assert(words@[(k - 1) + 1]@ == powershell_word(args@[k - 1]@));
            }
        }
        assert(views(words@) =~= want);
    }
    let mut r = "& ".to_string();
    r.append(join(&words, " ").as_str());
    r
}

fn then_shell_text(line: &str, shell: &str) -> (r: String)
    ensures
        r@ == then_shell(line@, shell@),
{
    let mut r = line.to_string();
    r.append("; exec ");
    r.append(shell_quote(shell).as_str());
    r
}

fn terminal_app_script_text(line: &str, title: &str) -> (r: String)
    ensures
        r@ == terminal_app_script(line@, title@),
{
    let mut r = TERMINAL_APP_OPEN.to_string();
    r.append(escape_applescript(line).as_str());
    r.append(TERMINAL_APP_TITLE);
    r.append(escape_applescript(title).as_str());
    r.append(TERMINAL_APP_CLOSE);
    r
}

fn iterm_script_text(line: &str, title: &str) -> (r: String)
    ensures
        r@ == iterm_script(line@, title@),
{
    let mut r = ITERM_OPEN.to_string();
    r.append(escape_applescript(line).as_str());
    r.append(ITERM_TITLE);
    r.append(escape_applescript(title).as_str());
    r.append(ITERM_CLOSE);
    r
}

fn cmd_titled_text(line: &str, title: &str) -> (r: String)
    ensures
        r@ == cmd_titled(line@, title@),
{
    let mut r = "title ".to_string();
    r.append(escape_cmd(title).as_str());
    r.append(" && ");
    r.append(line);
    r
}

fn start_title_text(title: &str) -> (r: String)
    ensures
        r@ == start_title(title@),
{
    let v = to_chars(title);
    let mut r = "\"".to_string();
    let ghost open = r@;
    let mut i: usize = 0;
    while i < v.len()
        invariant
            i <= v.len(),
            v@ == title@,
            open == "\""@,
            r@ == open + Seq::new(i as nat, |k: int| start_title_char(title@[k])),
        decreases v.len() - i,
    {
        let c = v[i];
        let shown = if c == '"' {
            '\''
        } else if c == '\n' || c == '\r' {
            ' '
        } else {
            c
        };
        r.push(shown);
        assert(Seq::new((i + 1) as nat, |k: int| start_title_char(title@[k])) =~= Seq::new(
            i as nat,
            |k: int| start_title_char(title@[k]),
        ).push(shown));
        i += 1;
    }
    r.append("\"");
    r
}

fn powershell_start_text(line: &str, title: &str) -> (r: String)
    ensures
        r@ == powershell_start(line@, title@),
{
    let mut program = "$Host.UI.RawUI.WindowTitle = '".to_string();
    program.append(escape_powershell_literal(title).as_str());
    program.append("'; ");
    program.append(line);
    program.append("; Read-Host 'Press Enter to continue'");
    let mut r = "Start-Process powershell -ArgumentList '-NoProfile', '-Command', \"".to_string();
    r.append(escape_powershell(program.as_str()).as_str());
    r.append("\"");
    r
}

/// What a launch failure is reported as: where a fall-back to the command
/// line is configured, that a fall-back is due; else the error.
pub open spec fn launch_failure_text(fallback_to_cli: bool, error: LaunchErrorView) -> Seq<char> {
    if fallback_to_cli {
        "终端启动失败，需要回退到CLI模式"@
    } else {
        "终端启动失败: "@ + error.text()
    }
}

impl TerminalLauncher {
    /// The program and the arguments that open a window of `terminal` running
    /// `command` with `args`. The window's title and the command line are
    /// escaped for whatever they are embedded in; for a terminal that hands
    /// the command line to a POSIX shell, so is each of its words.
    pub fn build_terminal_command(
        &self,
        terminal: &TerminalType,
        command: &str,
        args: &Vec<String>,
        host: &HostFacts,
    ) -> (r: Result<(String, Vec<String>), LaunchError>)
        ensures
            r is Ok,
            r->Ok_0.0@ == terminal_command(
                terminal@,
                command@,
                views(args@),
                self.window_title(),
                default_shell(host@),
            ).0,
            views(r->Ok_0.1@) == terminal_command(
                terminal@,
                command@,
                views(args@),
                self.window_title(),
                default_shell(host@),
            ).1,
    {
        let line = match terminal {
            TerminalType::Cmd => cmd_line_text(command, args),
            TerminalType::PowerShell => powershell_line_text(command, args),
            TerminalType::WindowsTerminal => cmd_line_text(command, args),
            TerminalType::Custom(_) => command_line_text(command, args),
            _ => shell_line_text(command, args),
        };
        let title: String = match &self.config.window_title {
            Some(t) => t.clone(),
            None => "寸止 CLI".to_string(),
        };
        let shell = self.get_default_shell(host);
        let ghost want = terminal_command(
            terminal@,
            command@,
            views(args@),
            self.window_title(),
            default_shell(host@),
        ).1;
        match terminal {
            TerminalType::TerminalApp => {
                let v = vec![
                    "-e".to_string(),
                    terminal_app_script_text(line.as_str(), title.as_str()),
                ];
                assert(views(v@) =~= want);
                Ok(("osascript".to_string(), v))
            },
            TerminalType::ITerm2 => {
                let v = vec!["-e".to_string(), iterm_script_text(line.as_str(), title.as_str())];
                assert(views(v@) =~= want);
                Ok(("osascript".to_string(), v))
            },
            TerminalType::Alacritty => {
                let v = vec![
                    "--title".to_string(),
                    title,
                    "-e".to_string(),
                    shell.clone(),
                    "-c".to_string(),
                    then_shell_text(line.as_str(), shell.as_str()),
                ];
                assert(views(v@) =~= want);
                Ok(("alacritty".to_string(), v))
            },
            TerminalType::GnomeTerminal => {
                let v = vec![
                    "--title".to_string(),
                    title,
                    "--".to_string(),
                    shell.clone(),
                    "-c".to_string(),
                    then_shell_text(line.as_str(), shell.as_str()),
                ];
                assert(views(v@) =~= want);
                Ok(("gnome-terminal".to_string(), v))
            },
            TerminalType::Konsole => {
                let mut tab = "tabtitle=".to_string();
                tab.append(title.as_str());
                let v = vec![
                    "--new-tab".to_string(),
                    "-p".to_string(),
                    tab,
                    "-e".to_string(),
                    shell.clone(),
                    "-c".to_string(),
                    then_shell_text(line.as_str(), shell.as_str()),
                ];
                assert(views(v@) =~= want);
                Ok(("konsole".to_string(), v))
            },
            TerminalType::Xterm => {
                let v = vec![
                    "-T".to_string(),
                    title,
                    "-e".to_string(),
                    shell.clone(),
                    "-c".to_string(),
                    then_shell_text(line.as_str(), shell.as_str()),
                ];
                assert(views(v@) =~= want);
                Ok(("xterm".to_string(), v))
            },
            TerminalType::Cmd => {
                let v = vec![
                    "/C".to_string(),
                    "start".to_string(),
                    start_title_text(title.as_str()),
                    "cmd".to_string(),
                    "/K".to_string(),
                    cmd_titled_text(line.as_str(), title.as_str()),
                ];
                assert(views(v@) =~= want);
                Ok(("cmd".to_string(), v))
            },
            TerminalType::PowerShell => {
                let v = vec![
                    "-NoProfile".to_string(),
                    "-Command".to_string(),
                    powershell_start_text(line.as_str(), title.as_str()),
                ];
                assert(views(v@) =~= want);
                Ok(("powershell".to_string(), v))
            },
            TerminalType::WindowsTerminal => {
                let titled = cmd_titled_text(line.as_str(), title.as_str());
                let v = vec![
                    "new-tab".to_string(),
                    "--title".to_string(),
                    title,
                    "--".to_string(),
                    "cmd".to_string(),
                    "/K".to_string(),
                    titled,
                ];
                assert(views(v@) =~= want);
                Ok(("wt".to_string(), v))
            },
            TerminalType::Custom(program) => {
                let v = vec![line];
                assert(views(v@) =~= want);
                Ok((program.clone(), v))
            },
        }
    }

    /// Plans the launch of a terminal window that runs `command` with `args`:
    /// the terminal that detection settles on, its invocation, the working
    /// directory of the configuration, and how the process is cut loose and
    /// watched. Where no terminal can be used, the error says so.
    pub fn launch_terminal_with_command(&self, command: &str, args: &Vec<String>, host: &HostFacts)
        -> (r: Result<LaunchPlan, LaunchError>)
        ensures
            match r {
                Ok(plan) => {
                    &&& detected(self.preferred(), host@) == Some(plan.terminal@)
                    &&& plan.program@ == terminal_command(
                        plan.terminal@,
                        command@,
                        views(args@),
                        self.window_title(),
                        default_shell(host@),
                    ).0
                    &&& views(plan.args@) == terminal_command(
                        plan.terminal@,
                        command@,
                        views(args@),
                        self.window_title(),
                        default_shell(host@),
                    ).1
                    &&& optional(plan.working_directory) == optional(
                        self.config().working_directory,
                    )
                    &&& plan.detachment == detachment_of(plan.terminal@, host.platform)
                    &&& plan.wait_for_startup == waits_for_startup(plan.terminal@)
                },
                Err(e) => detected(self.preferred(), host@) is None && e@
                    == (LaunchErrorView::NoTerminalAvailable {
                    candidates: platform_candidates(host.platform),
                }),
            },
    {
        let terminal = match self.detect_best_terminal(host) {
            Ok(t) => t,
            Err(e) => {
                return Err(e);
            },
        };
        let (program, arguments) = match self.build_terminal_command(
            &terminal,
            command,
            args,
            host,
        ) {
            Ok(built) => built,
            Err(e) => {
                return Err(e);
            },
        };
        let detachment = self.configure_process_detachment(&terminal, host.platform);
        let wait_for_startup = self.should_wait_for_startup(&terminal);
        let working_directory = match &self.config.working_directory {
            Some(d) => Some(d.clone()),
            None => None,
        };
        Ok(
            LaunchPlan {
                terminal,
                program,
                args: arguments,
                working_directory,
                detachment,
                wait_for_startup,
            },
        )
    }

    /// What a failed launch is reported as.
    pub fn launch_failure(&self, error: &LaunchError) -> (r: String)
        ensures
            r@ == launch_failure_text(self.config().fallback_to_cli, error@),
    {
        if self.config.fallback_to_cli {
            "终端启动失败，需要回退到CLI模式".to_string()
        } else {
            let mut r = "终端启动失败: ".to_string();
            r.append(error.to_string().as_str());
            r
        }
    }
}

/// The terminal that a launcher without preferences settles on.
pub fn detect_system_terminal(host: &HostFacts) -> (r: Result<TerminalType, LaunchError>)
    ensures
        match r {
            Ok(t) => detected(None, host@) == Some(t@),
            Err(e) => detected(None, host@) is None && e@
                == (LaunchErrorView::NoTerminalAvailable {
                candidates: platform_candidates(host.platform),
            }),
        },
{
    let launcher = TerminalLauncher::new(TerminalLauncherConfig::default());
    launcher.detect_best_terminal(host)
}

/// Detection finds the first terminal of its order that can be used: the one
/// it settles on can be used, and none before it in the order can.
pub proof fn lemma_detection_first(preferred: Option<TerminalKind>, host: HostView)
    ensures
        match detected(preferred, host) {
            Some(t) => exists|i: int|
                0 <= i < detection_order(preferred, host.platform).len() && detection_order(
                    preferred,
                    host.platform,
                )[i] == t && terminal_available(t, host) && forall|j: int|
                    0 <= j < i ==> !terminal_available(
                        #[trigger] detection_order(preferred, host.platform)[j],
                        host,
                    ),
            None => forall|j: int|
                0 <= j < detection_order(preferred, host.platform).len() ==> !terminal_available(
                    #[trigger] detection_order(preferred, host.platform)[j],
                    host,
                ),
        },
{
    lemma_first_available(detection_order(preferred, host.platform), host);
}

proof fn lemma_first_available(list: Seq<TerminalKind>, host: HostView)
    ensures
        match first_available(list, host) {
            Some(t) => exists|i: int|
                0 <= i < list.len() && list[i] == t && terminal_available(t, host) && forall|
                    j: int,
                |
                    0 <= j < i ==> !terminal_available(#[trigger] list[j], host),
            None => forall|j: int| 0 <= j < list.len() ==> !terminal_available(
                #[trigger] list[j],
                host,
            ),
        },
    decreases list.len(),
{
    if list.len() > 0 {
        if terminal_available(list[0], host) {
            assert(0 <= 0 < list.len() && list[0] == list[0] && terminal_available(list[0], host)
                && forall|j: int| 0 <= j < 0 ==> !terminal_available(#[trigger] list[j], host));
        } else {
            let rest = list.drop_first();
            lemma_first_available(rest, host);
            match first_available(rest, host) {
                Some(t) => {
                    let i = choose|i: int|
                        0 <= i < rest.len() && rest[i] == t && terminal_available(t, host)
                            && forall|j: int|
                            0 <= j < i ==> !terminal_available(#[trigger] rest[j], host);
                    assert forall|j: int| 0 <= j < i + 1 implies !terminal_available(
                        #[trigger] list[j],
                        host,
                    ) by {
                        if j > 0 {
                            assert(rest[j - 1] == list[j]);
                        }
                    }
                    assert(list[i + 1] == rest[i]);
                },
                None => {
                    assert forall|j: int| 0 <= j < list.len() implies !terminal_available(
                        #[trigger] list[j],
                        host,
                    ) by {
                        if j > 0 {
                            assert(rest[j - 1] == list[j]);
                        }
                    }
                },
            }
        }
    }
}

/// Detection goes by the probes alone: on the same platform, two hosts on
/// which each terminal of the order can or cannot be used alike give the same
/// terminal.
pub proof fn lemma_detection_repeatable(
    preferred: Option<TerminalKind>,
    first: HostView,
    second: HostView,
)
    requires
        first.platform == second.platform,
        forall|i: int|
            0 <= i < detection_order(preferred, first.platform).len() ==> terminal_available(
                #[trigger] detection_order(preferred, first.platform)[i],
                first,
            ) == terminal_available(detection_order(preferred, first.platform)[i], second),
    ensures
        detected(preferred, first) == detected(preferred, second),
{
    lemma_same_first(detection_order(preferred, first.platform), first, second);
}

proof fn lemma_same_first(list: Seq<TerminalKind>, first: HostView, second: HostView)
    requires
        forall|i: int|
            0 <= i < list.len() ==> terminal_available(#[trigger] list[i], first)
                == terminal_available(list[i], second),
    ensures
        first_available(list, first) == first_available(list, second),
    decreases list.len(),
{
    if list.len() > 0 {
        assert(terminal_available(list[0], first) == terminal_available(list[0], second));
        let rest = list.drop_first();
        assert forall|i: int| 0 <= i < rest.len() implies terminal_available(
            #[trigger] rest[i],
            first,
        ) == terminal_available(rest[i], second) by {
            assert(rest[i] == list[i + 1]);
        }
        lemma_same_first(rest, first, second);
    }
}


/// The line of the report that shows a variable.
pub open spec fn variable_line(name: Seq<char>, value: Option<Seq<char>>) -> Seq<char> {
    name + ": "@ + (match value {
        Some(v) => v,
        None => "(未设置)"@,
    }) + "\n"@
}

/// The terminals that the report checks, in order.
pub open spec fn known_terminals() -> Seq<TerminalKind> {
    seq![
        TerminalKind::TerminalApp,
        TerminalKind::ITerm2,
        TerminalKind::Alacritty,
        TerminalKind::GnomeTerminal,
        TerminalKind::Konsole,
        TerminalKind::Xterm,
        TerminalKind::Cmd,
        TerminalKind::PowerShell,
        TerminalKind::WindowsTerminal,
    ]
}

/// The line of the report that says whether a terminal can be used.
pub open spec fn availability_line(terminal: TerminalKind, host: HostView) -> Seq<char> {
    kind_name(terminal) + ": "@ + (if terminal_available(terminal, host) {
        "✓ 可用"@
    } else {
        "✗ 不可用"@
    }) + "\n"@
}

/// The lines of the report for the first `n` terminals of a list.
pub open spec fn availability_lines(list: Seq<TerminalKind>, host: HostView, n: nat) -> Seq<char>
    decreases n,
{
    if n == 0 || n > list.len() {
        Seq::empty()
    } else {
        availability_lines(list, host, (n - 1) as nat) + availability_line(list[n - 1], host)
    }
}

/// The line of the report for the candidate of the given index.
pub open spec fn candidate_line(index: int, terminal: TerminalKind, host: HostView) -> Seq<char> {
    decimal((index + 1) as nat) + ". "@ + kind_name(terminal) + ": "@ + (if terminal_available(
        terminal,
        host,
    ) {
        "✓"@
    } else {
        "✗"@
    }) + "\n"@
}

/// The lines of the report for the first `n` candidates of a list.
pub open spec fn candidate_lines(list: Seq<TerminalKind>, host: HostView, n: nat) -> Seq<char>
    decreases n,
{
    if n == 0 || n > list.len() {
        Seq::empty()
    } else {
        candidate_lines(list, host, (n - 1) as nat) + candidate_line(n - 1, list[n - 1], host)
    }
}

/// The line of the report that gives the outcome of detection.
pub open spec fn detection_line(host: HostView) -> Seq<char> {
    match detected(None, host) {
        Some(t) => "推荐终端: "@ + kind_name(t) + "\n"@,
        None => "检测失败: "@ + (LaunchErrorView::NoTerminalAvailable {
            candidates: platform_candidates(host.platform),
        }).text() + "\n"@,
    }
}

/// The report on the terminals of a host: the system, the variables, which of
/// the known terminals can be used, the candidates of the platform, and what
/// detection settles on.
pub open spec fn diagnosis(os: Seq<char>, arch: Seq<char>, host: HostView) -> Seq<char> {
    "=== 终端可用性诊断报告 ===\n"@ + "操作系统: "@ + os + "\n"@ + "架构: "@ + arch + "\n"@
        + "\n--- 环境变量 ---\n"@ + variable_line("DISPLAY"@, host.display) + variable_line(
        "XDG_CURRENT_DESKTOP"@,
        host.desktop,
    ) + variable_line("DESKTOP_SESSION"@, host.session) + variable_line("SHELL"@, host.shell)
        + variable_line("TERM"@, host.term) + "\n--- 终端可用性检查 ---\n"@ + availability_lines(
        known_terminals(),
        host,
        9,
    ) + "\n--- 平台终端候选列表 ---\n"@ + candidate_lines(
        platform_candidates(host.platform),
        host,
        platform_candidates(host.platform).len(),
    ) + "\n--- 检测结果 ---\n"@ + detection_line(host) + "=== 诊断报告结束 ===\n"@
}

fn variable_line_text(name: &str, value: &Option<String>) -> (r: String)
    ensures
        r@ == variable_line(name@, optional(*value)),
{
    let mut r = name.to_string();
    r.append(": ");
    match value {
        Some(v) => {
            r.append(v.as_str());
        },
        None => {
            r.append("(未设置)");
        },
    }
    r.append("\n");
    r
}

/// The report on the terminals of a host, for a system of the given name and
/// architecture.
pub fn diagnose_terminal_availability(os: &str, arch: &str, host: &HostFacts) -> (r: String)
    ensures
        r@ == diagnosis(os@, arch@, host@),
{
    let launcher = TerminalLauncher::new(TerminalLauncherConfig::default());
    let mut r = "=== 终端可用性诊断报告 ===\n".to_string();
    r.append("操作系统: ");
    r.append(os);
    r.append("\n");
    r.append("架构: ");
    r.append(arch);
    r.append("\n");
    r.append("\n--- 环境变量 ---\n");
    r.append(variable_line_text("DISPLAY", &host.display).as_str());
    r.append(variable_line_text("XDG_CURRENT_DESKTOP", &host.desktop).as_str());
    r.append(variable_line_text("DESKTOP_SESSION", &host.session).as_str());
    r.append(variable_line_text("SHELL", &host.shell).as_str());
    r.append(variable_line_text("TERM", &host.term).as_str());
    r.append("\n--- 终端可用性检查 ---\n");
    let all = vec![
        TerminalType::TerminalApp,
        TerminalType::ITerm2,
        TerminalType::Alacritty,
        TerminalType::GnomeTerminal,
        TerminalType::Konsole,
        TerminalType::Xterm,
        TerminalType::Cmd,
        TerminalType::PowerShell,
        TerminalType::WindowsTerminal,
    ];
    assert(kinds(all@) =~= known_terminals());
    let ghost head = r@;
    let mut i: usize = 0;
    assert(r@ =~= head + availability_lines(known_terminals(), host@, 0));
    while i < all.len()
        invariant
            i <= all.len(),
            all.len() == 9,
            kinds(all@) == known_terminals(),
            r@ == head + availability_lines(known_terminals(), host@, i as nat),
        decreases all.len() - i,
    {
        let available = launcher.is_terminal_available(&all[i], host);
        let mut line = all[i].name();
        line.append(": ");
        if available {
            line.append("✓ 可用");
        } else {
            line.append("✗ 不可用");
        }
        line.append("\n");
        assert(kinds(all@)[i as int] == all@[i as int]@);
        assert(line@ =~= availability_line(known_terminals()[i as int], host@));
        r.append(line.as_str());
        assert(r@ =~= head + (availability_lines(known_terminals(), host@, i as nat)
            + availability_line(known_terminals()[i as int], host@)));
        i += 1;
    }
    r.append("\n--- 平台终端候选列表 ---\n");
    let candidates = launcher.get_platform_terminal_candidates(host.platform);
    let ghost list = platform_candidates(host.platform);
    let ghost head2 = r@;
    let mut k: usize = 0;
    assert(r@ =~= head2 + candidate_lines(list, host@, 0));
    assert(kinds(candidates@).len() == candidates@.len());
    while k < candidates.len()
        invariant
            k <= candidates.len(),
            candidates@.len() == list.len(),
            kinds(candidates@) == list,
            r@ == head2 + candidate_lines(list, host@, k as nat),
        decreases candidates.len() - k,
    {
        let available = launcher.is_terminal_available(&candidates[k], host);
        let mut line = String::new();
        push_decimal(&mut line, (k + 1) as u64);
        line.append(". ");
        line.append(candidates[k].name().as_str());
        line.append(": ");
        if available {
            line.append("✓");
        } else {
            line.append("✗");
        }
        line.append("\n");
        assert(kinds(candidates@)[k as int] == candidates@[k as int]@);
        assert(line@ =~= candidate_line(k as int, list[k as int], host@));
        r.append(line.as_str());
        assert(r@ =~= head2 + (candidate_lines(list, host@, k as nat) + candidate_line(
            k as int,
            list[k as int],
            host@,
        )));
        k += 1;
    }
    r.append("\n--- 检测结果 ---\n");
    match launcher.detect_best_terminal(host) {
        Ok(t) => {
            r.append("推荐终端: ");
            r.append(t.name().as_str());
            r.append("\n");
        },
        Err(e) => {
            r.append("检测失败: ");
            r.append(e.to_string().as_str());
            r.append("\n");
        },
    }
    r.append("=== 诊断报告结束 ===\n");
    proof {
        let shown = detection_line(host@);
        assert(r@ =~= head2 + candidate_lines(list, host@, list.len()) + "\n--- 检测结果 ---\n"@
            + shown + "=== 诊断报告结束 ===\n"@);
    }
    r
}


/// The commands whose presence the known terminals go by, in order.
pub open spec fn known_commands() -> Seq<Seq<char>> {
    seq![
        "osascript"@,
        "alacritty"@,
        "gnome-terminal"@,
        "konsole"@,
        "xterm"@,
        "powershell"@,
        "pwsh"@,
        "wt"@,
    ]
}

/// The application bundles whose presence the known terminals go by.
pub open spec fn known_paths() -> Seq<Seq<char>> {
    seq![
        "/Applications/Utilities/Terminal.app"@,
        "/System/Applications/Utilities/Terminal.app"@,
        "/Applications/iTerm.app"@,
        "/Applications/iTerm2.app"@,
    ]
}

/// The commands to probe before a launch: those of the known terminals, and
/// the command of the preferred terminal where that is a custom one.
pub open spec fn commands_to_probe(preferred: Option<TerminalKind>) -> Seq<Seq<char>> {
    match preferred {
        Some(TerminalKind::Custom(command)) => known_commands().push(command),
        _ => known_commands(),
    }
}

impl TerminalLauncher {
    /// The commands to probe on the host before a launch.
    pub fn commands_to_probe(&self) -> (r: Vec<String>)
        ensures
            views(r@) == commands_to_probe(self.preferred()),
    {
        let mut r = vec![
            "osascript".to_string(),
            "alacritty".to_string(),
            "gnome-terminal".to_string(),
            "konsole".to_string(),
            "xterm".to_string(),
            "powershell".to_string(),
            "pwsh".to_string(),
            "wt".to_string(),
        ];
        assert(views(r@) =~= known_commands());
        match &self.config.preferred_terminal {
            Some(TerminalType::Custom(command)) => {
                r.push(command.clone());
                assert(views(r@) =~= known_commands().push(command@));
            },
            _ => {},
        }
        r
    }

    /// The paths to look for on the host before a launch.
    pub fn paths_to_probe(&self) -> (r: Vec<String>)
        ensures
            views(r@) == known_paths(),
    {
        let r = vec![
            "/Applications/Utilities/Terminal.app".to_string(),
            "/System/Applications/Utilities/Terminal.app".to_string(),
            "/Applications/iTerm.app".to_string(),
            "/Applications/iTerm2.app".to_string(),
        ];
        assert(views(r@) =~= known_paths());
        r
    }
}

/// What the probes cover: whether a terminal that detection may try can be
/// used depends on the host's platform, its variables, and the commands and
/// paths that are probed, and on nothing else. Two hosts that agree on these
/// agree on every such terminal.
pub proof fn lemma_probes_suffice(
    preferred: Option<TerminalKind>,
    first: HostView,
    second: HostView,
    terminal: TerminalKind,
)
    requires
        first.platform == second.platform,
        first.desktop == second.desktop,
        first.session == second.session,
        first.display is Some == second.display is Some,
        forall|i: int|
            0 <= i < commands_to_probe(preferred).len() ==> has_command(
                first,
                #[trigger] commands_to_probe(preferred)[i],
            ) == has_command(second, commands_to_probe(preferred)[i]),
        forall|i: int|
            0 <= i < known_paths().len() ==> has_path(first, #[trigger] known_paths()[i])
                == has_path(second, known_paths()[i]),
        !(terminal is Custom) || preferred == Some(terminal),
    ensures
        terminal_available(terminal, first) == terminal_available(terminal, second),
{
    let commands = commands_to_probe(preferred);
    let known = known_commands();
    assert(known[0] == "osascript"@ && known[1] == "alacritty"@ && known[2] == "gnome-terminal"@
        && known[3] == "konsole"@ && known[4] == "xterm"@ && known[5] == "powershell"@ && known[6]
        == "pwsh"@ && known[7] == "wt"@);
    assert forall|i: int| 0 <= i < 8 implies has_command(first, #[trigger] known[i])
        == has_command(second, known[i]) by {
        assert(commands[i] == known[i]);
    }
    assert(has_command(first, known[0]) == has_command(second, known[0]));
    assert(has_command(first, known[1]) == has_command(second, known[1]));
    assert(has_command(first, known[2]) == has_command(second, known[2]));
    assert(has_command(first, known[3]) == has_command(second, known[3]));
    assert(has_command(first, known[4]) == has_command(second, known[4]));
    assert(has_command(first, known[5]) == has_command(second, known[5]));
    assert(has_command(first, known[6]) == has_command(second, known[6]));
    assert(has_command(first, known[7]) == has_command(second, known[7]));
    let paths = known_paths();
    assert(has_path(first, paths[0]) == has_path(second, paths[0]));
    assert(has_path(first, paths[1]) == has_path(second, paths[1]));
    assert(has_path(first, paths[2]) == has_path(second, paths[2]));
    assert(has_path(first, paths[3]) == has_path(second, paths[3]));
    match terminal {
        TerminalKind::Custom(command) => {
            assert(commands[8] == command);
            assert(has_command(first, commands[8]) == has_command(second, commands[8]));
        },
        _ => {},
    }
}


/// The title that `start` is given stands between two double quotes and
/// holds neither a double quote nor a line break: nothing in it ends the
/// title early.
pub proof fn lemma_start_title_closed(title: Seq<char>)
    ensures
        start_title(title).len() == title.len() + 2,
        start_title(title)[0] == '"',
        start_title(title)[title.len() as int + 1] == '"',
        forall|i: int|
            1 <= i <= title.len() ==> {
                let c = #[trigger] start_title(title)[i];
                c != '"' && c != '\n' && c != '\r' && (c == title[i - 1] || title[i - 1] == '"'
                    || title[i - 1] == '\n' || title[i - 1] == '\r')
            },
{
    reveal_strlit("\"");
    let quote = "\""@;
    assert(quote.len() == 1 && quote[0] == '"');
    let inner = Seq::new(title.len(), |i: int| start_title_char(title[i]));
    let whole = start_title(title);
    assert(whole =~= quote + inner + quote);
    assert forall|i: int| 1 <= i <= title.len() implies {
        let c = #[trigger] whole[i];
        c != '"' && c != '\n' && c != '\r' && (c == title[i - 1] || title[i - 1] == '"' || title[i
            - 1] == '\n' || title[i - 1] == '\r')
    } by {
        assert(whole[i] == inner[i - 1]);
    }
}

/// Where the invocation of a terminal holds the window's title, the title is
/// one literal, whatever characters it has: an argument of its own for the
/// terminals that take it so; between the quotes of a script, escaped text
/// that the script reads back as the title; in a `cmd` command line, escaped
/// text that `cmd` reads as the title with a space for each line break. The
/// command line, where it stands between the quotes of a script, is read
/// back as it is.
pub proof fn lemma_title_is_literal(
    terminal: TerminalKind,
    command: Seq<char>,
    args: Seq<Seq<char>>,
    title: Seq<char>,
    shell: Seq<char>,
)
    ensures
        ({
            let built = terminal_command(terminal, command, args, title, shell).1;
            let line = line_for(terminal, command, args);
            match terminal {
                TerminalKind::TerminalApp => built[1] == TERMINAL_APP_OPEN@ + applescript_escaped(
                    line,
                ) + TERMINAL_APP_TITLE@ + applescript_escaped(title) + TERMINAL_APP_CLOSE@
                    && applescript_read(applescript_escaped(title)) == Some(title)
                    && applescript_read(applescript_escaped(line)) == Some(line),
                TerminalKind::ITerm2 => built[1] == ITERM_OPEN@ + applescript_escaped(line)
                    + ITERM_TITLE@ + applescript_escaped(title) + ITERM_CLOSE@ && applescript_read(
                    applescript_escaped(title),
                ) == Some(title) && applescript_read(applescript_escaped(line)) == Some(line),
                TerminalKind::Alacritty => built[1] == title,
                TerminalKind::GnomeTerminal => built[1] == title,
                TerminalKind::Xterm => built[1] == title,
                TerminalKind::Konsole => built[2] == "tabtitle="@ + title,
                TerminalKind::WindowsTerminal => built[2] == title && built[6] == "title "@
                    + cmd_escaped(title) + " && "@ + line && cmd_read(cmd_escaped(title)) == Some(
                    cmd_flattened(title),
                ),
                TerminalKind::Cmd => built[2] == start_title(title) && built[5] == "title "@
                    + cmd_escaped(title) + " && "@ + line && cmd_read(cmd_escaped(title)) == Some(
                    cmd_flattened(title),
                ),
                TerminalKind::PowerShell => built[2] == powershell_start(line, title)
                    && powershell_read(powershell_escaped(powershell_program(line, title)))
                    == Some(powershell_program(line, title)) && powershell_literal_read(
                    powershell_literal_escaped(title),
                ) == Some(title),
                TerminalKind::Custom(_) => built == seq![line],
            }
        }),
{
    let line = line_for(terminal, command, args);
    lemma_applescript_round_trip(title);
    lemma_applescript_round_trip(line);
    lemma_cmd_round_trip(title);
    lemma_powershell_round_trip(powershell_program(line, title));
    lemma_powershell_literal_round_trip(title);
}


/// In the command line that is handed to a POSIX shell, each word is read
/// back as the word that was given, whatever characters it has, and so is the
/// shell that keeps the window open.
pub proof fn lemma_words_are_literal(
    command: Seq<char>,
    args: Seq<Seq<char>>,
    shell: Seq<char>,
)
    ensures
        shell_words(command, args).len() == args.len() + 1,
        shell_read(shell_words(command, args)[0], false) == Some(command),
        forall|i: int|
            0 <= i < args.len() ==> shell_read(
                #[trigger] shell_words(command, args)[i + 1],
                false,
            ) == Some(args[i]),
        shell_read(shell_quoted(shell), false) == Some(shell),
{
    lemma_shell_round_trip(command);
    lemma_shell_round_trip(shell);
    assert forall|i: int| 0 <= i < args.len() implies shell_read(
        #[trigger] shell_words(command, args)[i + 1],
        false,
    ) == Some(args[i]) by {
        lemma_shell_round_trip(args[i]);
    }
}

/// In the command that is handed to PowerShell, each word is one
/// single-quoted string, read back as the word that was given, whatever
/// characters it has.
pub proof fn lemma_powershell_words_are_literal(command: Seq<char>, args: Seq<Seq<char>>)
    ensures
        powershell_words(command, args).len() == args.len() + 1,
        powershell_word_read(powershell_words(command, args)[0]) == Some(command),
        forall|i: int|
            0 <= i < args.len() ==> powershell_word_read(
                #[trigger] powershell_words(command, args)[i + 1],
            ) == Some(args[i]),
{
    lemma_powershell_word_round_trip(command);
    assert forall|i: int| 0 <= i < args.len() implies powershell_word_read(
        #[trigger] powershell_words(command, args)[i + 1],
    ) == Some(args[i]) by {
        lemma_powershell_word_round_trip(args[i]);
    }
}

/// In the command line that is handed to `cmd`, no word holds an operator of
/// `cmd`, and the program that is started reads each as one argument: the
/// word that was given, whatever characters it has, with a space for each
/// line break.
pub proof fn lemma_cmd_words_are_literal(command: Seq<char>, args: Seq<Seq<char>>)
    ensures
        cmd_words(command, args).len() == args.len() + 1,
        cmd_word_read(cmd_words(command, args)[0]) == Some(cmd_flattened(command)),
        forall|i: int|
            0 <= i < args.len() ==> cmd_word_read(#[trigger] cmd_words(command, args)[i + 1])
                == Some(cmd_flattened(args[i])),
{
    lemma_cmd_word_round_trip(command);
    assert forall|i: int| 0 <= i < args.len() implies cmd_word_read(
        #[trigger] cmd_words(command, args)[i + 1],
    ) == Some(cmd_flattened(args[i])) by {
        lemma_cmd_word_round_trip(args[i]);
    }
}

} // verus!
