//! How the program logs: at which level, to where, and in which form.

use crate::colors::RESET;
use crate::text::{contains, str_contains, str_eq, to_chars, views};
use vstd::prelude::*;

verus! {

/// How much is logged.
#[derive(Debug, Clone, Copy, PartialEq, Eq, Structural)]
pub enum LevelFilter {
    Off,
    Error,
    Warn,
    Info,
    Debug,
    Trace,
}

/// How grave a message is.
#[derive(Debug, Clone, Copy, PartialEq, Eq, Structural)]
pub enum Level {
    Error,
    Warn,
    Info,
    Debug,
    Trace,
}

/// Where the log goes.
#[derive(Debug, Clone)]
pub enum LogTarget {
    Stderr,
    /// This file, appended to.
    File(String),
    /// Nowhere: nothing is logged.
    Disabled,
}

/// How the program logs.
#[derive(Debug, Clone)]
pub struct LogConfig {
    pub level: LevelFilter,
    /// The log file; `None` logs to no file.
    pub file_path: Option<String>,
    /// Whether the program serves MCP: then nothing goes to standard error.
    pub is_mcp_mode: bool,
    pub enable_colors: bool,
}

impl Default for LogConfig {
    fn default() -> (r: LogConfig)
        ensures
            r.level == LevelFilter::Info,
            r.file_path is None,
            !r.is_mcp_mode,
            r.enable_colors,
    {
        LogConfig {
            level: LevelFilter::Info,
            file_path: None,
            is_mcp_mode: false,
            enable_colors: true,
        }
    }
}

/// The letter in lower case, for the letters of the Latin alphabet.
pub open spec fn ascii_lower(c: char) -> char {
    if 'A' <= c && c <= 'Z' {
        ((c as u8) + 32) as char
    } else {
        c
    }
}

/// The two texts are the same but for the case of their Latin letters.
pub open spec fn same_ignoring_case(a: Seq<char>, b: Seq<char>) -> bool {
    a.len() == b.len() && forall|i: int|
        0 <= i < a.len() ==> ascii_lower(#[trigger] a[i]) == ascii_lower(b[i])
}

fn lower(c: char) -> (r: char)
    ensures
        r == ascii_lower(c),
{
    if 'A' <= c && c <= 'Z' {
        ((c as u8) + 32) as char
    } else {
        c
    }
}

/// `str::eq_ignore_ascii_case`.
pub fn eq_ignore_ascii_case(a: &str, b: &str) -> (r: bool)
    ensures
        r == same_ignoring_case(a@, b@),
{
    let x = to_chars(a);
    let y = to_chars(b);
    if x.len() != y.len() {
        return false;
    }
    let mut i: usize = 0;
    while i < x.len()
        invariant
            i <= x.len(),
            x.len() == y.len(),
            x@ == a@,
            y@ == b@,
            forall|k: int| 0 <= k < i ==> ascii_lower(#[trigger] a@[k]) == ascii_lower(b@[k]),
        decreases x.len() - i,
    {
        if lower(x[i]) != lower(y[i]) {
            assert(ascii_lower(a@[i as int]) != ascii_lower(b@[i as int]));
            return false;
        }
        i += 1;
    }
    true
}

/// The level that a name stands for, whatever the case of its letters.
pub open spec fn level_named(name: Seq<char>) -> Option<LevelFilter> {
    if same_ignoring_case(name, "off"@) {
        Some(LevelFilter::Off)
    } else if same_ignoring_case(name, "error"@) {
        Some(LevelFilter::Error)
    } else if same_ignoring_case(name, "warn"@) {
        Some(LevelFilter::Warn)
    } else if same_ignoring_case(name, "info"@) {
        Some(LevelFilter::Info)
    } else if same_ignoring_case(name, "debug"@) {
        Some(LevelFilter::Debug)
    } else if same_ignoring_case(name, "trace"@) {
        Some(LevelFilter::Trace)
    } else {
        None
    }
}

/// Reads the name of a level.
pub fn parse_level(name: &str) -> (r: Option<LevelFilter>)
    ensures
        r == level_named(name@),
{
    if eq_ignore_ascii_case(name, "off") {
        Some(LevelFilter::Off)
    } else if eq_ignore_ascii_case(name, "error") {
        Some(LevelFilter::Error)
    } else if eq_ignore_ascii_case(name, "warn") {
        Some(LevelFilter::Warn)
    } else if eq_ignore_ascii_case(name, "info") {
        Some(LevelFilter::Info)
    } else if eq_ignore_ascii_case(name, "debug") {
        Some(LevelFilter::Debug)
    } else if eq_ignore_ascii_case(name, "trace") {
        Some(LevelFilter::Trace)
    } else {
        None
    }
}

/// An argument that shows that the program serves MCP.
pub open spec fn marks_mcp(arg: Seq<char>) -> bool {
    arg == "--mcp-request"@ || contains(arg, "mcp_server"@)
}

/// One of the arguments shows that the program serves MCP.
pub open spec fn serves_mcp(args: Seq<Seq<char>>) -> bool {
    exists|i: int| 0 <= i < args.len() && marks_mcp(#[trigger] args[i])
}

/// The level of the variable `RUST_LOG`, or `fallback` where the variable is
/// not set or names no level.
pub open spec fn level_or(rust_log: Option<Seq<char>>, fallback: LevelFilter) -> LevelFilter {
    match rust_log {
        Some(name) => match level_named(name) {
            Some(level) => level,
            None => fallback,
        },
        None => fallback,
    }
}

/// What the environment says of logging.
#[derive(Debug, Clone)]
pub struct LogEnvironment {
    /// The arguments of the program.
    pub args: Vec<String>,
    /// Whether standard error is a terminal.
    pub on_terminal: bool,
    /// `RUST_LOG`.
    pub rust_log: Option<String>,
    /// `MCP_LOG_FILE`.
    pub mcp_log_file: Option<String>,
    /// Whether `NO_COLOR` is set.
    pub no_color: bool,
    /// The log file in the directory for temporary files.
    pub default_log_file: String,
}

fn level_from(rust_log: &Option<String>, fallback: LevelFilter) -> (r: LevelFilter)
    ensures
        r == level_or(
            match rust_log {
                Some(s) => Some(s@),
                None => None,
            },
            fallback,
        ),
{
    match rust_log {
        Some(name) => match parse_level(name.as_str()) {
            Some(level) => level,
            None => fallback,
        },
        None => fallback,
    }
}

/// How the program logs in the given environment. Serving MCP, it logs
/// warnings and worse to a file, without colours; else it logs what is worth
/// knowing to standard error, in colours on a terminal unless `NO_COLOR` is
/// set.
pub fn auto_init_logger(env: &LogEnvironment) -> (r: LogConfig)
    ensures
        r.is_mcp_mode == serves_mcp(views(env.args@)),
        r.is_mcp_mode ==> r.level == level_or(
            match env.rust_log {
                Some(s) => Some(s@),
                None => None,
            },
            LevelFilter::Warn,
        ) && r.file_path is Some && r.file_path->0@ == (match env.mcp_log_file {
            Some(f) => f@,
            None => env.default_log_file@,
        }) && !r.enable_colors,
        !r.is_mcp_mode ==> r.level == level_or(
            match env.rust_log {
                Some(s) => Some(s@),
                None => None,
            },
            LevelFilter::Info,
        ) && r.file_path is None && r.enable_colors == (env.on_terminal && !env.no_color),
{
    let mut is_mcp_mode = false;
    let mut i: usize = 0;
    while i < env.args.len()
        invariant
            i <= env.args.len(),
            is_mcp_mode == exists|k: int|
                0 <= k < i && marks_mcp(#[trigger] views(env.args@)[k]),
        decreases env.args.len() - i,
    {
        let arg = env.args[i].as_str();
        if str_eq(arg, "--mcp-request") || str_contains(arg, "mcp_server") {
            assert(marks_mcp(views(env.args@)[i as int]));
            is_mcp_mode = true;
        }
        i += 1;
    }
    if is_mcp_mode {
        let file = match &env.mcp_log_file {
            Some(f) => f.clone(),
            None => env.default_log_file.clone(),
        };
        LogConfig {
            level: level_from(&env.rust_log, LevelFilter::Warn),
            file_path: Some(file),
            is_mcp_mode: true,
            enable_colors: false,
        }
    } else {
        LogConfig {
            level: level_from(&env.rust_log, LevelFilter::Info),
            file_path: None,
            is_mcp_mode: false,
            enable_colors: env.on_terminal && !env.no_color,
        }
    }
}

/// Where the log goes and at which level, given whether the log file could
/// be opened. Serving MCP, the log goes to its file alone; where there is
/// none, nothing is logged.
pub fn init_logger(config: &LogConfig, file_opened: bool) -> (r: (LogTarget, LevelFilter))
    ensures
        !config.is_mcp_mode ==> r.0 is Stderr && r.1 == config.level,
        config.is_mcp_mode && config.file_path is Some && file_opened ==> r.0 is File
            && r.0->File_0@ == config.file_path->0@ && r.1 == config.level,
        config.is_mcp_mode && !(config.file_path is Some && file_opened) ==> r.0 is Disabled
            && r.1 == LevelFilter::Off,
{
    if config.is_mcp_mode {
        match &config.file_path {
            Some(path) => {
                if file_opened {
                    (LogTarget::File(path.clone()), config.level)
                } else {
                    (LogTarget::Disabled, LevelFilter::Off)
                }
            },
            None => (LogTarget::Disabled, LevelFilter::Off),
        }
    } else {
        (LogTarget::Stderr, config.level)
    }
}

/// The name of a level as it is logged.
pub open spec fn level_name(level: Level) -> Seq<char> {
    match level {
        Level::Error => "ERROR"@,
        Level::Warn => "WARN"@,
        Level::Info => "INFO"@,
        Level::Debug => "DEBUG"@,
        Level::Trace => "TRACE"@,
    }
}

/// The colour of a level.
pub open spec fn level_color(level: Level) -> Seq<char> {
    match level {
        Level::Error => crate::colors::RED@,
        Level::Warn => crate::colors::YELLOW@,
        Level::Info => crate::colors::GREEN@,
        Level::Debug => crate::colors::CYAN@,
        Level::Trace => crate::colors::MAGENTA@,
    }
}

/// A line of the log. Serving MCP, it carries the time and the module;
/// else the level and the message, the level in its colour where colours are
/// shown.
pub open spec fn log_line(
    is_mcp_mode: bool,
    enable_colors: bool,
    level: Level,
    module: Option<Seq<char>>,
    message: Seq<char>,
    timestamp: Seq<char>,
) -> Seq<char> {
    if is_mcp_mode {
        timestamp + " ["@ + level_name(level) + "] ["@ + (match module {
            Some(m) => m,
            None => "unknown"@,
        }) + "] "@ + message
    } else if enable_colors {
        level_color(level) + "["@ + level_name(level) + "]"@ + RESET@ + " "@ + message
    } else {
        "["@ + level_name(level) + "] "@ + message
    }
}

impl Level {
    /// The name of the level as it is logged.
    pub fn name(&self) -> (r: &'static str)
        ensures
            r@ == level_name(*self),
    {
        match self {
            Level::Error => "ERROR",
            Level::Warn => "WARN",
            Level::Info => "INFO",
            Level::Debug => "DEBUG",
            Level::Trace => "TRACE",
        }
    }

    /// The colour of the level.
    pub fn color(&self) -> (r: &'static str)
        ensures
            r@ == level_color(*self),
    {
        match self {
            Level::Error => crate::colors::RED,
            Level::Warn => crate::colors::YELLOW,
            Level::Info => crate::colors::GREEN,
            Level::Debug => crate::colors::CYAN,
            Level::Trace => crate::colors::MAGENTA,
        }
    }
}

impl LogConfig {
    /// The line that logs `message`.
    pub fn format(&self, level: Level, module: Option<&str>, message: &str, timestamp: &str) -> (r:
        String)
        ensures
            r@ == log_line(
                self.is_mcp_mode,
                self.enable_colors,
                level,
                match module {
                    Some(m) => Some(m@),
                    None => None,
                },
                message@,
                timestamp@,
            ),
    {
        if self.is_mcp_mode {
            let mut r = timestamp.to_string();
            r.append(" [");
            r.append(level.name());
            r.append("] [");
            match module {
                Some(m) => {
                    r.append(m);
                },
                None => {
                    r.append("unknown");
                },
            }
            r.append("] ");
            r.append(message);
            r
        } else if self.enable_colors {
            let mut r = level.color().to_string();
            r.append("[");
            r.append(level.name());
            r.append("]");
            r.append(RESET);
            r.append(" ");
            r.append(message);
            r
        } else {
            let mut r = "[".to_string();
            r.append(level.name());
            r.append("] ");
            r.append(message);
            r
        }
    }
}

} // verus!
