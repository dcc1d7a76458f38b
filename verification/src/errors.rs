//! The errors of the application, what each of them is reported as, and the
//! retry policy for operations that may fail for a while.

use crate::helpers::seconds_of;
use crate::text::{decimal, push_decimal, repeat, repeated, views};
use crate::types::{McpError, McpErrorView};
use core::time::Duration;
use vstd::prelude::*;

verus! {

/// What went wrong in the application.
#[derive(Debug, Clone)]
pub enum AppError {
    Config { message: String },
    FileOperation { message: String },
    Network { message: String },
    McpServer { message: String },
    UserInput { message: String },
    Permission { message: String },
    Dependency { message: String },
    Internal { message: String },
}

/// The kinds of [`AppError`].
#[derive(Debug, Clone, Copy, PartialEq, Eq, Structural)]
pub enum AppErrorKind {
    Config,
    FileOperation,
    Network,
    McpServer,
    UserInput,
    Permission,
    Dependency,
    Internal,
}

/// The view of an [`AppError`]: its kind and its message.
pub struct AppErrorView {
    pub kind: AppErrorKind,
    pub message: Seq<char>,
}

impl View for AppError {
    type V = AppErrorView;

    open spec fn view(&self) -> AppErrorView {
        match self {
            AppError::Config { message } => AppErrorView {
                kind: AppErrorKind::Config,
                message: message@,
            },
            AppError::FileOperation { message } => AppErrorView {
                kind: AppErrorKind::FileOperation,
                message: message@,
            },
            AppError::Network { message } => AppErrorView {
                kind: AppErrorKind::Network,
                message: message@,
            },
            AppError::McpServer { message } => AppErrorView {
                kind: AppErrorKind::McpServer,
                message: message@,
            },
            AppError::UserInput { message } => AppErrorView {
                kind: AppErrorKind::UserInput,
                message: message@,
            },
            AppError::Permission { message } => AppErrorView {
                kind: AppErrorKind::Permission,
                message: message@,
            },
            AppError::Dependency { message } => AppErrorView {
                kind: AppErrorKind::Dependency,
                message: message@,
            },
            AppError::Internal { message } => AppErrorView {
                kind: AppErrorKind::Internal,
                message: message@,
            },
        }
    }
}

/// What a kind of error is called where an error is shown.
pub open spec fn kind_title(kind: AppErrorKind) -> Seq<char> {
    match kind {
        AppErrorKind::Config => "配置错误"@,
        AppErrorKind::FileOperation => "文件操作错误"@,
        AppErrorKind::Network => "网络错误"@,
        AppErrorKind::McpServer => "MCP 服务器错误"@,
        AppErrorKind::UserInput => "用户输入错误"@,
        AppErrorKind::Permission => "权限错误"@,
        AppErrorKind::Dependency => "依赖错误"@,
        AppErrorKind::Internal => "内部错误"@,
    }
}

/// What a kind of error is called where an error is reported to the user.
pub open spec fn kind_headline(kind: AppErrorKind) -> Seq<char> {
    match kind {
        AppErrorKind::Config => "配置错误"@,
        AppErrorKind::FileOperation => "文件操作失败"@,
        AppErrorKind::Network => "网络连接失败"@,
        AppErrorKind::McpServer => "MCP 服务器错误"@,
        AppErrorKind::UserInput => "输入错误"@,
        AppErrorKind::Permission => "权限不足"@,
        AppErrorKind::Dependency => "依赖错误"@,
        AppErrorKind::Internal => "内部错误"@,
    }
}

/// The exit code of a kind of error.
pub open spec fn kind_exit_code(kind: AppErrorKind) -> i32 {
    match kind {
        AppErrorKind::Config => 1,
        AppErrorKind::FileOperation => 2,
        AppErrorKind::Network => 3,
        AppErrorKind::McpServer => 4,
        AppErrorKind::UserInput => 5,
        AppErrorKind::Permission => 6,
        AppErrorKind::Dependency => 7,
        AppErrorKind::Internal => 8,
    }
}

/// The exit code of an error that is none of the application's own.
pub const GENERIC_EXIT_CODE: i32 = 99;

/// The line that opens the advice for a kind of error.
pub open spec fn kind_advice_title(kind: AppErrorKind) -> Seq<char> {
    match kind {
        AppErrorKind::UserInput => "请检查输入格式并重试"@,
        AppErrorKind::Internal => "这是一个内部错误，请:"@,
        _ => "尝试以下解决方案:"@,
    }
}

/// The advice for a kind of error, line by line.
pub open spec fn kind_advice(kind: AppErrorKind) -> Seq<Seq<char>> {
    match kind {
        AppErrorKind::Config => seq![
            "  • 运行 cunzhi init 重新初始化配置"@,
            "  • 检查配置文件格式是否正确"@,
            "  • 运行 cunzhi config show 查看当前配置"@,
        ],
        AppErrorKind::FileOperation => seq![
            "  • 检查文件路径是否正确"@,
            "  • 确保有足够的磁盘空间"@,
            "  • 检查文件权限设置"@,
        ],
        AppErrorKind::Network => seq![
            "  • 检查网络连接"@,
            "  • 确认防火墙设置"@,
            "  • 稍后重试"@,
        ],
        AppErrorKind::McpServer => seq![
            "  • 运行 cunzhi server status 检查服务器状态"@,
            "  • 运行 cunzhi server start 重启服务器"@,
            "  • 检查 MCP 工具配置"@,
        ],
        AppErrorKind::UserInput => seq!["  • 运行 cunzhi --help 查看帮助"@],
        AppErrorKind::Permission => seq![
            "  • 检查文件和目录权限"@,
            "  • 确保有足够的访问权限"@,
            "  • 考虑使用管理员权限运行"@,
        ],
        AppErrorKind::Dependency => seq![
            "  • 检查系统依赖是否安装"@,
            "  • 更新到最新版本"@,
            "  • 查看安装文档"@,
        ],
        AppErrorKind::Internal => seq![
            "  • 报告此问题到项目仓库"@,
            "  • 包含错误信息和操作步骤"@,
            "  • 尝试重启应用程序"@,
        ],
    }
}

impl AppErrorView {
    /// The text that the error shows as.
    pub open spec fn text(self) -> Seq<char> {
        kind_title(self.kind) + ": "@ + self.message
    }

    /// The line that reports the error to the user.
    pub open spec fn headline(self) -> Seq<char> {
        kind_headline(self.kind) + ": "@ + self.message
    }
}

impl AppError {
    /// An error of the configuration.
    pub fn config(msg: &str) -> (r: AppError)
        ensures
            r@ == (AppErrorView { kind: AppErrorKind::Config, message: msg@ }),
    {
        AppError::Config { message: msg.to_string() }
    }

    /// An error of a file operation.
    pub fn file_operation(msg: &str) -> (r: AppError)
        ensures
            r@ == (AppErrorView { kind: AppErrorKind::FileOperation, message: msg@ }),
    {
        AppError::FileOperation { message: msg.to_string() }
    }

    /// An error of the network.
    pub fn network(msg: &str) -> (r: AppError)
        ensures
            r@ == (AppErrorView { kind: AppErrorKind::Network, message: msg@ }),
    {
        AppError::Network { message: msg.to_string() }
    }

    /// An error of the MCP server.
    pub fn mcp_server(msg: &str) -> (r: AppError)
        ensures
            r@ == (AppErrorView { kind: AppErrorKind::McpServer, message: msg@ }),
    {
        AppError::McpServer { message: msg.to_string() }
    }

    /// An error of what the user typed.
    pub fn user_input(msg: &str) -> (r: AppError)
        ensures
            r@ == (AppErrorView { kind: AppErrorKind::UserInput, message: msg@ }),
    {
        AppError::UserInput { message: msg.to_string() }
    }

    /// An error of permissions.
    pub fn permission(msg: &str) -> (r: AppError)
        ensures
            r@ == (AppErrorView { kind: AppErrorKind::Permission, message: msg@ }),
    {
        AppError::Permission { message: msg.to_string() }
    }

    /// An error of a dependency.
    pub fn dependency(msg: &str) -> (r: AppError)
        ensures
            r@ == (AppErrorView { kind: AppErrorKind::Dependency, message: msg@ }),
    {
        AppError::Dependency { message: msg.to_string() }
    }

    /// An error inside the program.
    pub fn internal(msg: &str) -> (r: AppError)
        ensures
            r@ == (AppErrorView { kind: AppErrorKind::Internal, message: msg@ }),
    {
        AppError::Internal { message: msg.to_string() }
    }

    /// An error of the given kind.
    pub fn of_kind(kind: AppErrorKind, msg: &str) -> (r: AppError)
        ensures
            r@ == (AppErrorView { kind, message: msg@ }),
    {
        match kind {
            AppErrorKind::Config => AppError::config(msg),
            AppErrorKind::FileOperation => AppError::file_operation(msg),
            AppErrorKind::Network => AppError::network(msg),
            AppErrorKind::McpServer => AppError::mcp_server(msg),
            AppErrorKind::UserInput => AppError::user_input(msg),
            AppErrorKind::Permission => AppError::permission(msg),
            AppErrorKind::Dependency => AppError::dependency(msg),
            AppErrorKind::Internal => AppError::internal(msg),
        }
    }

    /// The kind of the error.
    pub fn kind(&self) -> (r: AppErrorKind)
        ensures
            r == self@.kind,
    {
        match self {
            AppError::Config { .. } => AppErrorKind::Config,
            AppError::FileOperation { .. } => AppErrorKind::FileOperation,
            AppError::Network { .. } => AppErrorKind::Network,
            AppError::McpServer { .. } => AppErrorKind::McpServer,
            AppError::UserInput { .. } => AppErrorKind::UserInput,
            AppError::Permission { .. } => AppErrorKind::Permission,
            AppError::Dependency { .. } => AppErrorKind::Dependency,
            AppError::Internal { .. } => AppErrorKind::Internal,
        }
    }

    /// The message of the error.
    pub fn message(&self) -> (r: &String)
        ensures
            r@ == self@.message,
    {
        match self {
            AppError::Config { message } => message,
            AppError::FileOperation { message } => message,
            AppError::Network { message } => message,
            AppError::McpServer { message } => message,
            AppError::UserInput { message } => message,
            AppError::Permission { message } => message,
            AppError::Dependency { message } => message,
            AppError::Internal { message } => message,
        }
    }

    /// The text that the error shows as: what its kind is called, a colon, its
    /// message.
    pub fn to_string(&self) -> (r: String)
        ensures
            r@ == self@.text(),
    {
        let mut r = match self.kind() {
            AppErrorKind::Config => "配置错误".to_string(),
            AppErrorKind::FileOperation => "文件操作错误".to_string(),
            AppErrorKind::Network => "网络错误".to_string(),
            AppErrorKind::McpServer => "MCP 服务器错误".to_string(),
            AppErrorKind::UserInput => "用户输入错误".to_string(),
            AppErrorKind::Permission => "权限错误".to_string(),
            AppErrorKind::Dependency => "依赖错误".to_string(),
            AppErrorKind::Internal => "内部错误".to_string(),
        };
        r.append(": ");
        r.append(self.message().as_str());
        r
    }
}

/// What is shown for an error, and the code that the process exits with.
#[derive(Debug, Clone)]
pub struct ErrorReport {
    pub exit_code: i32,
    /// The line that reports the error.
    pub headline: String,
    /// The line that opens the advice, if there is any.
    pub advice_title: Option<String>,
    /// The lines that follow the headline.
    pub lines: Vec<String>,
}

/// Turns errors into what the user is shown.
#[derive(Debug, Clone, Copy, PartialEq, Eq, Structural)]
pub struct ErrorHandler {
    pub verbose: bool,
}

/// The line that shows the cause at depth `level` of an error, from 1.
pub open spec fn cause_line(level: nat, cause: Seq<char>) -> Seq<char> {
    repeated("  "@, level) + "└─ "@ + cause
}

/// What follows the headline of an error that is none of the application's
/// own, where details are asked for: an empty line, a title, the causes.
pub open spec fn cause_lines(causes: Seq<Seq<char>>) -> Seq<Seq<char>> {
    seq![Seq::<char>::empty(), "详细错误信息:"@] + Seq::new(
        causes.len(),
        |i: int| cause_line((i + 1) as nat, causes[i]),
    )
}

fn advice(kind: AppErrorKind) -> (r: Vec<String>)
    ensures
        views(r@) == kind_advice(kind),
{
    let r = match kind {
        AppErrorKind::Config => vec![
            "  • 运行 cunzhi init 重新初始化配置".to_string(),
            "  • 检查配置文件格式是否正确".to_string(),
            "  • 运行 cunzhi config show 查看当前配置".to_string(),
        ],
        AppErrorKind::FileOperation => vec![
            "  • 检查文件路径是否正确".to_string(),
            "  • 确保有足够的磁盘空间".to_string(),
            "  • 检查文件权限设置".to_string(),
        ],
        AppErrorKind::Network => vec![
            "  • 检查网络连接".to_string(),
            "  • 确认防火墙设置".to_string(),
            "  • 稍后重试".to_string(),
        ],
        AppErrorKind::McpServer => vec![
            "  • 运行 cunzhi server status 检查服务器状态".to_string(),
            "  • 运行 cunzhi server start 重启服务器".to_string(),
            "  • 检查 MCP 工具配置".to_string(),
        ],
        AppErrorKind::UserInput => vec!["  • 运行 cunzhi --help 查看帮助".to_string()],
        AppErrorKind::Permission => vec![
            "  • 检查文件和目录权限".to_string(),
            "  • 确保有足够的访问权限".to_string(),
            "  • 考虑使用管理员权限运行".to_string(),
        ],
        AppErrorKind::Dependency => vec![
            "  • 检查系统依赖是否安装".to_string(),
            "  • 更新到最新版本".to_string(),
            "  • 查看安装文档".to_string(),
        ],
        AppErrorKind::Internal => vec![
            "  • 报告此问题到项目仓库".to_string(),
            "  • 包含错误信息和操作步骤".to_string(),
            "  • 尝试重启应用程序".to_string(),
        ],
    };
    assert(views(r@) =~= kind_advice(kind));
    r
}

impl ErrorHandler {
    /// A handler that shows the causes of an error where `verbose` is set.
    pub fn new(verbose: bool) -> (r: ErrorHandler)
        ensures
            r.verbose == verbose,
    {
        ErrorHandler { verbose }
    }

    /// What is shown for an error of the application: its headline, the
    /// advice for its kind, and the exit code of its kind.
    pub fn handle_app_error(&self, error: &AppError) -> (r: ErrorReport)
        ensures
            r.exit_code == kind_exit_code(error@.kind),
            r.headline@ == error@.headline(),
            r.advice_title is Some,
            r.advice_title->0@ == kind_advice_title(error@.kind),
            views(r.lines@) == kind_advice(error@.kind),
    {
        let kind = error.kind();
        let (exit_code, mut headline) = match kind {
            AppErrorKind::Config => (1, "配置错误".to_string()),
            AppErrorKind::FileOperation => (2, "文件操作失败".to_string()),
            AppErrorKind::Network => (3, "网络连接失败".to_string()),
            AppErrorKind::McpServer => (4, "MCP 服务器错误".to_string()),
            AppErrorKind::UserInput => (5, "输入错误".to_string()),
            AppErrorKind::Permission => (6, "权限不足".to_string()),
            AppErrorKind::Dependency => (7, "依赖错误".to_string()),
            AppErrorKind::Internal => (8, "内部错误".to_string()),
        };
        headline.append(": ");
        headline.append(error.message().as_str());
        let advice_title = match kind {
            AppErrorKind::UserInput => "请检查输入格式并重试".to_string(),
            AppErrorKind::Internal => "这是一个内部错误，请:".to_string(),
            _ => "尝试以下解决方案:".to_string(),
        };
        ErrorReport { exit_code, headline, advice_title: Some(advice_title), lines: advice(kind) }
    }

    /// What is shown for an error that is none of the application's own: its
    /// message, its causes where details are asked for, and the exit code 99.
    pub fn handle_generic_error(&self, message: &str, causes: &Vec<String>) -> (r: ErrorReport)
        ensures
            r.exit_code == GENERIC_EXIT_CODE,
            r.headline@ == "发生错误: "@ + message@,
            r.advice_title is None,
            views(r.lines@) == if self.verbose {
                cause_lines(views(causes@))
            } else {
                Seq::<Seq<char>>::empty()
            },
    {
        let mut headline = "发生错误: ".to_string();
        headline.append(message);
        let mut lines: Vec<String> = Vec::new();
        if self.verbose {
            lines.push(String::new());
            lines.push("详细错误信息:".to_string());
            let mut i: usize = 0;
            while i < causes.len()
                invariant
                    i <= causes.len(),
                    lines@.len() == i + 2,
                    lines@[0]@ == Seq::<char>::empty(),
                    lines@[1]@ == "详细错误信息:"@,
                    forall|k: int|
                        0 <= k < i ==> (#[trigger] lines@[k + 2])@ == cause_line(
                            (k + 1) as nat,
                            causes@[k]@,
                        ),
                decreases causes.len() - i,
            {
                let mut line = repeat("  ", i + 1);
                line.append("└─ ");
                line.append(causes[i].as_str());
                lines.push(line);
                i += 1;
            }
            proof {
                let target = cause_lines(views(causes@));
                assert(target.len() == lines@.len());
                assert forall|k: int| 0 <= k < target.len() implies views(lines@)[k]
                    == target[k] by {
                    if k >= 2 {
                        let j = k - 2;
                        assert(lines@[j + 2]@ == cause_line((j + 1) as nat, causes@[j]@));
                    }
                }
                assert(views(lines@) =~= target);
            }
        } else {
            assert(views(lines@) =~= Seq::<Seq<char>>::empty());
        }
        ErrorReport { exit_code: GENERIC_EXIT_CODE, headline, advice_title: None, lines }
    }

    /// What is shown for an error: for one of the application's own, what
    /// [`Self::handle_app_error`] gives; for any other, what
    /// [`Self::handle_generic_error`] gives for its message and causes.
    pub fn handle_error(&self, error: Result<&AppError, (&str, &Vec<String>)>) -> (r: ErrorReport)
        ensures
            match error {
                Ok(own) => r.exit_code == kind_exit_code(own@.kind) && r.headline@
                    == own@.headline(),
                Err(other) => r.exit_code == GENERIC_EXIT_CODE && r.headline@ == "发生错误: "@
                    + other.0@,
            },
    {
        match error {
            Ok(own) => self.handle_app_error(own),
            Err(other) => self.handle_generic_error(other.0, other.1),
        }
    }
}

/// Extensions of a result that fails with a message.
pub trait ResultExt<T> {
    /// The result with `context` put before the message of a failure.
    fn with_user_context(self, context: &str) -> Result<T, String>;

    /// The result with a failure made an error of the application.
    fn to_app_error(self, kind: AppErrorKind) -> Result<T, AppError>;
}

impl<T> ResultExt<T> for Result<T, String> {
    fn with_user_context(self, context: &str) -> (r: Result<T, String>)
        ensures
            match self {
                Ok(v) => r == Ok::<T, String>(v),
                Err(e) => r is Err && r->Err_0@ == context@ + ": "@ + e@,
            },
    {
        match self {
            Ok(v) => Ok(v),
            Err(e) => {
                let mut m = context.to_string();
                m.append(": ");
                m.append(e.as_str());
                Err(m)
            },
        }
    }

    fn to_app_error(self, kind: AppErrorKind) -> (r: Result<T, AppError>)
        ensures
            match self {
                Ok(v) => r == Ok::<T, AppError>(v),
                Err(e) => r is Err && r->Err_0@ == (AppErrorView { kind, message: e@ }),
            },
    {
        match self {
            Ok(v) => Ok(v),
            Err(e) => Err(AppError::of_kind(kind, e.as_str())),
        }
    }
}

/// What goes wrong in a tool.
#[derive(Debug, Clone)]
pub enum McpToolError {
    ProjectPath(String),
    PopupCreation(String),
    ResponseParsing(String),
    Configuration(String),
    Internal(String),
}

impl McpToolError {
    /// The text that the error shows as.
    pub fn to_string(&self) -> (r: String)
        ensures
            r@ == match self {
                McpToolError::ProjectPath(m) => "项目路径错误: "@ + m@,
                McpToolError::PopupCreation(m) => "弹窗创建失败: "@ + m@,
                McpToolError::ResponseParsing(m) => "响应解析失败: "@ + m@,
                McpToolError::Configuration(m) => "配置错误: "@ + m@,
                McpToolError::Internal(m) => "内部错误: "@ + m@,
            },
    {
        let (mut r, m) = match self {
            McpToolError::ProjectPath(m) => ("项目路径错误: ".to_string(), m),
            McpToolError::PopupCreation(m) => ("弹窗创建失败: ".to_string(), m),
            McpToolError::ResponseParsing(m) => ("响应解析失败: ".to_string(), m),
            McpToolError::Configuration(m) => ("配置错误: ".to_string(), m),
            McpToolError::Internal(m) => ("内部错误: ".to_string(), m),
        };
        r.append(m.as_str());
        r
    }
}

/// The error of a project path that cannot be used.
pub fn project_path_error(message: String) -> (r: McpError)
    ensures
        r@ == McpErrorView::InvalidParams("项目路径错误: "@ + message@),
{
    let mut m = "项目路径错误: ".to_string();
    m.append(message.as_str());
    McpError::invalid_params(m, None)
}

/// The error of a popup that could not be made.
pub fn popup_error(message: String) -> (r: McpError)
    ensures
        r@ == McpErrorView::InternalError("弹窗创建失败: "@ + message@),
{
    let mut m = "弹窗创建失败: ".to_string();
    m.append(message.as_str());
    McpError::internal_error(m, None)
}

/// The error of an answer that could not be read.
pub fn response_parsing_error(message: String) -> (r: McpError)
    ensures
        r@ == McpErrorView::InternalError("响应解析失败: "@ + message@),
{
    let mut m = "响应解析失败: ".to_string();
    m.append(message.as_str());
    McpError::internal_error(m, None)
}

/// What is known of a path that is to be a project directory.
#[derive(Debug, Clone, Copy, PartialEq, Eq, Structural)]
pub struct PathFacts {
    pub exists: bool,
    pub is_dir: bool,
    pub readonly: bool,
}

/// Whether `path` can be a project: it must be there, and be a directory.
pub fn validate_project_path(path: &str, facts: PathFacts) -> (r: Result<(), String>)
    ensures
        r is Ok <==> facts.exists && facts.is_dir,
        !facts.exists ==> r is Err && r->Err_0@ == "项目路径不存在: "@ + path@,
        facts.exists && !facts.is_dir ==> r is Err && r->Err_0@ == "项目路径不是目录: "@ + path@,
{
    if !facts.exists {
        let mut m = "项目路径不存在: ".to_string();
        m.append(path);
        return Err(m);
    }
    if !facts.is_dir {
        let mut m = "项目路径不是目录: ".to_string();
        m.append(path);
        return Err(m);
    }
    Ok(())
}

/// How often, and after which pause, an operation is tried again.
#[derive(Debug, Clone, Copy)]
pub struct RecoveryStrategy {
    pub max_retries: u32,
    pub retry_delay: Duration,
}

/// What follows a failed attempt.
#[derive(Debug)]
pub enum RetryStep {
    /// The failure stands.
    GiveUp,
    /// The operation is tried again after the pause; the warning is shown.
    RetryAfter { delay: Duration, warning: String },
}

/// The warning before the retry that follows the failure of this number.
pub open spec fn retry_warning(delay_seconds: u64, attempts: u32, max_retries: u32) -> Seq<char> {
    "操作失败，"@ + decimal(delay_seconds as nat) + " 秒后重试 ("@ + decimal(attempts as nat) + "/"@
        + decimal(max_retries as nat) + ")"@
}

/// The warning before a retry after so many seconds, the failure of this
/// number having come.
pub fn retry_warning_line(delay_seconds: u64, attempts: u32, max_retries: u32) -> (r: String)
    ensures
        r@ == retry_warning(delay_seconds, attempts, max_retries),
{
    let mut warning = "操作失败，".to_string();
    push_decimal(&mut warning, delay_seconds);
    warning.append(" 秒后重试 (");
    push_decimal(&mut warning, attempts as u64);
    warning.append("/");
    push_decimal(&mut warning, max_retries as u64);
    warning.append(")");
    warning
}

impl RecoveryStrategy {
    /// A strategy of so many retries, each after the pause.
    pub fn new(max_retries: u32, retry_delay: Duration) -> (r: RecoveryStrategy)
        ensures
            r.max_retries == max_retries,
            r.retry_delay == retry_delay,
    {
        RecoveryStrategy { max_retries, retry_delay }
    }

    /// What follows the failure of an attempt, `failures` attempts having
    /// failed before it: the operation is tried again as long as no more than
    /// `max_retries` attempts have failed.
    pub fn execute_with_retry(&self, failures: u32) -> (r: RetryStep)
        ensures
            failures >= self.max_retries ==> r is GiveUp,
            failures < self.max_retries ==> r is RetryAfter && r->delay == self.retry_delay
                && r->warning@ == retry_warning(
                seconds_of(self.retry_delay),
                (failures + 1) as u32,
                self.max_retries,
            ),
    {
        if failures >= self.max_retries {
            return RetryStep::GiveUp;
        }
        let warning = retry_warning_line(
            self.retry_delay.as_secs(),
            failures + 1,
            self.max_retries,
        );
        RetryStep::RetryAfter { delay: self.retry_delay, warning }
    }
}

} // verus!
