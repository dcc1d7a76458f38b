use cunzhi_cli::chat::{
    chat_command, chat_prompt, generate_code_analysis_response, generate_general_response,
    generate_optimization_response, generate_qa_response, handle_user_input, ChatCommand,
};
use cunzhi_cli::cli::{Cli, CliRoute, Commands, ConfigAction, McpAction, ServerAction};
use cunzhi_cli::client::{merge_config, McpClientConfig};
use cunzhi_cli::display::{
    display_configuration_summary, print_boxed_message, read_threshold, render_simple_markdown,
    split_lines, LineStyle,
};
use cunzhi_cli::terminal::{TerminalLauncher, TerminalLauncherConfig, TerminalType};
use cunzhi_cli::colors;
use cunzhi_cli::errors::{
    popup_error, project_path_error, response_parsing_error, validate_project_path, AppError,
    AppErrorKind, ErrorHandler, McpToolError, PathFacts, RecoveryStrategy, ResultExt, RetryStep,
};
use cunzhi_cli::helpers::{
    colorize, colorize_with_style, confirm, format_duration, format_duration_parts,
    format_file_size, prompt, supports_color, ProgressIndicator,
};
use cunzhi_cli::init::{check_project_directory, project_name_verdict, validate_project_name};
use cunzhi_cli::interaction::InteractionTool;
use cunzhi_cli::json::{parse, render, render_pretty, Json};
use cunzhi_cli::logger::{
    auto_init_logger, eq_ignore_ascii_case, init_logger, parse_level, Level, LevelFilter,
    LogConfig, LogEnvironment, LogTarget,
};
use cunzhi_cli::markdown::restyle;
use cunzhi_cli::memory::{
    get_default_mcp_tools_config, MemoryAction, MemoryCategory, MemoryEntry, MemoryManager,
    MemoryTool,
};
use cunzhi_cli::storage::parse_u32;
use cunzhi_cli::text::{
    decimal_string, join, repeat, str_contains, str_eq, str_starts_with, to_chars, trim,
};
use cunzhi_cli::types::{JiyiRequest, McpError};
use cunzhi_cli::ui::{show_loading, Table};
use std::time::Duration;

#[test]
fn file_sizes_round_half_to_even_like_a_double() {
    assert_eq!(format_file_size(1), "1 B");
    assert_eq!(format_file_size(1025), "1.0 KB");
    assert_eq!(format_file_size(1126), "1.1 KB");
    assert_eq!(format_file_size(1280), "1.2 KB");
    assert_eq!(format_file_size(1281), "1.3 KB");
    assert_eq!(format_file_size(1792), "1.8 KB");
    assert_eq!(format_file_size(1048575), "1024.0 KB");
    assert_eq!(format_file_size(1572864), "1.5 MB");
    assert_eq!(format_file_size(1073741824), "1.0 GB");
    assert_eq!(format_file_size(1099511627776), "1.0 TB");
    assert_eq!(format_file_size(1125899906842624), "1024.0 TB");
    assert_eq!(format_file_size(u64::MAX), "16777216.0 TB");
    assert_eq!(format_file_size(9007199254740993), "8192.0 TB");
}

#[test]
fn durations() {
    assert_eq!(format_duration(Duration::from_millis(0)), "0ms");
    assert_eq!(format_duration(Duration::from_millis(999)), "999ms");
    assert_eq!(format_duration(Duration::from_millis(1999)), "1.9s");
    assert_eq!(format_duration(Duration::from_millis(59_999)), "59.9s");
    assert_eq!(format_duration(Duration::from_secs(60)), "1m 0s");
    assert_eq!(format_duration(Duration::from_secs(3600)), "1h 0m 0s");
    assert_eq!(format_duration(Duration::from_millis(3_661_500)), "1h 1m 1s");
    assert_eq!(format_duration_parts(7325, 0), "2h 2m 5s");
    assert_eq!(format_duration_parts(5, 250), "5.2s");
}

#[test]
fn colours() {
    assert_eq!(colorize("x", colors::RED, true), "\x1b[31mx\x1b[0m");
    assert_eq!(colorize("x", colors::RED, false), "x");
    assert_eq!(colorize_with_style("x", colors::WHITE, true, true), "\x1b[1m\x1b[37mx\x1b[0m");
    assert_eq!(colorize_with_style("x", colors::WHITE, false, true), "\x1b[37mx\x1b[0m");
    assert_eq!(colorize_with_style("x", colors::WHITE, true, false), "x");
    assert!(supports_color(true, false, false));
    assert!(!supports_color(false, false, false));
    assert!(!supports_color(true, true, false));
    assert!(!supports_color(true, false, true));
    assert_eq!(colors::GREEN, "\x1b[32m");
    assert_eq!(colors::DIM, "\x1b[2m");
}

#[test]
fn the_spinner_turns() {
    let mut spinner = ProgressIndicator::new("working");
    assert_eq!(spinner.tick(false), None);
    assert_eq!(spinner.tick(true), Some("\r⠋ working".to_string()));
    assert_eq!(spinner.tick(true), Some("\r⠙ working".to_string()));
    for _ in 0..8 {
        spinner.tick(true);
    }
    assert_eq!(spinner.tick(true), Some("\r⠋ working".to_string()));
}

#[test]
fn answers_typed_at_a_prompt() {
    assert!(confirm("y", false));
    assert!(confirm(" YES \n", false));
    assert!(!confirm("n", true));
    assert!(!confirm("No", true));
    assert!(confirm("", true));
    assert!(!confirm("", false));
    assert!(confirm("maybe", true));
    assert_eq!(prompt("  hello \n"), Some("hello".to_string()));
    assert_eq!(prompt(" \t\n"), None);
}

#[test]
fn app_errors() {
    let error = AppError::file_operation("disk full");
    assert_eq!(error.to_string(), "文件操作错误: disk full");
    assert_eq!(error.kind(), AppErrorKind::FileOperation);
    assert_eq!(error.message(), "disk full");
    assert_eq!(AppError::config("c").to_string(), "配置错误: c");
    assert_eq!(AppError::network("n").to_string(), "网络错误: n");
    assert_eq!(AppError::mcp_server("m").to_string(), "MCP 服务器错误: m");
    assert_eq!(AppError::user_input("u").to_string(), "用户输入错误: u");
    assert_eq!(AppError::permission("p").to_string(), "权限错误: p");
    assert_eq!(AppError::dependency("d").to_string(), "依赖错误: d");
    assert_eq!(AppError::internal("i").to_string(), "内部错误: i");
    assert_eq!(AppError::of_kind(AppErrorKind::Network, "n").to_string(), "网络错误: n");

    let handler = ErrorHandler::new(true);
    let codes: Vec<i32> = [
        AppError::config("x"),
        AppError::file_operation("x"),
        AppError::network("x"),
        AppError::mcp_server("x"),
        AppError::user_input("x"),
        AppError::permission("x"),
        AppError::dependency("x"),
        AppError::internal("x"),
    ]
    .iter()
    .map(|e| handler.handle_app_error(e).exit_code)
    .collect();
    assert_eq!(codes, vec![1, 2, 3, 4, 5, 6, 7, 8]);

    let report = handler.handle_app_error(&AppError::permission("root only"));
    assert_eq!(report.headline, "权限不足: root only");
    assert_eq!(report.advice_title, Some("尝试以下解决方案:".to_string()));
    assert_eq!(
        report.lines,
        vec!["  • 检查文件和目录权限", "  • 确保有足够的访问权限", "  • 考虑使用管理员权限运行"]
    );
    let report = handler.handle_app_error(&AppError::user_input("bad"));
    assert_eq!(report.advice_title, Some("请检查输入格式并重试".to_string()));
    assert_eq!(report.lines, vec!["  • 运行 cunzhi --help 查看帮助"]);

    let causes = vec!["first".to_string(), "second".to_string()];
    let report = handler.handle_generic_error("boom", &causes);
    assert_eq!(report.exit_code, 99);
    assert_eq!(report.headline, "发生错误: boom");
    assert_eq!(report.advice_title, None);
    assert_eq!(report.lines, vec!["", "详细错误信息:", "  └─ first", "    └─ second"]);
    let quiet = ErrorHandler::new(false).handle_error(Err(("boom", &causes)));
    assert_eq!(quiet.exit_code, 99);
    assert!(quiet.lines.is_empty());
}

#[test]
fn tool_errors() {
    assert_eq!(McpToolError::ProjectPath("p".to_string()).to_string(), "项目路径错误: p");
    assert_eq!(McpToolError::PopupCreation("p".to_string()).to_string(), "弹窗创建失败: p");
    assert_eq!(McpToolError::ResponseParsing("p".to_string()).to_string(), "响应解析失败: p");
    assert_eq!(McpToolError::Configuration("p".to_string()).to_string(), "配置错误: p");
    assert_eq!(McpToolError::Internal("p".to_string()).to_string(), "内部错误: p");
    assert!(matches!(project_path_error("x".to_string()), McpError::InvalidParams(m) if m == "项目路径错误: x"));
    assert!(matches!(popup_error("x".to_string()), McpError::InternalError(m) if m == "弹窗创建失败: x"));
    assert!(matches!(response_parsing_error("x".to_string()), McpError::InternalError(m) if m == "响应解析失败: x"));
}

#[test]
fn results_with_context() {
    let failed: Result<u8, String> = Err("low".to_string());
    assert_eq!(failed.clone().with_user_context("reading"), Err("reading: low".to_string()));
    assert_eq!(
        failed.to_app_error(AppErrorKind::Config).unwrap_err().to_string(),
        "配置错误: low"
    );
    let fine: Result<u8, String> = Ok(7);
    assert_eq!(fine.clone().with_user_context("reading"), Ok(7));
    assert_eq!(fine.to_app_error(AppErrorKind::Config).unwrap(), 7);
}

#[test]
fn retries() {
    let strategy = RecoveryStrategy::new(2, Duration::from_secs(3));
    match strategy.execute_with_retry(0) {
        RetryStep::RetryAfter { delay, warning } => {
            assert_eq!(delay, Duration::from_secs(3));
            assert_eq!(warning, "操作失败，3 秒后重试 (1/2)");
        }
        other => panic!("{:?}", other),
    }
    match strategy.execute_with_retry(1) {
        RetryStep::RetryAfter { warning, .. } => assert_eq!(warning, "操作失败，3 秒后重试 (2/2)"),
        other => panic!("{:?}", other),
    }
    assert_eq!(cunzhi_cli::errors::retry_warning_line(10, 2, 5), "操作失败，10 秒后重试 (2/5)");
    assert!(matches!(strategy.execute_with_retry(2), RetryStep::GiveUp));
    assert!(matches!(RecoveryStrategy::new(0, Duration::ZERO).execute_with_retry(0), RetryStep::GiveUp));
}

#[test]
fn paths_and_names() {
    let there = PathFacts { exists: true, is_dir: true, readonly: false };
    assert!(validate_project_path("/p", there).is_ok());
    assert_eq!(
        validate_project_path("/p", PathFacts { exists: false, ..there }),
        Err("项目路径不存在: /p".to_string())
    );
    assert_eq!(
        validate_project_path("/p", PathFacts { is_dir: false, ..there }),
        Err("项目路径不是目录: /p".to_string())
    );
    assert!(check_project_directory("/p", there).is_ok());
    assert_eq!(
        check_project_directory("/p", PathFacts { exists: false, ..there }),
        Err("目录不存在: /p".to_string())
    );
    assert_eq!(
        check_project_directory("/p", PathFacts { is_dir: false, ..there }),
        Err("路径不是目录: /p".to_string())
    );
    assert_eq!(
        check_project_directory("/p", PathFacts { readonly: true, ..there }),
        Err("目录没有写入权限: /p".to_string())
    );
    assert_eq!(validate_project_name(""), Err("项目名称不能为空".to_string()));
    assert_eq!(validate_project_name(&"a".repeat(51)), Err("项目名称不能超过 50 个字符".to_string()));
    assert!(validate_project_name(&"a".repeat(50)).is_ok());
    assert_eq!(
        validate_project_name("a b"),
        Err("项目名称只能包含字母、数字、连字符和下划线".to_string())
    );
    assert!(validate_project_name("项目").is_ok());
    assert_eq!(validate_project_name(&"项".repeat(17)), Err("项目名称不能超过 50 个字符".to_string()));
    assert_eq!(project_name_verdict(true, true, false), Err("项目名称不能为空".to_string()));
    assert!(project_name_verdict(false, false, true).is_ok());
}

fn entry(content: &str, category: MemoryCategory) -> MemoryEntry {
    MemoryEntry {
        id: "id".to_string(),
        content: content.to_string(),
        category,
        created_at: "2024-01-01T00:00:00Z".to_string(),
        updated_at: "2024-01-01T00:00:00Z".to_string(),
    }
}

#[test]
fn the_summary_of_the_notes() {
    let manager =
        MemoryManager { memory_dir: "/p/.cunzhi-memory".to_string(), project_path: "/p".to_string() };
    assert_eq!(manager.get_project_summary(&vec![]).unwrap(), "项目路径: /p\n暂无记忆条目");
    let long = "长".repeat(60);
    let notes = vec![
        entry("use tabs", MemoryCategory::Rule),
        entry(&long, MemoryCategory::Context),
        entry("dark mode", MemoryCategory::Preference),
        entry("retry", MemoryCategory::Pattern),
        entry("five", MemoryCategory::Rule),
        entry("six", MemoryCategory::Rule),
    ];
    assert_eq!(
        manager.get_project_summary(&notes).unwrap(),
        format!(
            "项目路径: /p\n总记忆条目: 6\n\n分类统计:\n- 规范规则: 3 条\n- 用户偏好: 1 条\n- 最佳实践: 1 条\n- 项目上下文: 1 条\n\n最近记忆:\n1. [规范] use tabs\n2. [上下文] {}\n3. [偏好] dark mode\n4. [实践] retry\n5. [规范] five\n",
            "长".repeat(50)
        )
    );
}

fn jiyi(action: &str, content: &str, category: &str) -> JiyiRequest {
    JiyiRequest {
        action: action.to_string(),
        project_path: "/p".to_string(),
        content: content.to_string(),
        category: category.to_string(),
    }
}

#[test]
fn what_the_memory_tool_is_asked() {
    match MemoryTool::jiyi(&jiyi("记忆", "note", "pattern"), true, Ok(())) {
        Ok(MemoryAction::Add { content, category }) => {
            assert_eq!(content, "note");
            assert_eq!(category, MemoryCategory::Pattern);
        }
        other => panic!("{:?}", other),
    }
    match MemoryTool::jiyi(&jiyi("记忆", "note", "other"), true, Ok(())) {
        Ok(MemoryAction::Add { category, .. }) => assert_eq!(category, MemoryCategory::Context),
        other => panic!("{:?}", other),
    }
    assert!(matches!(MemoryTool::jiyi(&jiyi("回忆", "", ""), true, Ok(())), Ok(MemoryAction::Recall)));
    match MemoryTool::jiyi(&jiyi("记忆", "  \n", "rule"), true, Ok(())) {
        Err(McpError::InvalidParams(m)) => assert_eq!(m, "缺少记忆内容"),
        other => panic!("{:?}", other),
    }
    match MemoryTool::jiyi(&jiyi("forget", "x", "rule"), true, Ok(())) {
        Err(McpError::InvalidParams(m)) => {
            assert_eq!(m, "未知的操作类型: forget，支持的操作: 记忆, 回忆")
        }
        other => panic!("{:?}", other),
    }
    match MemoryTool::jiyi(&jiyi("回忆", "", ""), false, Ok(())) {
        Err(McpError::InvalidParams(m)) => assert_eq!(m, "项目路径不存在: /p"),
        other => panic!("{:?}", other),
    }
    match MemoryTool::jiyi(&jiyi("forget", "", ""), true, Err("denied".to_string())) {
        Err(McpError::InternalError(m)) => assert_eq!(m, "创建记忆管理器失败: denied"),
        other => panic!("{:?}", other),
    }
    assert_eq!(
        MemoryTool::added("42", "note", MemoryCategory::Rule),
        "✅ 记忆已添加，ID: 42\n📝 内容: note\n📂 分类: Rule"
    );
    assert!(matches!(MemoryTool::add_failed("x"), McpError::InternalError(m) if m == "添加记忆失败: x"));
    assert!(matches!(MemoryTool::recall_failed("x"), McpError::InternalError(m) if m == "获取项目信息失败: x"));
    assert_eq!(MemoryCategory::Preference.directory(), "preferences");
    assert_eq!(MemoryCategory::parse("rule"), MemoryCategory::Rule);
    let tools = get_default_mcp_tools_config();
    assert_eq!(tools.len(), 2);
    assert_eq!((tools[0].id.as_str(), tools[0].can_disable), ("zhi", false));
    assert_eq!((tools[1].id.as_str(), tools[1].can_disable), ("ji", true));
}

#[test]
fn markdown() {
    let plain = InteractionTool::render_simple_markdown_plain;
    assert_eq!(plain("a **b** c `d` e"), "a b c d e");
    assert_eq!(plain("no marks"), "no marks");
    assert_eq!(plain("**open only"), "**open only");
    assert_eq!(plain("`one` and `two` and `three"), "one and two and `three");
    assert_eq!(plain("**a***b**"), "a*b**");
    assert_eq!(plain("****"), "");
    assert_eq!(plain("**`x`**"), "x");
    assert_eq!(InteractionTool::render_simple_markdown("a **b** `c`", false), "a b c");
    assert_eq!(
        InteractionTool::render_simple_markdown("a **b** `c`", true),
        "a \x1b[1m\x1b[37mb\x1b[0m \x1b[36mc\x1b[0m"
    );
    assert_eq!(restyle("x--y--z", "--", "<", ">"), "x<y>z");
}

#[test]
fn chat() {
    assert_eq!(chat_command("exit"), ChatCommand::Exit);
    assert_eq!(chat_command("QUIT"), ChatCommand::Exit);
    assert_eq!(chat_command("Help"), ChatCommand::Help);
    assert_eq!(chat_command("exit now"), ChatCommand::Input);
    assert!(generate_code_analysis_response("analyze  src/main.rs ")
        .starts_with("# 🔍 代码分析报告\n\n## 分析目标\n文件: `src/main.rs`\n\n## 分析结果\n"));
    assert!(generate_code_analysis_response("other").contains("文件: ``\n"));
    assert!(generate_qa_response("ask why?").contains("## 您的问题\n> why?\n\n## 解答\n"));
    assert!(generate_general_response("hello").contains("## 您的输入\n> hello\n\n## 我的理解\n"));
    assert!(generate_general_response("x").ends_with("请告诉我您希望我如何帮助您！"));
    assert!(generate_optimization_response().starts_with("# 🚀 项目优化建议\n\n## 架构优化\n"));
    assert!(generate_optimization_response().ends_with("- **依赖审计** - 定期检查依赖安全性"));
    assert_eq!(handle_user_input("optimize me").message, generate_optimization_response());
    assert_eq!(handle_user_input("analyze x").message, generate_code_analysis_response("analyze x"));
    assert_eq!(handle_user_input("ask x").message, generate_qa_response("ask x"));
    let shown = handle_user_input("hi");
    assert_eq!(shown.message, generate_general_response("hi"));
    assert_eq!(shown.predefined_options, vec!["继续分析", "查看详细信息", "提供更多建议", "切换话题"]);
    assert!(shown.is_markdown);
    assert_eq!(shown.terminal_mode, Some(false));
    let asked = chat_prompt();
    assert_eq!(asked.message, "请输入您的问题或需求:");
    assert_eq!(asked.predefined_options.len(), 4);
    assert!(!asked.is_markdown);
}

fn log_env(args: &[&str]) -> LogEnvironment {
    LogEnvironment {
        args: args.iter().map(|a| a.to_string()).collect(),
        on_terminal: true,
        rust_log: None,
        mcp_log_file: None,
        no_color: false,
        default_log_file: "/tmp/cunzhi-mcp.log".to_string(),
    }
}

#[test]
fn logging() {
    let default = LogConfig::default();
    assert_eq!(default.level, LevelFilter::Info);
    assert!(default.file_path.is_none() && !default.is_mcp_mode && default.enable_colors);

    let cli = auto_init_logger(&log_env(&["cunzhi", "init"]));
    assert!(!cli.is_mcp_mode);
    assert_eq!(cli.level, LevelFilter::Info);
    assert!(cli.enable_colors);
    assert!(cli.file_path.is_none());
    let mut env = log_env(&["cunzhi"]);
    env.no_color = true;
    env.rust_log = Some("DEBUG".to_string());
    let cli = auto_init_logger(&env);
    assert!(!cli.enable_colors);
    assert_eq!(cli.level, LevelFilter::Debug);

    let mcp = auto_init_logger(&log_env(&["cunzhi-ui", "--mcp-request", "f.json"]));
    assert!(mcp.is_mcp_mode);
    assert_eq!(mcp.level, LevelFilter::Warn);
    assert_eq!(mcp.file_path, Some("/tmp/cunzhi-mcp.log".to_string()));
    assert!(!mcp.enable_colors);
    let mut env = log_env(&["/usr/bin/my_mcp_server_bin"]);
    env.mcp_log_file = Some("/var/log/x.log".to_string());
    env.rust_log = Some("nonsense".to_string());
    let mcp = auto_init_logger(&env);
    assert!(mcp.is_mcp_mode);
    assert_eq!(mcp.level, LevelFilter::Warn);
    assert_eq!(mcp.file_path, Some("/var/log/x.log".to_string()));

    assert!(matches!(init_logger(&cli, false), (LogTarget::Stderr, LevelFilter::Debug)));
    assert!(matches!(init_logger(&mcp, true), (LogTarget::File(f), LevelFilter::Warn) if f == "/var/log/x.log"));
    assert!(matches!(init_logger(&mcp, false), (LogTarget::Disabled, LevelFilter::Off)));

    assert_eq!(parse_level("off"), Some(LevelFilter::Off));
    assert_eq!(parse_level("Trace"), Some(LevelFilter::Trace));
    assert_eq!(parse_level("warning"), None);
    assert!(eq_ignore_ascii_case("AbC", "aBc"));
    assert!(!eq_ignore_ascii_case("abc", "abd"));
    assert!(!eq_ignore_ascii_case("abc", "ab"));

    assert_eq!(
        mcp.format(Level::Warn, Some("server"), "hello", "2024-01-01 00:00:00.000"),
        "2024-01-01 00:00:00.000 [WARN] [server] hello"
    );
    assert_eq!(mcp.format(Level::Error, None, "x", "t"), "t [ERROR] [unknown] x");
    assert_eq!(default.format(Level::Info, None, "x", "t"), "\x1b[32m[INFO]\x1b[0m x");
    assert_eq!(default.format(Level::Trace, None, "x", "t"), "\x1b[35m[TRACE]\x1b[0m x");
    assert_eq!(cli.format(Level::Debug, None, "x", "t"), "[DEBUG] x");
}

#[test]
fn tables() {
    let mut table = Table::new(vec!["name", "state"]);
    table.add_row(vec!["zhi", "on"]);
    table.add_row(vec!["ji_cunzhi", "off", "extra"]);
    assert_eq!(
        table.print(),
        vec![
            "│ name      │ state │",
            "├───────────┼───────┤",
            "│ zhi       │ on    │",
            "│ ji_cunzhi │ off   │ extra │",
        ]
    );
    let mut wide = Table::new(vec!["列"]);
    wide.add_row(vec!["值值"]);
    assert_eq!(wide.print(), vec!["│ 列      │", "├────────┤", "│ 值值     │"]);
    assert_eq!(show_loading("wait", Duration::from_millis(1), || 41 + 1), 42);
}

#[test]
fn command_routes() {
    let cli = |command| Cli { command, verbose: false, config: None };
    assert!(matches!(cli(None).execute(), CliRoute::DefaultHelp));
    assert!(matches!(
        cli(Some(Commands::Server { action: ServerAction::Stop })).execute(),
        CliRoute::Server(ServerAction::Stop)
    ));
    assert!(matches!(
        cli(Some(Commands::Config { action: ConfigAction::Show })).execute(),
        CliRoute::Config(ConfigAction::Show)
    ));
    assert!(matches!(
        cli(Some(Commands::Mcp { action: McpAction::Chat })).execute(),
        CliRoute::Mcp(McpAction::Chat)
    ));
    assert!(matches!(cli(Some(Commands::McpServer)).execute(), CliRoute::McpServer));
    assert!(matches!(cli(Some(Commands::Version)).execute(), CliRoute::Version));
    assert!(matches!(cli(Some(Commands::Doctor)).execute(), CliRoute::Doctor));
    match cli(Some(Commands::Init { name: Some("p".to_string()), yes: true })).execute() {
        CliRoute::Init { name, use_defaults } => {
            assert_eq!(name, Some("p".to_string()));
            assert!(use_defaults);
        }
        other => panic!("{:?}", other),
    }
}

#[test]
fn client_configuration() {
    let config = McpClientConfig::new_cunzhi_config("/usr/bin/cunzhi");
    assert_eq!(config.mcp_servers.len(), 1);
    let (name, server) = &config.mcp_servers[0];
    assert_eq!(name, "cunzhi-cli");
    assert_eq!(server.command, "/usr/bin/cunzhi");
    assert_eq!(server.args, vec!["mcp-server"]);
    assert_eq!(server.env, Some(vec![("RUST_LOG".to_string(), "info".to_string())]));
    assert_eq!(
        render(&McpClientConfig::server_entry("/usr/bin/cunzhi")),
        r#"{"args":["mcp-server"],"command":"/usr/bin/cunzhi","env":{"RUST_LOG":"info"}}"#
    );
    assert_eq!(McpClientConfig::config_places().len(), 2);
}

#[test]
fn json_values() {
    let text = r#"{"b":[1,2.5,-3,"x",null,true],"a":{"k":"v"}}"#;
    let value = parse(text).unwrap();
    assert_eq!(render(&value), r#"{"a":{"k":"v"},"b":[1,2.5,-3,"x",null,true]}"#);
    assert_eq!(render(&value.duplicate()), render(&value));
    assert_eq!(render(&value.clone()), render(&value));
    assert_eq!(
        render_pretty(&parse(r#"{"a":[1]}"#).unwrap()),
        "{\n  \"a\": [\n    1\n  ]\n}"
    );
    assert!(value.get("a").unwrap().is_object());
    assert!(value.get("missing").is_none());
    assert!(value.get("b").unwrap().get("x").is_none());
    assert_eq!(value.get("b").unwrap().as_array().unwrap().len(), 6);
    assert!(parse("").is_err());
    assert!(parse("{").is_err());
    assert_eq!(render(&Json::string("a\"b\n")), r#""a\"b\n""#);
    assert_eq!(render(&Json::number("12")), "12");
    assert_eq!(render(&Json::number("twelve")), "null");
    let twice = Json::object(vec![
        ("k".to_string(), Json::Bool(true)),
        ("k".to_string(), Json::Bool(false)),
    ]);
    assert_eq!(twice.get("k").unwrap().as_bool(), Some(true));
    assert_eq!(render(&twice), r#"{"k":false}"#);
}

#[test]
fn text_primitives() {
    assert_eq!(trim("  a b \t\n"), "a b");
    assert_eq!(trim("\u{3000}x\u{a0}"), "x");
    assert_eq!(trim("\u{200b}x"), "\u{200b}x");
    assert_eq!(trim(""), "");
    assert_eq!(trim(" \n "), "");
    assert!(str_eq("寸止", "寸止"));
    assert!(!str_eq("a", "ab"));
    assert!(str_contains("hello world", "o w"));
    assert!(str_contains("abc", ""));
    assert!(!str_contains("abc", "abcd"));
    assert!(!str_contains("", "a"));
    assert!(str_starts_with("analyze x", "analyze"));
    assert!(!str_starts_with("an", "analyze"));
    assert_eq!(join(&vec!["a".to_string(), "b".to_string(), "c".to_string()], ", "), "a, b, c");
    assert_eq!(join(&vec!["a".to_string()], ", "), "a");
    assert_eq!(join(&vec![], ", "), "");
    assert_eq!(decimal_string(0), "0");
    assert_eq!(decimal_string(1000), "1000");
    assert_eq!(decimal_string(u64::MAX), "18446744073709551615");
    assert_eq!(repeat("ab", 3), "ababab");
    assert_eq!(repeat("ab", 0), "");
    assert_eq!(to_chars("a寸"), vec!['a', '寸']);
    assert_eq!(parse_u32("0"), Some(0));
    assert_eq!(parse_u32("4294967295"), Some(u32::MAX));
    assert_eq!(parse_u32("4294967296"), None);
    assert_eq!(parse_u32("99999999999999999999999"), None);
    assert_eq!(parse_u32(""), None);
    assert_eq!(parse_u32("-1"), None);
    assert_eq!(parse_u32("1.5"), None);
    assert_eq!(parse_u32("1e3"), None);
}

#[test]
fn boxes_lines_and_summaries() {
    assert_eq!(split_lines("a\nb\r\nc"), vec!["a", "b", "c"]);
    assert_eq!(split_lines("a\n\nb\n"), vec!["a", "", "b"]);
    assert_eq!(split_lines("a\r"), vec!["a\r"]);
    assert_eq!(split_lines("\n"), vec![""]);
    assert_eq!(split_lines(""), Vec::<String>::new());
    assert_eq!(
        print_boxed_message("title", "one\nlonger line"),
        vec![
            "┌─────────────┐",
            "│ title       │",
            "├─────────────┤",
            "│ one         │",
            "│ longer line │",
            "└─────────────┘",
        ]
    );
    assert_eq!(print_boxed_message("t", ""), vec!["┌───┐", "│ t │", "└───┘"]);
    let shown = render_simple_markdown(
        "# One\n## Two\n### Three\n- item\n* star\n**bold**\n*it*\n`code`\n```\n\n  plain text \n****\n**",
    );
    let styles: Vec<LineStyle> = shown.iter().map(|l| l.style).collect();
    assert_eq!(
        styles,
        vec![
            LineStyle::Heading1,
            LineStyle::Heading2,
            LineStyle::Heading3,
            LineStyle::ListItem,
            LineStyle::ListItem,
            LineStyle::Bold,
            LineStyle::Italic,
            LineStyle::Code,
            LineStyle::Code,
            LineStyle::Blank,
            LineStyle::Plain,
            LineStyle::Italic,
            LineStyle::Plain,
        ]
    );
    let texts: Vec<&str> = shown.iter().map(|l| l.text.as_str()).collect();
    assert_eq!(
        texts,
        vec!["One", "Two", "Three", "item", "star", "bold", "it", "code", "`", "", "  plain text ", "**", "**"]
    );
    assert_eq!(read_threshold("250"), 250);
    assert_eq!(read_threshold("+7"), 7);
    assert_eq!(read_threshold("007"), 7);
    assert_eq!(read_threshold("many"), 1000);
    assert_eq!(read_threshold(""), 1000);
    assert_eq!(read_threshold("-3"), 1000);
    assert_eq!(read_threshold("4294967296"), 1000);
    let mut config = cunzhi_cli::config::AppConfig::default();
    config.mcp_config.set_tool_enabled("ji", false);
    assert_eq!(
        display_configuration_summary(&config),
        vec![
            "🔧 MCP 工具:",
            "   zhi - ✅ 启用",
            "   ji - ⏸️  禁用",
            "",
            "💬 回复设置:",
            "   ✅ 自动继续回复已启用",
            "   📏 阈值: 1000 字符",
        ]
    );
}

#[test]
fn a_server_is_entered_into_a_client_configuration() {
    let entry = McpClientConfig::server_entry("/bin/cunzhi");
    let entered = r#"{"args":["mcp-server"],"command":"/bin/cunzhi","env":{"RUST_LOG":"info"}}"#;
    assert_eq!(
        render(&merge_config(&Json::Null, entry.clone())),
        format!(r#"{{"mcpServers":{{"cunzhi-cli":{}}}}}"#, entered)
    );
    let existing = parse(r#"{"theme":"dark","mcpServers":{"other":{"command":"x"},"cunzhi-cli":{"command":"old"}}}"#).unwrap();
    assert_eq!(
        render(&merge_config(&existing, entry.clone())),
        format!(
            r#"{{"mcpServers":{{"cunzhi-cli":{},"other":{{"command":"x"}}}},"theme":"dark"}}"#,
            entered
        )
    );
    let odd = parse(r#"{"mcpServers":"none"}"#).unwrap();
    assert_eq!(
        render(&merge_config(&odd, entry)),
        format!(r#"{{"mcpServers":{{"cunzhi-cli":{}}}}}"#, entered)
    );
}

#[test]
fn the_launcher_names_what_it_probes() {
    let launcher = TerminalLauncher::new(TerminalLauncherConfig::default());
    assert_eq!(
        launcher.commands_to_probe(),
        vec!["osascript", "alacritty", "gnome-terminal", "konsole", "xterm", "powershell", "pwsh", "wt"]
    );
    assert_eq!(launcher.paths_to_probe().len(), 4);
    let mut config = TerminalLauncherConfig::default();
    config.preferred_terminal = Some(TerminalType::Custom("kitty".to_string()));
    assert_eq!(TerminalLauncher::new(config).commands_to_probe().last().unwrap(), "kitty");
}

#[test]
fn marked_lines() {
    assert_eq!(cunzhi_cli::helpers::log_success("done", false), "✅ done");
    assert_eq!(cunzhi_cli::helpers::log_success("done", true), "\x1b[32m✅ done\x1b[0m");
    assert_eq!(cunzhi_cli::helpers::log_error("bad", true), "\x1b[31m❌ bad\x1b[0m");
    assert_eq!(cunzhi_cli::helpers::log_warning("hm", false), "⚠️  hm");
    assert!(cunzhi_cli::helpers::is_ci_environment(false, false, true, false));
    assert!(!cunzhi_cli::helpers::is_ci_environment(false, false, false, false));
    let spinner = ProgressIndicator::new("m");
    assert_eq!(spinner.finish("ok", true, false), (Some("\r".to_string()), "✅ ok".to_string()));
    assert_eq!(spinner.fail("no", false, false), (None, "❌ no".to_string()));
    let content = cunzhi_cli::types::parse_mcp_response("hello").unwrap();
    assert_eq!(content.len(), 1);
    assert_eq!((content[0].content_type.as_str(), content[0].text.as_str()), ("text", "hello"));
}

#[test]
fn a_numeral_is_printed_as_a_number_or_not_at_all() {
    assert_eq!(render(&Json::number("-2.5e3")), "-2500.0");
    assert_eq!(render(&Json::number("\"text\"")), "null");
    assert_eq!(render(&Json::number("[1]")), "null");
    assert_eq!(render(&Json::number("1 2")), "null");
    assert_eq!(render(&Json::number("18446744073709551615")), "18446744073709551615");
}

#[test]
fn notes_are_listed_latest_first() {
    let at = |seconds: i64, nanos: u32| cunzhi_cli::memory::Moment { seconds, nanos };
    let order = cunzhi_cli::memory::latest_first_order;
    assert_eq!(order(&vec![]), Vec::<usize>::new());
    assert_eq!(order(&vec![at(5, 0)]), vec![0]);
    assert_eq!(order(&vec![at(1, 0), at(3, 0), at(2, 0)]), vec![1, 2, 0]);
    assert_eq!(order(&vec![at(3, 0), at(2, 0), at(1, 0)]), vec![0, 1, 2]);
    assert_eq!(order(&vec![at(1, 5), at(1, 9), at(1, 5), at(-4, 0), at(1, 9)]), vec![1, 4, 0, 2, 3]);
    assert_eq!(cunzhi_cli::memory::entry_file_name("abc"), "abc.json");
}

#[test]
fn what_the_wizard_shows_and_reads() {
    let templates = cunzhi_cli::init::ProjectTemplate::get_templates();
    let labels: Vec<String> = templates.iter().map(cunzhi_cli::init::template_option).collect();
    assert_eq!(labels[0], "基础配置 - 最小化配置，只启用核心功能");
    assert_eq!(cunzhi_cli::init::selected_template(&templates, &labels[2]), Some(2));
    assert_eq!(cunzhi_cli::init::selected_template(&templates, "基础配置"), None);
    let both = vec![cunzhi_cli::init::ZHI_CHOICE.to_string(), cunzhi_cli::init::JI_CHOICE.to_string()];
    let tools = cunzhi_cli::init::tools_from_choices(&both);
    assert_eq!((tools.get("zhi"), tools.get("ji")), (Some(true), Some(true)));
    let tools = cunzhi_cli::init::tools_from_choices(&both[1..].to_vec());
    assert_eq!((tools.get("zhi"), tools.get("ji")), (Some(false), Some(true)));
    let tools = cunzhi_cli::init::tools_from_choices(&vec![]);
    assert_eq!((tools.get("zhi"), tools.get("ji")), (Some(false), Some(false)));
}
