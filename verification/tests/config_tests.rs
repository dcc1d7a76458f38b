use cunzhi_cli::config::{
    default_mcp_tools, default_telegram_config, AppConfig, McpConfig, ReplyConfig, TelegramConfig,
    ToolMap,
};
use cunzhi_cli::config::default_terminal_config;
use cunzhi_cli::errors::{AppError, ErrorHandler};
use cunzhi_cli::init::{create_config_template, validate_project_name, ProjectTemplate};
use cunzhi_cli::json::{parse, render, render_pretty};
use cunzhi_cli::ui::Table;

fn compact(config: &AppConfig) -> String {
    render(&config.to_json())
}

fn read_back(text: &str) -> Result<AppConfig, String> {
    AppConfig::from_json(&parse(text)?)
}

#[test]
fn test_app_config_creation() {
    let config = AppConfig::default();

    assert_eq!(config.version, "0.2.12");
    assert!(config.reply_config.enable_continue_reply);
    assert_eq!(config.reply_config.auto_continue_threshold, 1000);
    assert!(!config.reply_config.continue_prompt.is_empty());
}

#[test]
fn test_app_config_serialization() {
    let config = AppConfig::default();

    let json = compact(&config);
    assert!(json.contains("version"));
    assert!(json.contains("reply_config"));
    assert!(json.contains("mcp_config"));

    let deserialized = read_back(&json).expect("Should deserialize from JSON");

    assert_eq!(config.version, deserialized.version);
    assert_eq!(
        config.reply_config.enable_continue_reply,
        deserialized.reply_config.enable_continue_reply
    );
}

#[test]
fn test_reply_config() {
    let reply_config = ReplyConfig {
        enable_continue_reply: true,
        auto_continue_threshold: 500,
        continue_prompt: "继续".to_string(),
    };

    assert!(reply_config.enable_continue_reply);
    assert_eq!(reply_config.auto_continue_threshold, 500);
    assert_eq!(reply_config.continue_prompt, "继续");
}

#[test]
fn test_mcp_config() {
    let mut tools = ToolMap::new();
    tools.insert("zhi".to_string(), true);
    tools.insert("ji".to_string(), false);

    let mcp_config = McpConfig { tools };

    assert_eq!(mcp_config.tools.get("zhi"), Some(true));
    assert_eq!(mcp_config.tools.get("ji"), Some(false));
    assert_eq!(mcp_config.tools.get("nonexistent"), None);
}

#[test]
fn test_project_name_validation() {
    assert!(validate_project_name("valid-project").is_ok());
    assert!(validate_project_name("valid_project").is_ok());
    assert!(validate_project_name("ValidProject123").is_ok());
    assert!(validate_project_name("a").is_ok());

    assert!(validate_project_name("").is_err());
    assert!(validate_project_name("project with spaces").is_err());
    assert!(validate_project_name("project@invalid").is_err());
    assert!(validate_project_name("project/invalid").is_err());
    assert!(validate_project_name(&"a".repeat(60)).is_err());
}

#[test]
fn test_project_templates() {
    let templates = ProjectTemplate::get_templates();

    assert!(!templates.is_empty());
    assert!(templates.len() >= 3);

    let basic = templates.iter().find(|t| t.name == "基础配置");
    assert!(basic.is_some());
    let basic = basic.unwrap();
    assert!(basic.mcp_tools.contains(&"zhi".to_string()));
    assert!(!basic.enable_continue_reply);

    let full = templates.iter().find(|t| t.name == "完整配置");
    assert!(full.is_some());
    let full = full.unwrap();
    assert!(full.mcp_tools.contains(&"zhi".to_string()));
    assert!(full.mcp_tools.contains(&"ji".to_string()));
    assert!(full.enable_continue_reply);
}

#[test]
fn test_create_config_template() {
    let config = create_config_template("基础配置").expect("Should create basic config");
    assert!(!config.reply_config.enable_continue_reply);
    assert_eq!(config.mcp_config.tools.get("zhi"), Some(true));
    assert_eq!(config.mcp_config.tools.get("ji"), Some(false));

    let config = create_config_template("完整配置").expect("Should create full config");
    assert!(config.reply_config.enable_continue_reply);
    assert_eq!(config.mcp_config.tools.get("zhi"), Some(true));
    assert_eq!(config.mcp_config.tools.get("ji"), Some(true));

    assert!(create_config_template("不存在的模板").is_err());
}

#[test]
fn test_table() {
    let mut table = Table::new(vec!["列1", "列2", "列3"]);
    table.add_row(vec!["值1", "值2", "值3"]);
    table.add_row(vec!["长一点的值", "短值", "中等长度的值"]);

    let lines = table.print();
    assert_eq!(lines.len(), 4);
}

#[test]
fn test_app_error_types() {
    let errors = vec![
        AppError::config("配置错误"),
        AppError::file_operation("文件错误"),
        AppError::network("网络错误"),
        AppError::mcp_server("服务器错误"),
        AppError::user_input("输入错误"),
        AppError::permission("权限错误"),
        AppError::dependency("依赖错误"),
        AppError::internal("内部错误"),
    ];

    for error in errors {
        let error_string = error.to_string();
        assert!(!error_string.is_empty());
        assert!(error_string.contains("错误"));
    }
}

#[test]
fn test_error_handler() {
    let handler = ErrorHandler::new(false);

    let config_error = AppError::config("测试配置错误");
    let exit_code = handler.handle_error(Ok(&config_error)).exit_code;
    assert_eq!(exit_code, 1);

    let file_error = AppError::file_operation("测试文件错误");
    let exit_code = handler.handle_error(Ok(&file_error)).exit_code;
    assert_eq!(exit_code, 2);
}

#[test]
fn test_config_validation() {
    let valid_config = AppConfig {
        version: "0.2.12".to_string(),
        reply_config: ReplyConfig {
            enable_continue_reply: true,
            auto_continue_threshold: 1000,
            continue_prompt: "继续".to_string(),
        },
        mcp_config: McpConfig {
            tools: {
                let mut tools = ToolMap::new();
                tools.insert("zhi".to_string(), true);
                tools.insert("ji".to_string(), true);
                tools
            },
        },
        terminal_config: default_terminal_config(),
    };

    let json = compact(&valid_config);
    let _: AppConfig = read_back(&json).expect("Should deserialize");
}

#[test]
fn test_mcp_tools_configuration() {
    let mut tools = ToolMap::new();
    tools.insert("zhi".to_string(), true);
    tools.insert("ji".to_string(), false);
    tools.insert("custom_tool".to_string(), true);

    let mcp_config = McpConfig { tools };

    assert!(mcp_config.tools.get("zhi").unwrap_or(false));
    assert!(!mcp_config.tools.get("ji").unwrap_or(false));
    assert!(mcp_config.tools.get("custom_tool").unwrap_or(false));
    assert!(!mcp_config.tools.get("nonexistent").unwrap_or(false));

    let enabled_count = mcp_config.get_enabled_tools().len();
    assert_eq!(enabled_count, 2);
}

#[test]
fn test_reply_config_edge_cases() {
    let config = ReplyConfig {
        enable_continue_reply: false,
        auto_continue_threshold: 0,
        continue_prompt: "".to_string(),
    };

    assert!(!config.enable_continue_reply);
    assert_eq!(config.auto_continue_threshold, 0);
    assert!(config.continue_prompt.is_empty());

    let config = ReplyConfig {
        enable_continue_reply: true,
        auto_continue_threshold: u32::MAX,
        continue_prompt: "很长的提示词".repeat(100),
    };

    assert!(config.enable_continue_reply);
    assert_eq!(config.auto_continue_threshold, u32::MAX);
    assert!(config.continue_prompt.len() > 1000);
}

#[test]
fn tool_map_keeps_first_order_and_overwrites_in_place() {
    let mut tools = ToolMap::new();
    assert_eq!(tools.len(), 0);
    assert_eq!(tools.insert("b".to_string(), true), None);
    assert_eq!(tools.insert("a".to_string(), true), None);
    assert_eq!(tools.insert("b".to_string(), false), Some(true));
    assert_eq!(tools.len(), 2);
    assert_eq!(tools.keys(), vec!["b".to_string(), "a".to_string()]);
    assert_eq!(tools.enabled(), vec!["a".to_string()]);
    assert!(tools.contains_key("a"));
    assert!(!tools.contains_key("c"));
    let copy = tools.clone();
    assert_eq!(copy.keys(), tools.keys());
    assert_eq!(copy.get("b"), Some(false));
}

#[test]
fn default_tools_are_both_enabled() {
    let tools = default_mcp_tools();
    assert_eq!(tools.keys(), vec!["zhi".to_string(), "ji".to_string()]);
    assert_eq!(tools.enabled(), vec!["zhi".to_string(), "ji".to_string()]);
}

#[test]
fn mcp_config_sets_and_reads_tools() {
    let mut config = McpConfig { tools: default_mcp_tools() };
    assert!(config.is_tool_enabled("zhi"));
    assert!(!config.is_tool_enabled("unknown"));
    config.set_tool_enabled("ji", false);
    assert!(!config.is_tool_enabled("ji"));
    assert!(config.is_tool_enabled("zhi"));
    assert_eq!(config.get_enabled_tools(), vec!["zhi".to_string()]);
    config.set_tool_enabled("extra", true);
    assert_eq!(config.get_enabled_tools(), vec!["zhi".to_string(), "extra".to_string()]);
}

#[test]
fn validate_refuses_zero_threshold_only() {
    let mut config = AppConfig::default();
    assert!(config.validate().is_ok());
    config.reply_config.auto_continue_threshold = 0;
    assert_eq!(config.validate(), Err("自动继续阈值不能为 0".to_string()));
    config.reply_config.auto_continue_threshold = 1;
    assert!(config.validate().is_ok());
}

#[test]
fn summary_has_three_lines() {
    let mut config = AppConfig::default();
    assert_eq!(
        config.get_summary(),
        "配置版本: 0.2.12\n启用的 MCP 工具: zhi, ji\n自动继续回复: 已启用 (阈值: 1000 字符)"
    );
    config.reply_config.enable_continue_reply = false;
    config.mcp_config.set_tool_enabled("zhi", false);
    assert_eq!(
        config.get_summary(),
        "配置版本: 0.2.12\n启用的 MCP 工具: ji\n自动继续回复: 已禁用"
    );
}

#[test]
fn telegram_config_validity_and_url() {
    let mut telegram = default_telegram_config();
    assert!(telegram.is_valid());
    assert_eq!(telegram.api_base_url, "https://api.telegram.org/bot");
    telegram.enabled = true;
    assert!(!telegram.is_valid());
    telegram.bot_token = "123:abc".to_string();
    assert!(!telegram.is_valid());
    telegram.chat_id = "42".to_string();
    assert!(telegram.is_valid());
    telegram.bot_token = "123abc".to_string();
    assert!(!telegram.is_valid());
    let telegram = TelegramConfig {
        enabled: true,
        bot_token: "1:2".to_string(),
        chat_id: "3".to_string(),
        hide_frontend_popup: false,
        api_base_url: "https://api.telegram.org/bot".to_string(),
    };
    assert_eq!(telegram.get_api_url("sendMessage"), "https://api.telegram.org/bot1:2/sendMessage");
}

#[test]
fn terminal_defaults() {
    let terminal = default_terminal_config();
    assert!(terminal.enabled);
    assert_eq!(terminal.preferred_terminal, None);
    assert!(terminal.fallback_to_cli);
    assert_eq!(terminal.window_title, "寸止 CLI 交互");
    assert_eq!(terminal.timeout_seconds, 300);
}

#[test]
fn config_json_round_trip_keeps_every_setting() {
    let mut config = AppConfig::default();
    config.reply_config.auto_continue_threshold = 77;
    config.reply_config.continue_prompt = "go \"on\"".to_string();
    config.mcp_config.set_tool_enabled("ji", false);
    config.terminal_config.preferred_terminal = Some("iterm2".to_string());
    config.terminal_config.timeout_seconds = 12;
    config.terminal_config.window_title = "T".to_string();
    config.version = "9.9.9".to_string();
    let back = read_back(&render_pretty(&config.to_json())).unwrap();
    assert_eq!(back.reply_config.auto_continue_threshold, 77);
    assert_eq!(back.reply_config.continue_prompt, "go \"on\"");
    assert_eq!(back.mcp_config.tools.get("ji"), Some(false));
    assert_eq!(back.mcp_config.tools.get("zhi"), Some(true));
    assert_eq!(back.terminal_config.preferred_terminal, Some("iterm2".to_string()));
    assert_eq!(back.terminal_config.timeout_seconds, 12);
    assert_eq!(back.terminal_config.window_title, "T");
    assert_eq!(back.version, "9.9.9");
}

#[test]
fn config_json_faults_are_reported() {
    assert_eq!(read_back("[]").err(), Some("invalid type: expected an object".to_string()));
    assert_eq!(
        read_back(r#"{"reply_config": 3}"#).err(),
        Some("invalid type for `reply_config`, expected an object".to_string())
    );
    assert_eq!(
        read_back(r#"{"reply_config": {"auto_continue_threshold": -1}}"#).err(),
        Some("invalid type for `auto_continue_threshold`, expected a number of 32 bits".to_string())
    );
    assert_eq!(
        read_back(r#"{"reply_config": {"auto_continue_threshold": 4294967296}}"#).err(),
        Some("invalid type for `auto_continue_threshold`, expected a number of 32 bits".to_string())
    );
    assert_eq!(
        read_back(r#"{"reply_config": {"auto_continue_threshold": 4294967295}}"#)
            .unwrap()
            .reply_config
            .auto_continue_threshold,
        u32::MAX
    );
    assert_eq!(
        read_back(r#"{"mcp_config": {"tools": {"zhi": "yes"}}}"#).err(),
        Some("invalid type for `zhi`, expected a boolean".to_string())
    );
    assert_eq!(
        read_back(r#"{"terminal_config": {"preferred_terminal": null}}"#)
            .unwrap()
            .terminal_config
            .preferred_terminal,
        None
    );
}
