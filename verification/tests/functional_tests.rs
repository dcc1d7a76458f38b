use cunzhi_cli::config::AppConfig;
use cunzhi_cli::init::{create_config_template, validate_project_name};
use cunzhi_cli::json::{parse, render, render_pretty};
use cunzhi_cli::server::ZhiServer;
use cunzhi_cli::storage::{
    config_exists, get_standalone_config_path, load_config, save_config, ConfigLoad,
};
use std::time::Instant;

fn from_text(text: &str) -> Result<AppConfig, String> {
    AppConfig::from_json(&parse(text)?)
}

#[test]
fn test_project_name_validation_comprehensive() {
    let valid_names = vec![
        "simple",
        "with-dashes",
        "with_underscores",
        "MixedCase123",
        "a",
        "project123",
        "very-long-but-valid-project-name-under-50-chars",
    ];

    for name in valid_names {
        assert!(validate_project_name(name).is_ok(), "Name '{}' should be valid", name);
    }

    let long_name = "a".repeat(60);
    let invalid_names = vec![
        "",
        "with spaces",
        "with@symbols",
        "with/slashes",
        "with\\backslashes",
        "with.dots",
        &long_name,
    ];

    for name in invalid_names {
        assert!(validate_project_name(name).is_err(), "Name '{}' should be invalid", name);
    }
}

#[test]
fn test_config_templates_comprehensive() {
    let template_names = vec!["基础配置", "完整配置"];

    for template_name in template_names {
        let config = create_config_template(template_name)
            .expect(&format!("Should create template '{}'", template_name));

        assert!(!config.version.is_empty());
        assert!(config.mcp_config.tools.contains_key("zhi"));
        assert!(config.mcp_config.tools.contains_key("ji"));

        let json = render(&config.to_json());
        assert!(!json.is_empty());

        let _: AppConfig = from_text(&json).expect("Template config should deserialize");
    }
}

#[test]
fn test_config_serialization_formats() {
    let config = AppConfig::default();

    let json = render(&config.to_json());
    assert!(json.contains("version"));
    assert!(json.contains("reply_config"));
    assert!(json.contains("mcp_config"));

    let pretty_json = render_pretty(&config.to_json());
    assert!(pretty_json.len() > json.len());

    let deserialized: AppConfig = from_text(&json).expect("Should deserialize from JSON");
    assert_eq!(config.version, deserialized.version);

    let pretty_deserialized: AppConfig =
        from_text(&pretty_json).expect("Should deserialize from pretty JSON");
    assert_eq!(config.version, pretty_deserialized.version);
}

#[test]
fn test_config_path_resolution() {
    let path_result = get_standalone_config_path(Some("/home/user/.config"));
    assert!(path_result.is_ok(), "Should be able to get config path");

    let (dir, folder, file) = path_result.unwrap();
    assert_eq!(dir, "/home/user/.config");
    assert_eq!(folder, "cunzhi");
    assert!(file.contains("config.json"), "Config path should contain config.json");
    assert_eq!(get_standalone_config_path(None), Err("无法获取配置目录".to_string()));
}

#[test]
fn test_config_validation_edge_cases() {
    let mut config = AppConfig::default();

    config.reply_config.auto_continue_threshold = u32::MAX;
    let json = render(&config.to_json());
    let back: AppConfig = from_text(&json).expect("Should deserialize large threshold");
    assert_eq!(back.reply_config.auto_continue_threshold, u32::MAX);

    config.reply_config.auto_continue_threshold = 0;
    let json = render(&config.to_json());
    let _: AppConfig = from_text(&json).expect("Should deserialize zero threshold");

    config.reply_config.continue_prompt = String::new();
    let json = render(&config.to_json());
    let _: AppConfig = from_text(&json).expect("Should deserialize empty prompt");

    config.reply_config.continue_prompt = "很长的提示".repeat(1000);
    let json = render(&config.to_json());
    let back: AppConfig = from_text(&json).expect("Should deserialize long prompt");
    assert_eq!(back.reply_config.continue_prompt, "很长的提示".repeat(1000));
}

#[test]
fn test_performance_benchmarks() {
    let start = Instant::now();
    for _ in 0..1000 {
        let _ = AppConfig::default();
    }
    let duration = start.elapsed();
    assert!(duration.as_millis() < 1000, "Config creation should be fast");

    let config = AppConfig::default();
    let start = Instant::now();
    for _ in 0..1000 {
        let _ = render(&config.to_json());
    }
    let duration = start.elapsed();
    assert!(duration.as_millis() < 1000, "Config serialization should be fast");

    let start = Instant::now();
    for i in 0..1000 {
        let _ = validate_project_name(&format!("project-{}", i));
    }
    let duration = start.elapsed();
    assert!(duration.as_millis() < 100, "Name validation should be very fast");
}

#[test]
fn test_config_error_handling() {
    let invalid_json = "{ invalid json content";
    let parse_result = load_config(Some(invalid_json));
    assert!(parse_result.is_err(), "Invalid JSON should fail to parse");
    assert!(parse_result.unwrap_err().starts_with("配置文件格式错误: "));

    let incomplete_json = r#"{"version": "0.1.0"}"#;
    let parse_result = load_config(Some(incomplete_json));
    assert!(parse_result.is_ok(), "Incomplete JSON should parse with defaults");

    match parse_result.unwrap() {
        ConfigLoad::Loaded(config) => {
            assert_eq!(config.version, "0.1.0");
            assert!(!config.reply_config.continue_prompt.is_empty());
            assert_eq!(config.reply_config.auto_continue_threshold, 1000);
            assert_eq!(config.mcp_config.tools.get("zhi"), Some(true));
            assert_eq!(config.terminal_config.timeout_seconds, 300);
        }
        ConfigLoad::Created(_) => panic!("the file is there"),
    }
}

#[test]
fn test_config_file_operations() {
    let config = AppConfig::default();
    let json = render_pretty(&config.to_json());
    let loaded_config: AppConfig = from_text(&json).expect("Should deserialize config");

    assert_eq!(config.version, loaded_config.version);
    assert_eq!(
        config.reply_config.enable_continue_reply,
        loaded_config.reply_config.enable_continue_reply
    );
}

#[test]
fn test_mcp_server_error_scenarios() {
    let server = ZhiServer::new(None);
    let _ = server.start(None);
    let _second_start = server.start(None);

    let new_server = ZhiServer::new(None);
    let _stop_result = new_server.stop();

    let status = new_server.status(None);
    assert!(!status.is_empty(), "Should always be able to get status");
}

#[test]
fn missing_config_file_gives_the_default_to_write() {
    match load_config(None).unwrap() {
        ConfigLoad::Created(config) => assert_eq!(config.version, "0.2.12"),
        ConfigLoad::Loaded(_) => panic!("there is no file"),
    }
    assert!(!config_exists(true, false));
    assert!(!config_exists(false, true));
    assert!(config_exists(true, true));
}

#[test]
fn config_with_zero_threshold_is_neither_loaded_nor_saved() {
    assert_eq!(
        load_config(Some(r#"{"reply_config": {"auto_continue_threshold": 0}}"#)).err(),
        Some("自动继续阈值不能为 0".to_string())
    );
    let mut config = AppConfig::default();
    config.reply_config.auto_continue_threshold = 0;
    assert_eq!(save_config(&config), Err("自动继续阈值不能为 0".to_string()));
}

#[test]
fn test_config_lifecycle() {
    let mut config = AppConfig::default();
    config.terminal_config.timeout_seconds = 5;
    let text = save_config(&config).unwrap();
    assert!(text.contains('\n'));
    match load_config(Some(&text)).unwrap() {
        ConfigLoad::Loaded(back) => {
            assert_eq!(back.terminal_config.timeout_seconds, 5);
            assert_eq!(back.version, config.version);
        }
        ConfigLoad::Created(_) => panic!("the text is there"),
    }
}

#[test]
fn test_mcp_server_lifecycle() {
    let server = ZhiServer::new(None);

    let status = server.status(None);
    assert!(status.contains("运行中"), "Server should be running with enabled tools");
    assert_eq!(status, "运行中 - 2 个工具已启用");

    assert!(server.start(None).is_ok(), "Server should start successfully");

    let tools = server.list_tools(None);
    assert!(!tools.is_empty(), "Should have available tools");
    assert!(tools.iter().any(|t| t.name == "zhi"), "Should have zhi tool");
    assert!(tools.iter().any(|t| t.name == "ji"), "Should have ji tool");

    assert_eq!(server.stop(), "服务器已停止");
}

#[test]
fn test_mcp_tool_configuration() {
    let server = ZhiServer::new(None);

    assert!(server.is_tool_enabled("zhi", None), "zhi tool should be enabled by default");
    assert!(server.is_tool_enabled("ji", None), "ji tool should be enabled by default");
    assert!(server.is_tool_enabled("anything", None));

    let enabled_tools = server.get_enabled_tools(None);
    assert!(enabled_tools.contains(&"zhi".to_string()), "Enabled tools should include zhi");
    assert!(enabled_tools.contains(&"ji".to_string()), "Enabled tools should include ji");
}

#[test]
fn server_without_tools_does_not_start() {
    let mut config = AppConfig::default();
    config.mcp_config.set_tool_enabled("zhi", false);
    config.mcp_config.set_tool_enabled("ji", false);
    let server = ZhiServer::new(Some(config));
    assert_eq!(server.start(None).err(), Some("没有启用的 MCP 工具".to_string()));
    assert_eq!(server.status(None), "未运行 - 没有启用的工具");
    assert_eq!(server.status(Some(&AppConfig::default())), "运行中 - 2 个工具已启用");
}

fn loaded(text: &str) -> AppConfig {
    match load_config(Some(text)).expect("the configuration should load") {
        ConfigLoad::Loaded(config) => config,
        ConfigLoad::Created(_) => panic!("the text is there"),
    }
}

#[test]
fn an_empty_configuration_file_gets_every_default() {
    let config = loaded("{}");
    assert_eq!(
        config.get_summary(),
        "配置版本: 0.2.12\n启用的 MCP 工具: zhi, ji\n自动继续回复: 已启用 (阈值: 1000 字符)"
    );
    assert!(config.terminal_config.enabled);
}

#[test]
fn a_partial_configuration_file_keeps_what_it_names() {
    let config = loaded(r#"{ "mcp_config": { "tools": { "zhi": true } } }"#);
    assert_eq!(config.mcp_config.tools.keys(), vec!["zhi".to_string()]);
    assert_eq!(config.mcp_config.tools.get("ji"), None);
    assert_eq!(config.reply_config.auto_continue_threshold, 1000);
    let config = loaded(r#"{ "mcp_config": {} }"#);
    assert_eq!(config.mcp_config.tools.keys(), vec!["zhi".to_string(), "ji".to_string()]);
}

#[test]
fn settings_that_are_not_known_are_passed_over() {
    let config = loaded(
        r#"{
        "reply_config": {
            "enable_continue_reply": false,
            "auto_continue_threshold": 500,
            "continue_prompt": "继续",
            "unknown_field": "should_be_ignored"
        },
        "mcp_config": {
            "tools": { "zhi": true, "ji": false, "unknown_tool": true }
        },
        "telegram_config": { "enabled": false, "unknown_telegram_field": "ignored" },
        "version": "0.1.0",
        "unknown_top_level": "ignored"
    }"#,
    );
    assert!(!config.reply_config.enable_continue_reply);
    assert_eq!(config.reply_config.auto_continue_threshold, 500);
    assert_eq!(config.reply_config.continue_prompt, "继续");
    assert_eq!(config.mcp_config.tools.get("ji"), Some(false));
    assert_eq!(config.mcp_config.tools.get("unknown_tool"), Some(true));
    assert_eq!(config.version, "0.1.0");
    assert_eq!(
        config.get_summary(),
        "配置版本: 0.1.0\n启用的 MCP 工具: unknown_tool, zhi\n自动继续回复: 已禁用"
    );
}
