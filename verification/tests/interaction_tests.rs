use cunzhi_cli::config::default_terminal_config;
use cunzhi_cli::interaction::{
    generate_request_id, session_files, terminal_type_named, EnhancedCliInteraction, FlowAction,
    FlowEvent, InlinePrompt, InteractionFlow, InteractionTool, PromptError, SelectionStep, Stage,
    SCRIPT_MODE,
};
use cunzhi_cli::types::{McpError, ZhiRequest};
use std::collections::HashSet;

fn request(options: &[&str], terminal_mode: Option<bool>) -> ZhiRequest {
    ZhiRequest {
        message: "Pick one".to_string(),
        predefined_options: options.iter().map(|o| o.to_string()).collect(),
        is_markdown: false,
        terminal_mode,
    }
}

fn answer_of(flow: &InteractionFlow) -> Option<Result<String, McpError>> {
    match flow.action() {
        FlowAction::Finish(Ok(result)) => {
            assert_eq!(result.content.len(), 1);
            assert_eq!(result.content[0].content_type, "text");
            assert_eq!(result.is_error, None);
            Some(Ok(result.content[0].text.clone()))
        }
        FlowAction::Finish(Err(e)) => Some(Err(e)),
        _ => None,
    }
}

#[test]
fn pick_one_on_the_inline_prompt() {
    let request = request(&["A", "B"], Some(false));
    let mut flow = InteractionTool::zhi(&request);
    assert!(matches!(flow.action(), FlowAction::AskUi));

    flow.advance(FlowEvent::UiFailed { terminal_enabled: Some(true) });
    assert!(matches!(flow.action(), FlowAction::AskInline));
    assert_eq!(flow.terminal_launches(), 0);

    match InteractionTool::handle_cli_interaction(&request) {
        InlinePrompt::Select(menu) => assert_eq!(menu, vec!["A", "B", "自定义输入", "取消"]),
        InlinePrompt::Text => panic!("there are choices"),
    }
    let reply = match EnhancedCliInteraction::handle_option_selection(Ok("A".to_string())) {
        SelectionStep::Reply(text) => text,
        other => panic!("{:?}", other),
    };
    assert_eq!(reply, "用户选择: A");

    flow.advance(FlowEvent::InlineAnswered(reply));
    assert_eq!(flow.stage(), Stage::Done);
    assert_eq!(answer_of(&flow).unwrap().unwrap(), "用户选择: A");
}

#[test]
fn without_terminal_mode_a_ui_failure_goes_straight_to_the_inline_prompt() {
    for terminal_mode in [Some(false), None] {
        for enabled in [Some(true), Some(false), None] {
            let mut flow = InteractionFlow::new(&request(&[], terminal_mode));
            flow.advance(FlowEvent::UiFailed { terminal_enabled: enabled });
            assert_eq!(flow.stage(), Stage::InlineCli);
            assert_eq!(flow.terminal_launches(), 0);
            flow.advance(FlowEvent::TerminalAnswered("late".to_string()));
            assert_eq!(flow.stage(), Stage::InlineCli);
            flow.advance(FlowEvent::InlineAnswered("x".to_string()));
            assert_eq!(flow.terminal_launches(), 0);
            assert_eq!(answer_of(&flow).unwrap().unwrap(), "x");
        }
    }
    for enabled in [Some(false), None] {
        let mut flow = InteractionFlow::new(&request(&[], Some(true)));
        flow.advance(FlowEvent::UiFailed { terminal_enabled: enabled });
        assert_eq!(flow.stage(), Stage::InlineCli);
        assert_eq!(flow.terminal_launches(), 0);
    }
}

#[test]
fn the_chain_runs_ui_then_terminal_then_inline() {
    let mut flow = InteractionFlow::new(&request(&[], Some(true)));
    assert_eq!(flow.stage(), Stage::UiProcess);
    flow.advance(FlowEvent::UiFailed { terminal_enabled: Some(true) });
    assert_eq!(flow.stage(), Stage::TerminalMode);
    assert!(matches!(flow.action(), FlowAction::AskTerminal));
    assert_eq!(flow.terminal_launches(), 1);
    flow.advance(FlowEvent::TerminalFailed);
    assert_eq!(flow.stage(), Stage::InlineCli);
    assert_eq!(flow.terminal_launches(), 1);
    flow.advance(FlowEvent::InlineFailed(McpError::user_cancelled("用户取消了操作".to_string())));
    assert_eq!(flow.stage(), Stage::Done);
    match answer_of(&flow) {
        Some(Err(McpError::UserCancelled(m))) => assert_eq!(m, "用户取消了操作"),
        other => panic!("{:?}", other),
    }

    let mut flow = InteractionFlow::new(&request(&[], Some(true)));
    flow.advance(FlowEvent::UiAnswered("from ui".to_string()));
    assert_eq!(answer_of(&flow).unwrap().unwrap(), "from ui");

    let mut flow = InteractionFlow::new(&request(&[], Some(true)));
    flow.advance(FlowEvent::UiFailed { terminal_enabled: Some(true) });
    flow.advance(FlowEvent::TerminalAnswered("from terminal".to_string()));
    assert_eq!(answer_of(&flow).unwrap().unwrap(), "from terminal");
}

fn event(kind: usize) -> FlowEvent {
    match kind {
        0 => FlowEvent::UiAnswered("ui".to_string()),
        1 => FlowEvent::UiFailed { terminal_enabled: Some(true) },
        2 => FlowEvent::UiFailed { terminal_enabled: Some(false) },
        3 => FlowEvent::TerminalAnswered("terminal".to_string()),
        4 => FlowEvent::TerminalFailed,
        5 => FlowEvent::InlineAnswered("inline".to_string()),
        _ => FlowEvent::InlineFailed(McpError::internal_error("fatal".to_string(), None)),
    }
}

#[test]
fn every_run_ends_with_exactly_one_outcome() {
    let kinds = 7usize;
    for terminal_mode in [Some(true), Some(false), None] {
        for code in 0..kinds.pow(5) {
            let mut flow = InteractionFlow::new(&request(&["A"], terminal_mode));
            let mut outcome: Option<Result<String, String>> = None;
            let mut rest = code;
            for _ in 0..5 {
                flow.advance(event(rest % kinds));
                rest /= kinds;
                let now = answer_of(&flow).map(|r| r.map_err(|e| e.to_string()));
                assert_eq!(now.is_some(), flow.stage() == Stage::Done);
                if let Some(first) = &outcome {
                    assert_eq!(now.as_ref(), Some(first));
                }
                if now.is_some() {
                    outcome = now;
                }
                assert!(flow.terminal_launches() <= 1);
            }
        }
    }
}

#[test]
fn a_driver_that_answers_each_step_is_done_after_three_surfaces() {
    for terminal_mode in [Some(true), Some(false)] {
        for ui_ok in [true, false] {
            for terminal_ok in [true, false] {
                for inline_ok in [true, false] {
                    let mut flow = InteractionFlow::new(&request(&[], terminal_mode));
                    let mut steps = 0;
                    let mut asked = Vec::new();
                    let outcome = loop {
                        match flow.action() {
                            FlowAction::AskUi => {
                                asked.push("ui");
                                flow.advance(if ui_ok {
                                    FlowEvent::UiAnswered("u".to_string())
                                } else {
                                    FlowEvent::UiFailed { terminal_enabled: Some(true) }
                                });
                            }
                            FlowAction::AskTerminal => {
                                asked.push("terminal");
                                flow.advance(if terminal_ok {
                                    FlowEvent::TerminalAnswered("t".to_string())
                                } else {
                                    FlowEvent::TerminalFailed
                                });
                            }
                            FlowAction::AskInline => {
                                asked.push("inline");
                                flow.advance(if inline_ok {
                                    FlowEvent::InlineAnswered("i".to_string())
                                } else {
                                    FlowEvent::InlineFailed(McpError::timeout("x".to_string()))
                                });
                            }
                            FlowAction::Finish(r) => break r,
                        }
                        steps += 1;
                        assert!(steps <= 3);
                    };
                    let expected_asked: Vec<&str> = if ui_ok {
                        vec!["ui"]
                    } else if terminal_mode == Some(true) {
                        if terminal_ok {
                            vec!["ui", "terminal"]
                        } else {
                            vec!["ui", "terminal", "inline"]
                        }
                    } else {
                        vec!["ui", "inline"]
                    };
                    assert_eq!(asked, expected_asked);
                    let fatal = !ui_ok
                        && !(terminal_mode == Some(true) && terminal_ok)
                        && !inline_ok;
                    assert_eq!(outcome.is_err(), fatal);
                }
            }
        }
    }
}

#[test]
fn identifiers_are_unique_and_well_formed() {
    let mut seen = HashSet::new();
    for _ in 0..10_000 {
        let id = generate_request_id();
        assert_eq!(id.len(), 36);
        for (i, c) in id.chars().enumerate() {
            match i {
                8 | 13 | 18 | 23 => assert_eq!(c, '-'),
                _ => assert!(c.is_ascii_digit() || ('a'..='f').contains(&c), "{}", id),
            }
        }
        assert_eq!(id.as_bytes()[14], b'4');
        assert!(matches!(id.as_bytes()[19], b'8' | b'9' | b'a' | b'b'));
        assert!(seen.insert(id), "an identifier came twice");
    }
    assert_eq!(seen.len(), 10_000);
}

#[test]
fn session_files_share_the_identifier() {
    let files = session_files("0123");
    assert_eq!(files.script, "cunzhi_terminal_0123.sh");
    assert_eq!(files.response, "cunzhi_response_0123.txt");
    assert_eq!(SCRIPT_MODE, 0o755);
    let a = session_files(&generate_request_id());
    let b = session_files(&generate_request_id());
    assert_ne!(a.script, b.script);
    assert_ne!(a.response, b.response);
}

#[test]
fn selection_outcomes() {
    assert!(matches!(
        EnhancedCliInteraction::handle_option_selection(Ok("自定义输入".to_string())),
        SelectionStep::AskInput
    ));
    match EnhancedCliInteraction::handle_option_selection(Ok("取消".to_string())) {
        SelectionStep::Fail(McpError::UserCancelled(m)) => assert_eq!(m, "用户取消了操作"),
        other => panic!("{:?}", other),
    }
    match EnhancedCliInteraction::handle_option_selection(Ok("A".to_string())) {
        SelectionStep::Reply(text) => assert_eq!(text, "用户选择: A"),
        other => panic!("{:?}", other),
    }
    match EnhancedCliInteraction::handle_option_selection(Err(PromptError::Cancelled)) {
        SelectionStep::Fail(McpError::UserCancelled(m)) => assert_eq!(m, "用户取消了操作"),
        other => panic!("{:?}", other),
    }
    match EnhancedCliInteraction::handle_option_selection(Err(PromptError::Other("io".to_string()))) {
        SelectionStep::Fail(McpError::InternalError(m)) => assert_eq!(m, "选择失败: io"),
        other => panic!("{:?}", other),
    }
    assert_eq!(
        EnhancedCliInteraction::selection_menu(&vec![]),
        vec!["自定义输入".to_string(), "取消".to_string()]
    );
    assert!(matches!(
        InteractionTool::handle_cli_interaction(&request(&[], None)),
        InlinePrompt::Text
    ));
}

#[test]
fn free_text_outcomes() {
    let reply = |s: &str| EnhancedCliInteraction::handle_custom_input(Ok(s.to_string())).unwrap();
    assert_eq!(reply(""), "用户确认继续");
    assert_eq!(reply("   \n"), "用户确认继续");
    for word in ["cancel", "  CANCEL ", "Cancel\n"] {
        match EnhancedCliInteraction::handle_custom_input(Ok(word.to_string())) {
            Err(McpError::UserCancelled(m)) => assert_eq!(m, "用户取消了操作"),
            other => panic!("{:?}", other),
        }
    }
    assert_eq!(reply("Continue"), "用户确认继续");
    assert_eq!(reply("  do this  "), "用户输入: do this");
    assert_eq!(reply("cancel it"), "用户输入: cancel it");
    match EnhancedCliInteraction::reply_to_input("Cancel", "cancel") {
        Err(McpError::UserCancelled(m)) => assert_eq!(m, "用户取消了操作"),
        other => panic!("{:?}", other),
    }
    assert_eq!(
        EnhancedCliInteraction::reply_to_input("Cancel", "Cancel").unwrap(),
        "用户输入: Cancel"
    );
    match EnhancedCliInteraction::handle_custom_input(Err(PromptError::Cancelled)) {
        Err(McpError::UserCancelled(m)) => assert_eq!(m, "用户取消了操作"),
        other => panic!("{:?}", other),
    }
    match EnhancedCliInteraction::handle_custom_input(Err(PromptError::Other("eof".to_string()))) {
        Err(McpError::InternalError(m)) => assert_eq!(m, "输入失败: eof"),
        other => panic!("{:?}", other),
    }
}

#[test]
fn terminal_names() {
    let name = |s: &str| InteractionTool::parse_terminal_type(s).name();
    assert_eq!(name("terminal"), "TerminalApp");
    assert_eq!(name("Terminal.app"), "TerminalApp");
    assert_eq!(name("iTerm"), "ITerm2");
    assert_eq!(name("ITERM2"), "ITerm2");
    assert_eq!(name("alacritty"), "Alacritty");
    assert_eq!(name("gnome-terminal"), "GnomeTerminal");
    assert_eq!(name("Konsole"), "Konsole");
    assert_eq!(name("xterm"), "Xterm");
    assert_eq!(name("CMD"), "Cmd");
    assert_eq!(name("PowerShell"), "PowerShell");
    assert_eq!(name("wt"), "WindowsTerminal");
    assert_eq!(name("windows-terminal"), "WindowsTerminal");
    assert_eq!(name("Kitty"), "Custom(\"Kitty\")");
    assert_eq!(terminal_type_named("xterm", "whatever").name(), "Xterm");
    assert_eq!(terminal_type_named("XTERM", "XTERM").name(), "Custom(\"XTERM\")");
}

#[test]
fn launcher_setup_from_the_configuration() {
    let mut terminal = default_terminal_config();
    terminal.preferred_terminal = Some("Konsole".to_string());
    terminal.fallback_to_cli = false;
    terminal.window_title = "W".to_string();
    terminal.timeout_seconds = 9;
    let config = InteractionTool::launcher_config(&terminal, Some("/here".to_string()));
    assert_eq!(config.timeout_seconds, 9);
    assert_eq!(config.window_title, Some("W".to_string()));
    assert!(!config.fallback_to_cli);
    assert_eq!(config.working_directory, Some("/here".to_string()));
    assert_eq!(config.preferred_terminal.unwrap().name(), "Konsole");
    let config = InteractionTool::launcher_config(&default_terminal_config(), None);
    assert!(config.preferred_terminal.is_none());
    assert_eq!(config.window_title, Some("寸止 CLI 交互".to_string()));
}

#[test]
fn script_lines_for_the_choices() {
    let options = vec!["A".to_string(), "say \"hi\"".to_string(), "it's".to_string()];
    assert_eq!(
        InteractionTool::format_options_for_script(&options),
        "    echo '1. A'\n    echo '2. say \"hi\"'\n    echo '3. it'\\''s'"
    );
    assert_eq!(
        InteractionTool::generate_case_statements(&options),
        "        1) selected_option=A ;;\n        2) selected_option='say \"hi\"' ;;\n        3) selected_option='it'\\''s' ;;"
    );
    assert_eq!(InteractionTool::format_options_for_script(&vec![]), "");
    assert_eq!(InteractionTool::generate_case_statements(&vec![]), "");
}

#[test]
fn the_session_script() {
    let script = InteractionTool::generate_interaction_script(
        &request(&["A", "B"], Some(true)),
        "/tmp/cunzhi_response_abc.txt",
    )
    .unwrap();
    let expected = "#!/bin/bash\n\n# 寸止 CLI 终端交互脚本\necho \"🤖 寸止 AI 助手\"\necho \"════════════════════════════════════════════════\"\n\n# 显示消息\nprintf '%s\\n' 'Pick one'\n\necho \"════════════════════════════════════════════════\"\n\n# 处理预定义选项\nif [ 2 -gt 0 ]; then\n    echo \"📋 可选选项:\"\n    echo '1. A'\n    echo '2. B'\n    echo \"\"\n    echo \"请选择一个选项 (输入数字)，或输入自定义内容：\"\n\n    read -p \"> \" user_input\n\n    # 检查是否是数字选择\n    if [[ \"$user_input\" =~ ^[0-9]+$ ]] && [ \"$user_input\" -ge 1 ] && [ \"$user_input\" -le 2 ]; then\n        case $user_input in\n        1) selected_option=A ;;\n        2) selected_option=B ;;\n        esac\n        echo \"用户选择: $selected_option\" > /tmp/cunzhi_response_abc.txt\n    else\n        echo \"用户输入: $user_input\" > /tmp/cunzhi_response_abc.txt\n    fi\nelse\n    echo \"请输入您的回复:\"\n    read -p \"> \" user_input\n    echo \"用户输入: $user_input\" > /tmp/cunzhi_response_abc.txt\nfi\n\necho \"\"\necho \"回复已记录，您可以关闭此终端窗口。\"\necho \"按任意键退出...\"\nread -n 1\n";
    assert_eq!(script, expected);
}

#[test]
fn the_session_script_quotes_what_it_embeds() {
    let mut hostile = request(&["$(reboot)"], Some(true));
    hostile.message = "line one\nEOF\n`id`; echo 'x'".to_string();
    let script =
        InteractionTool::generate_interaction_script(&hostile, "/tmp/my dir/r.txt").unwrap();
    assert!(script.contains("printf '%s\\n' 'line one\nEOF\n`id`; echo '\\''x'\\'''\n"));
    assert!(script.contains("    echo '1. $(reboot)'\n"));
    assert!(script.contains("        1) selected_option='$(reboot)' ;;\n"));
    assert_eq!(script.matches("> '/tmp/my dir/r.txt'\n").count(), 3);
    assert!(script.contains("if [ 1 -gt 0 ]; then\n"));
    let none = InteractionTool::generate_interaction_script(&request(&[], None), "r").unwrap();
    assert!(none.contains("if [ 0 -gt 0 ]; then\n"));
    assert!(none.contains("        case $user_input in\n\n        esac\n"));
}

#[test]
fn an_explicit_cancel_is_never_an_answer() {
    let options = vec!["A".to_string(), "B".to_string()];
    let menu = EnhancedCliInteraction::selection_menu(&options);
    assert_eq!(menu.last().map(String::as_str), Some("取消"));
    let picked_cancel = EnhancedCliInteraction::handle_option_selection(Ok(menu[3].clone()));
    let aborted = EnhancedCliInteraction::handle_option_selection(Err(PromptError::Cancelled));
    let interrupted =
        EnhancedCliInteraction::handle_option_selection(Err(PromptError::Interrupted));
    match EnhancedCliInteraction::handle_custom_input(Err(PromptError::Interrupted)) {
        Err(McpError::UserCancelled(m)) => assert_eq!(m, "用户取消了操作"),
        other => panic!("{:?}", other),
    }
    for step in [picked_cancel, aborted, interrupted] {
        let error = match step {
            SelectionStep::Fail(error) => error,
            other => panic!("{:?}", other),
        };
        assert!(matches!(error, McpError::UserCancelled(_)));
        let mut flow = InteractionTool::zhi(&request(&["A", "B"], None));
        flow.advance(FlowEvent::UiFailed { terminal_enabled: Some(false) });
        flow.advance(FlowEvent::InlineFailed(error));
        match answer_of(&flow) {
            Some(Err(McpError::UserCancelled(m))) => assert_eq!(m, "用户取消了操作"),
            other => panic!("{:?}", other),
        }
    }
}
