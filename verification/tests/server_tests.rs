use cunzhi_cli::config::AppConfig;
use cunzhi_cli::json::{parse, Json};
use cunzhi_cli::server::{
    build_mcp_response, error_response, http_route, Dispatch, HttpAction, HttpBody, HttpRoute,
    LineAction, Routed, ToolCall, ZhiServer,
};
use cunzhi_cli::types::{
    build_continue_response, build_mcp_response_at, build_send_response, CallToolResult, Content,
    ImageAttachment, JiyiRequest, McpError, PopupRequest, ZhiRequest,
};

fn respond(server: &ZhiServer, line: &str) -> String {
    match server.handle_jsonrpc_request(line, None) {
        Dispatch::Respond(text) => text,
        other => panic!("expected a reply, got {:?}", other),
    }
}

fn fail(server: &ZhiServer, line: &str) -> String {
    match server.handle_jsonrpc_request(line, None) {
        Dispatch::Fail(message) => message,
        other => panic!("expected a failure, got {:?}", other),
    }
}

#[test]
fn initialize_returns_protocol_and_capabilities() {
    let server = ZhiServer::new(None);
    assert_eq!(
        respond(&server, r#"{"jsonrpc":"2.0","method":"initialize","id":1}"#),
        r#"{"id":1,"jsonrpc":"2.0","result":{"capabilities":{"tools":{}},"protocolVersion":"2024-11-05","serverInfo":{"name":"cunzhi-cli","version":"0.2.12"}}}"#
    );
}

#[test]
fn the_id_is_echoed_whatever_it_is() {
    let server = ZhiServer::new(None);
    let reply = respond(&server, r#"{"method":"initialize","id":"abc"}"#);
    assert!(reply.starts_with(r#"{"id":"abc","jsonrpc":"2.0","result":"#));
    let reply = respond(&server, r#"{"method":"initialize"}"#);
    assert!(reply.starts_with(r#"{"id":null,"jsonrpc":"2.0","result":"#));
    let reply = respond(&server, r#"{"method":"initialize","id":[1,{"a":2.5}]}"#);
    assert!(reply.starts_with(r#"{"id":[1,{"a":2.5}],"jsonrpc":"2.0","result":"#));
}

#[test]
fn tools_list_names_each_tool_with_its_schema() {
    let server = ZhiServer::new(None);
    let reply = respond(&server, r#"{"method":"tools/list","id":7}"#);
    let parsed = parse(&reply).unwrap();
    let tools = parsed.get("result").unwrap().get("tools").unwrap().as_array().unwrap();
    let names: Vec<&str> = tools.iter().map(|t| t.get("name").unwrap().as_str().unwrap()).collect();
    assert_eq!(names, vec!["zhi", "zhi_cunzhi", "ji", "ji_cunzhi"]);
    let zhi = &tools[0];
    assert_eq!(zhi.get("description").unwrap().as_str(), Some("智能代码审查工具"));
    let schema = zhi.get("inputSchema").unwrap();
    assert_eq!(schema.get("type").unwrap().as_str(), Some("object"));
    let required = schema.get("required").unwrap().as_array().unwrap();
    assert_eq!(required.len(), 1);
    assert_eq!(required[0].as_str(), Some("message"));
    let properties = schema.get("properties").unwrap();
    assert_eq!(
        properties.get("terminal_mode").unwrap().get("default").unwrap().as_bool(),
        Some(false)
    );
    assert_eq!(properties.get("is_markdown").unwrap().get("default").unwrap().as_bool(), Some(true));
    let ji = &tools[2];
    let required = ji.get("inputSchema").unwrap().get("required").unwrap().as_array().unwrap();
    assert_eq!(required.len(), 2);
    assert_eq!(
        ji.get("inputSchema")
            .unwrap()
            .get("properties")
            .unwrap()
            .get("category")
            .unwrap()
            .get("default")
            .unwrap()
            .as_str(),
        Some("context")
    );
}

#[test]
fn tools_list_leaves_out_a_disabled_memory_tool() {
    let mut config = AppConfig::default();
    config.mcp_config.set_tool_enabled("ji", false);
    let server = ZhiServer::new(None);
    let tools = server.list_tools(Some(&config));
    let names: Vec<&str> = tools.iter().map(|t| t.name.as_str()).collect();
    assert_eq!(names, vec!["zhi", "zhi_cunzhi"]);
    assert!(tools.iter().all(|t| t.enabled));
    config.mcp_config.set_tool_enabled("zhi", false);
    let tools = server.list_tools(Some(&config));
    assert!(tools.is_empty());
}

#[test]
fn tools_list_shows_the_enabled_tools_only() {
    let server = ZhiServer::new(None);
    for (zhi_on, ji_on) in [(true, true), (true, false), (false, true), (false, false)] {
        let mut config = AppConfig::default();
        config.mcp_config.set_tool_enabled("zhi", zhi_on);
        config.mcp_config.set_tool_enabled("ji", ji_on);
        let mut expected: Vec<&str> = Vec::new();
        if zhi_on {
            expected.extend(["zhi", "zhi_cunzhi"]);
        }
        if ji_on {
            expected.extend(["ji", "ji_cunzhi"]);
        }
        let tools = server.list_tools(Some(&config));
        let names: Vec<&str> = tools.iter().map(|t| t.name.as_str()).collect();
        assert_eq!(names, expected);
        assert!(tools.iter().all(|t| t.enabled));

        let reply = match server.handle_jsonrpc_request(r#"{"method":"tools/list","id":1}"#, Some(&config)) {
            Dispatch::Respond(text) => text,
            other => panic!("{:?}", other),
        };
        let parsed = parse(&reply).unwrap();
        let listed = parsed.get("result").unwrap().get("tools").unwrap().as_array().unwrap();
        let names: Vec<&str> =
            listed.iter().map(|t| t.get("name").unwrap().as_str().unwrap()).collect();
        assert_eq!(names, expected);
    }
}

#[test]
fn the_configuration_read_now_wins_over_the_one_at_start() {
    let mut config = AppConfig::default();
    config.mcp_config.set_tool_enabled("ji", false);
    let server = ZhiServer::new(Some(config));
    assert!(!server.is_tool_enabled("ji", None));
    assert!(server.is_tool_enabled("ji", Some(&AppConfig::default())));
    assert_eq!(server.get_enabled_tools(None), vec!["zhi".to_string()]);
}

#[test]
fn a_parse_failure_is_a_failure_not_a_crash() {
    let server = ZhiServer::new(None);
    let message = fail(&server, "{ not json");
    assert!(message.starts_with("JSON 解析失败: "), "{}", message);
    match server.line_action("{ not json", None) {
        LineAction::Write(text) => {
            let parsed = parse(&text).unwrap();
            assert_eq!(parsed.get("jsonrpc").unwrap().as_str(), Some("2.0"));
            assert!(parsed.get("id").unwrap().is_null());
            let error = parsed.get("error").unwrap();
            match error.get("code").unwrap() {
                Json::Number(n) => assert_eq!(n, "-32000"),
                other => panic!("{:?}", other),
            }
            assert_eq!(error.get("message").unwrap().as_str(), Some(message.as_str()));
        }
        other => panic!("{:?}", other),
    }
}

#[test]
fn error_reply_has_the_fixed_envelope() {
    assert_eq!(
        error_response("boom \"x\""),
        r#"{"error":{"code":-32000,"message":"boom \"x\""},"id":null,"jsonrpc":"2.0"}"#
    );
}

#[test]
fn an_unknown_method_fails() {
    let server = ZhiServer::new(None);
    assert_eq!(fail(&server, r#"{"method":"nope","id":1}"#), "未知方法: nope");
    assert_eq!(fail(&server, r#"{"id":1}"#), "未知方法: ");
    assert_eq!(fail(&server, r#"[1,2]"#), "未知方法: ");
    assert_eq!(fail(&server, r#"{"method":5}"#), "未知方法: ");
}

#[test]
fn a_blank_line_is_skipped() {
    let server = ZhiServer::new(None);
    assert!(matches!(server.line_action("", None), LineAction::Skip));
    assert!(matches!(server.line_action("   \t ", None), LineAction::Skip));
    assert!(matches!(server.line_action(" {\"method\":\"initialize\"} ", None), LineAction::Write(_)));
}

#[test]
fn a_tool_call_is_handed_to_the_caller() {
    let server = ZhiServer::new(None);
    let line = r#"{"method":"tools/call","id":3,"params":{"name":"zhi_cunzhi","arguments":{"message":"Pick one","predefined_options":["A","B"],"terminal_mode":false}}}"#;
    match server.handle_jsonrpc_request(line, None) {
        Dispatch::Call { call: ToolCall::Zhi(request), id } => {
            assert_eq!(request.message, "Pick one");
            assert_eq!(request.predefined_options, vec!["A".to_string(), "B".to_string()]);
            assert!(request.is_markdown);
            assert_eq!(request.terminal_mode, Some(false));
            match id {
                Json::Number(n) => assert_eq!(n, "3"),
                other => panic!("{:?}", other),
            }
        }
        other => panic!("{:?}", other),
    }
}

#[test]
fn tool_arguments_get_their_defaults() {
    let args = parse(r#"{"message":"m"}"#).unwrap();
    let request = ZhiRequest::from_json(&args).unwrap();
    assert_eq!(request.message, "m");
    assert!(request.predefined_options.is_empty());
    assert!(request.is_markdown);
    assert_eq!(request.terminal_mode, Some(false));
    let args = parse(r#"{"message":"m","is_markdown":false,"terminal_mode":null}"#).unwrap();
    let request = ZhiRequest::from_json(&args).unwrap();
    assert!(!request.is_markdown);
    assert_eq!(request.terminal_mode, None);
    let args = parse(r#"{"action":"回忆","project_path":"/p"}"#).unwrap();
    let request = JiyiRequest::from_json(&args).unwrap();
    assert_eq!(request.action, "回忆");
    assert_eq!(request.project_path, "/p");
    assert_eq!(request.content, "");
    assert_eq!(request.category, "context");
}

#[test]
fn malformed_tool_arguments_are_invalid_params() {
    let server = ZhiServer::new(None);
    let cases = vec![
        (r#"{}"#, "missing field `message`"),
        (r#"{"message":5}"#, "invalid type for field `message`, expected a string"),
        (
            r#"{"message":"m","predefined_options":"A"}"#,
            "invalid type for field `predefined_options`, expected an array of strings",
        ),
        (
            r#"{"message":"m","predefined_options":["A",1]}"#,
            "invalid type for field `predefined_options`, expected an array of strings",
        ),
        (
            r#"{"message":"m","is_markdown":"yes"}"#,
            "invalid type for field `is_markdown`, expected a boolean",
        ),
        (
            r#"{"message":"m","terminal_mode":1}"#,
            "invalid type for field `terminal_mode`, expected a boolean or null",
        ),
        (r#"null"#, "invalid type: expected an object"),
    ];
    for (arguments, fault) in cases {
        let args = parse(arguments).unwrap();
        match server.call_tool("zhi", &args, None) {
            Err(McpError::InvalidParams(message)) => {
                assert_eq!(message, format!("参数解析失败: {}", fault))
            }
            other => panic!("{:?}", other),
        }
    }
    let line = r#"{"method":"tools/call","id":3,"params":{"name":"zhi"}}"#;
    assert_eq!(
        fail(&server, line),
        "工具调用失败: Invalid parameters: 参数解析失败: invalid type: expected an object"
    );
}

#[test]
fn an_unknown_tool_is_method_not_found() {
    let server = ZhiServer::new(None);
    match server.call_tool("other", &Json::Null, None) {
        Err(McpError::MethodNotFound(message)) => {
            assert_eq!(message, "未知的工具: other (标准化后: other)")
        }
        other => panic!("{:?}", other),
    }
    let line = r#"{"method":"tools/call","params":{"arguments":{}}}"#;
    assert_eq!(fail(&server, line), "工具调用失败: Method not found: 未知的工具:  (标准化后: )");
}

#[test]
fn a_disabled_memory_tool_is_an_internal_error() {
    let mut config = AppConfig::default();
    config.mcp_config.set_tool_enabled("ji", false);
    let server = ZhiServer::new(None);
    let args = parse(r#"{"action":"回忆","project_path":"/p"}"#).unwrap();
    match server.call_tool("ji_cunzhi", &args, Some(&config)) {
        Err(McpError::InternalError(message)) => assert_eq!(message, "记忆管理工具已被禁用"),
        other => panic!("{:?}", other),
    }
    match server.call_tool("ji_cunzhi", &args, None) {
        Ok(ToolCall::Ji(request)) => assert_eq!(request.action, "回忆"),
        other => panic!("{:?}", other),
    }
    match server.call_tool("ji", &Json::Null, Some(&config)) {
        Err(McpError::InternalError(_)) => {}
        other => panic!("{:?}", other),
    }
}

#[test]
fn route_gives_the_result_before_it_is_printed() {
    let server = ZhiServer::new(None);
    let request = parse(r#"{"method":"initialize","id":9}"#).unwrap();
    match server.route(&request, None) {
        Routed::Result(result) => {
            assert_eq!(result.get("protocolVersion").unwrap().as_str(), Some("2024-11-05"))
        }
        other => panic!("{:?}", other),
    }
}

#[test]
fn the_reply_to_a_tool_call_wraps_its_content() {
    let id = Json::number("3");
    let result = CallToolResult::success(vec![Content::text("用户选择: A".to_string())]);
    assert_eq!(
        ZhiServer::tool_reply(&id, Ok(result)),
        Ok(r#"{"id":3,"jsonrpc":"2.0","result":{"content":[{"text":"用户选择: A","type":"text"}]}}"#
            .to_string())
    );
    assert_eq!(
        ZhiServer::tool_reply(&id, Err(McpError::internal_error("x".to_string(), None))),
        Err("工具调用失败: Internal error: x".to_string())
    );
    assert_eq!(
        ZhiServer::finish_call(&id, Err(McpError::timeout("t".to_string()))),
        r#"{"error":{"code":-32000,"message":"工具调用失败: Timeout: t"},"id":null,"jsonrpc":"2.0"}"#
    );
    let with_notes = Content {
        content_type: "text".to_string(),
        text: "t".to_string(),
        annotations: Some(Json::Bool(true)),
    };
    let result = CallToolResult { content: vec![with_notes], is_error: None };
    assert_eq!(
        ZhiServer::finish_call(&Json::Null, Ok(result)),
        r#"{"id":null,"jsonrpc":"2.0","result":{"content":[{"annotations":true,"text":"t","type":"text"}]}}"#
    );
}

#[test]
fn errors_show_their_kind() {
    assert_eq!(McpError::invalid_params("a".to_string(), None).to_string(), "Invalid parameters: a");
    assert_eq!(McpError::internal_error("b".to_string(), None).to_string(), "Internal error: b");
    assert_eq!(McpError::invalid_request("c".to_string(), None).to_string(), "Method not found: c");
    assert_eq!(McpError::timeout("d".to_string()).to_string(), "Timeout: d");
    assert_eq!(McpError::user_cancelled("e".to_string()).to_string(), "User cancelled: e");
}

#[test]
fn call_tool_result_constructors() {
    let ok = CallToolResult::success(vec![Content::text("a".to_string())]);
    assert_eq!(ok.is_error, None);
    assert_eq!(ok.content.len(), 1);
    assert_eq!(ok.content[0].content_type, "text");
    let bad = CallToolResult::error("oops".to_string());
    assert_eq!(bad.is_error, Some(true));
    assert_eq!(bad.content[0].text, "oops");
    assert!(bad.content[0].annotations.is_none());
}

#[test]
fn http_routes() {
    assert_eq!(http_route("POST", "/mcp"), HttpRoute::Mcp);
    assert_eq!(http_route("OPTIONS", "/mcp"), HttpRoute::Preflight);
    assert_eq!(http_route("GET", "/health"), HttpRoute::Health);
    assert_eq!(http_route("GET", "/mcp"), HttpRoute::NotFound);
    assert_eq!(http_route("POST", "/health"), HttpRoute::NotFound);
    assert_eq!(http_route("post", "/mcp"), HttpRoute::NotFound);
}

fn reply(action: HttpAction) -> cunzhi_cli::server::HttpReply {
    match action {
        HttpAction::Reply(r) => r,
        other => panic!("{:?}", other),
    }
}

fn header_names(r: &cunzhi_cli::server::HttpReply) -> Vec<(&str, &str)> {
    r.headers.iter().map(|h| (h.0.as_str(), h.1.as_str())).collect()
}

#[test]
fn http_replies() {
    let server = ZhiServer::new(None);
    let r = reply(server.handle_http_request("GET", "/nothing", HttpBody::Unreadable, None));
    assert_eq!((r.status, r.body.as_str()), (404, "Not Found"));
    assert!(r.headers.is_empty());

    let r = reply(server.handle_http_request("POST", "/mcp", HttpBody::Unreadable, None));
    assert_eq!((r.status, r.body.as_str()), (400, "Failed to read request body"));
    let r = reply(server.handle_http_request("POST", "/mcp", HttpBody::InvalidUtf8, None));
    assert_eq!((r.status, r.body.as_str()), (400, "Invalid UTF-8 in request body"));

    let r = reply(server.handle_http_request("OPTIONS", "/mcp", HttpBody::Unreadable, None));
    assert_eq!(r.status, 200);
    assert_eq!(r.body, "");
    assert_eq!(
        header_names(&r),
        vec![
            ("Access-Control-Allow-Origin", "*"),
            ("Access-Control-Allow-Methods", "POST, OPTIONS"),
            ("Access-Control-Allow-Headers", "Content-Type"),
        ]
    );

    let r = reply(server.handle_http_request("GET", "/health", HttpBody::Unreadable, None));
    assert_eq!(r.status, 200);
    assert_eq!(header_names(&r), vec![("Content-Type", "application/json")]);
    assert_eq!(
        r.body,
        r#"{"server":"cunzhi-cli MCP Server","status":"healthy","tools":["zhi","ji"],"version":"0.2.12"}"#
    );

    let body = HttpBody::Text(r#"{"method":"initialize","id":1}"#.to_string());
    let r = reply(server.handle_http_request("POST", "/mcp", body, None));
    assert_eq!(r.status, 200);
    assert_eq!(
        header_names(&r),
        vec![
            ("Content-Type", "application/json"),
            ("Access-Control-Allow-Origin", "*"),
            ("Access-Control-Allow-Methods", "POST, OPTIONS"),
            ("Access-Control-Allow-Headers", "Content-Type"),
        ]
    );
    assert!(r.body.starts_with(r#"{"id":1,"jsonrpc":"2.0","result":"#));

    let body = HttpBody::Text("nonsense".to_string());
    let r = reply(server.handle_http_request("POST", "/mcp", body, None));
    assert_eq!(r.status, 500);
    assert_eq!(header_names(&r), vec![("Content-Type", "application/json")]);
    assert!(r.body.starts_with(r#"{"error":{"code":-32000,"message":"JSON 解析失败: "#));

    let body = HttpBody::Text(
        r#"{"method":"tools/call","id":1,"params":{"name":"zhi","arguments":{"message":"m"}}}"#
            .to_string(),
    );
    match server.handle_http_request("POST", "/mcp", body, None) {
        HttpAction::Call { call: ToolCall::Zhi(request), .. } => assert_eq!(request.message, "m"),
        other => panic!("{:?}", other),
    }
    let r = ZhiServer::http_tool_reply(
        &Json::number("1"),
        Err(McpError::user_cancelled("no".to_string())),
    );
    assert_eq!(r.status, 500);
    assert!(r.body.contains("User cancelled: no"));
}

#[test]
fn structured_answers() {
    let image = ImageAttachment {
        data: "aGk=".to_string(),
        media_type: "image/png".to_string(),
        filename: None,
    };
    let j = build_mcp_response_at(
        Some("hi".to_string()),
        vec!["A".to_string()],
        vec![image],
        None,
        "cli",
        "2024-01-01T00:00:00+00:00",
    );
    assert_eq!(
        cunzhi_cli::json::render(&j),
        r#"{"images":[{"data":"aGk=","filename":null,"media_type":"image/png"}],"metadata":{"request_id":null,"source":"cli","timestamp":"2024-01-01T00:00:00+00:00"},"selected_options":["A"],"user_input":"hi"}"#
    );
    let sent = build_send_response(None, vec![], vec![], Some("r1".to_string()), "popup");
    let parsed = parse(&sent).unwrap();
    assert!(parsed.get("user_input").unwrap().is_null());
    assert_eq!(parsed.get("metadata").unwrap().get("request_id").unwrap().as_str(), Some("r1"));
    assert_eq!(parsed.get("metadata").unwrap().get("source").unwrap().as_str(), Some("popup"));
    let stamp = parsed.get("metadata").unwrap().get("timestamp").unwrap().as_str().unwrap();
    assert!(stamp.len() >= 20 && stamp.contains('T'), "{}", stamp);

    let continued = build_continue_response(None, "cli", None);
    let parsed = parse(&continued).unwrap();
    assert_eq!(parsed.get("user_input").unwrap().as_str(), Some("请按照最佳实践继续"));
    let mut config = AppConfig::default();
    config.reply_config.continue_prompt = "go on".to_string();
    let continued = build_continue_response(None, "cli", Some(&config));
    let parsed = parse(&continued).unwrap();
    assert_eq!(parsed.get("user_input").unwrap().as_str(), Some("go on"));
    assert_eq!(parsed.get("selected_options").unwrap().as_array().unwrap().len(), 0);
}

#[test]
fn text_content_as_a_result() {
    assert_eq!(
        cunzhi_cli::json::render(&build_mcp_response("hello")),
        r#"{"content":[{"text":"hello","type":"text"}]}"#
    );
}

#[test]
fn popup_request_mirrors_the_request() {
    let request = ZhiRequest {
        message: "m".to_string(),
        predefined_options: vec![],
        is_markdown: true,
        terminal_mode: None,
    };
    let popup = PopupRequest::for_request(&request, "id-1".to_string());
    assert_eq!(popup.id, "id-1");
    assert_eq!(popup.message, "m");
    assert_eq!(popup.predefined_options, None);
    assert!(popup.is_markdown);
    let request = ZhiRequest {
        message: "m".to_string(),
        predefined_options: vec!["A".to_string(), "B".to_string()],
        is_markdown: false,
        terminal_mode: Some(true),
    };
    let popup = PopupRequest::for_request(&request, "id-2".to_string());
    assert_eq!(popup.predefined_options, Some(vec!["A".to_string(), "B".to_string()]));
    assert!(!popup.is_markdown);
}
