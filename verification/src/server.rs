//! The JSON-RPC dispatcher: one request in, one well-formed reply out, or a
//! tool call for the caller to run.

use crate::config::{enabled_names, value_of, AppConfig, ToolMap, VERSION};
use crate::json::{
    entry, items_model, object0, object1, object2, object3, object4, parse, parse_outcome, render,
    rendered, string_list1, string_list2, string_list4, value_built, Json, JsonModel,
};
use crate::text::{decimal, push_decimal, str_eq, trim, trimmed, views};
use crate::types::{
    content_views, jiyi_request_of, zhi_request_of, CallToolResult, CallToolResultView, Content,
    ContentView, JiyiRequest, JiyiRequestView, McpError, McpErrorView, ZhiRequest, ZhiRequestView,
};
use vstd::prelude::*;

verus! {

/// How the server is reached.
#[derive(Debug, Clone)]
pub enum ServerMode {
    /// One request per line of standard input.
    Stdio,
    /// One request per HTTP body.
    Http { port: u16 },
}

/// A tool as the server lists it.
#[derive(Debug, Clone)]
pub struct ToolInfo {
    pub name: String,
    pub description: String,
    pub enabled: bool,
}

/// The view of a [`ToolInfo`].
pub struct ToolInfoView {
    pub name: Seq<char>,
    pub description: Seq<char>,
    pub enabled: bool,
}

impl View for ToolInfo {
    type V = ToolInfoView;

    open spec fn view(&self) -> ToolInfoView {
        ToolInfoView { name: self.name@, description: self.description@, enabled: self.enabled }
    }
}

/// The views of a vector of tools.
pub open spec fn tool_views(v: Seq<ToolInfo>) -> Seq<ToolInfoView> {
    Seq::new(v.len(), |i: int| v[i]@)
}

/// A tool that the caller is to run.
#[derive(Debug, Clone)]
pub enum ToolCall {
    Zhi(ZhiRequest),
    Ji(JiyiRequest),
}

/// The view of a [`ToolCall`].
pub enum ToolCallView {
    Zhi(ZhiRequestView),
    Ji(JiyiRequestView),
}

impl View for ToolCall {
    type V = ToolCallView;

    open spec fn view(&self) -> ToolCallView {
        match self {
            ToolCall::Zhi(q) => ToolCallView::Zhi(q@),
            ToolCall::Ji(q) => ToolCallView::Ji(q@),
        }
    }
}

/// What a request comes to.
#[derive(Debug)]
pub enum Dispatch {
    /// The reply is ready: this text goes out.
    Respond(String),
    /// The request failed with this message.
    Fail(String),
    /// The request calls a tool; its reply is made from what the tool hands
    /// back and `id`.
    Call { call: ToolCall, id: Json },
}

/// The view of a [`Dispatch`].
pub enum DispatchView {
    Respond(Seq<char>),
    Fail(Seq<char>),
    Call { call: ToolCallView, id: JsonModel },
}

impl View for Dispatch {
    type V = DispatchView;

    open spec fn view(&self) -> DispatchView {
        match self {
            Dispatch::Respond(t) => DispatchView::Respond(t@),
            Dispatch::Fail(m) => DispatchView::Fail(m@),
            Dispatch::Call { call, id } => DispatchView::Call { call: call@, id: id@ },
        }
    }
}

/// A tool is enabled unless the map says `false` for it.
pub open spec fn tool_enabled(tools: Seq<(Seq<char>, bool)>, name: Seq<char>) -> bool {
    value_of(tools, name) != Some(false)
}

/// The interaction tool under its two names.
pub open spec fn zhi_tools() -> Seq<ToolInfoView> {
    seq![
        ToolInfoView { name: "zhi"@, description: "智能代码审查工具"@, enabled: true },
        ToolInfoView {
            name: "zhi_cunzhi"@,
            description: "智能代码审查工具 (Augment 兼容)"@,
            enabled: true,
        },
    ]
}

/// The memory tool under its two names.
pub open spec fn ji_tools() -> Seq<ToolInfoView> {
    seq![
        ToolInfoView { name: "ji"@, description: "记忆管理工具"@, enabled: true },
        ToolInfoView {
            name: "ji_cunzhi"@,
            description: "记忆管理工具 (Augment 兼容)"@,
            enabled: true,
        },
    ]
}

/// The tools as listed: the enabled ones only. The interaction tool comes
/// first, then the memory tool, each under its two names and each exactly
/// where it is enabled.
pub open spec fn listed_tools(zhi_enabled: bool, ji_enabled: bool) -> Seq<ToolInfoView> {
    (if zhi_enabled {
        zhi_tools()
    } else {
        Seq::empty()
    }) + (if ji_enabled {
        ji_tools()
    } else {
        Seq::empty()
    })
}

/// Whether a tool of the name `name` is among `tools`.
pub open spec fn lists(tools: Seq<ToolInfoView>, name: Seq<char>) -> bool {
    exists|i: int| 0 <= i < tools.len() && (#[trigger] tools[i]).name == name
}

/// Only enabled tools are listed: every listed tool is enabled, no name is
/// listed twice, and each tool is listed, under both of its names, exactly
/// where it is enabled.
pub proof fn lemma_only_enabled_listed(zhi_enabled: bool, ji_enabled: bool)
    ensures
        forall|i: int|
            0 <= i < listed_tools(zhi_enabled, ji_enabled).len() ==> (#[trigger] listed_tools(
                zhi_enabled,
                ji_enabled,
            )[i]).enabled,
        forall|i: int, j: int|
            0 <= i < j < listed_tools(zhi_enabled, ji_enabled).len() ==> listed_tools(
                zhi_enabled,
                ji_enabled,
            )[i].name != listed_tools(zhi_enabled, ji_enabled)[j].name,
        lists(listed_tools(zhi_enabled, ji_enabled), "zhi"@) == zhi_enabled,
        lists(listed_tools(zhi_enabled, ji_enabled), "zhi_cunzhi"@) == zhi_enabled,
        lists(listed_tools(zhi_enabled, ji_enabled), "ji"@) == ji_enabled,
        lists(listed_tools(zhi_enabled, ji_enabled), "ji_cunzhi"@) == ji_enabled,
        listed_tools(zhi_enabled, ji_enabled).len() == (if zhi_enabled {
            2int
        } else {
            0int
        }) + (if ji_enabled {
            2int
        } else {
            0int
        }),
{
    reveal_strlit("zhi");
    reveal_strlit("zhi_cunzhi");
    reveal_strlit("ji");
    reveal_strlit("ji_cunzhi");
    let tools = listed_tools(zhi_enabled, ji_enabled);
    assert("zhi"@.len() == 3 && "zhi_cunzhi"@.len() == 10 && "ji"@.len() == 2 && "ji_cunzhi"@.len()
        == 9);
    if zhi_enabled {
        assert(tools[0].name == "zhi"@);
        assert(tools[1].name == "zhi_cunzhi"@);
        if ji_enabled {
            assert(tools[2].name == "ji"@);
            assert(tools[3].name == "ji_cunzhi"@);
        }
    } else if ji_enabled {
        assert(tools[0].name == "ji"@);
        assert(tools[1].name == "ji_cunzhi"@);
    }
}

/// A property of a schema: its type and what it is for.
pub open spec fn property(kind: Seq<char>, description: Seq<char>) -> JsonModel {
    JsonModel::Object(
        seq![("type"@, JsonModel::Str(kind)), ("description"@, JsonModel::Str(description))],
    )
}

/// The arguments that the interaction tool takes.
pub open spec fn zhi_schema() -> JsonModel {
    JsonModel::Object(
        seq![
            ("type"@, JsonModel::Str("object"@)),
            (
                "properties"@,
                JsonModel::Object(
                    seq![
                        ("message"@, property("string"@, "要显示给用户的消息"@)),
                        (
                            "predefined_options"@,
                            JsonModel::Object(
                                seq![
                                    ("type"@, JsonModel::Str("array"@)),
                                    (
                                        "items"@,
                                        JsonModel::Object(
                                            seq![("type"@, JsonModel::Str("string"@))],
                                        ),
                                    ),
                                    ("description"@, JsonModel::Str("预定义的选项列表（可选）"@)),
                                ],
                            ),
                        ),
                        (
                            "is_markdown"@,
                            JsonModel::Object(
                                seq![
                                    ("type"@, JsonModel::Str("boolean"@)),
                                    (
                                        "description"@,
                                        JsonModel::Str("消息是否为Markdown格式，默认为true"@),
                                    ),
                                    ("default"@, JsonModel::Bool(true)),
                                ],
                            ),
                        ),
                        (
                            "terminal_mode"@,
                            JsonModel::Object(
                                seq![
                                    ("type"@, JsonModel::Str("boolean"@)),
                                    (
                                        "description"@,
                                        JsonModel::Str("是否在新终端窗口中启动交互，默认为false"@),
                                    ),
                                    ("default"@, JsonModel::Bool(false)),
                                ],
                            ),
                        ),
                    ],
                ),
            ),
            ("required"@, JsonModel::Array(seq![JsonModel::Str("message"@)])),
        ],
    )
}

/// The arguments that the memory tool takes.
pub open spec fn ji_schema() -> JsonModel {
    JsonModel::Object(
        seq![
            ("type"@, JsonModel::Str("object"@)),
            (
                "properties"@,
                JsonModel::Object(
                    seq![
                        (
                            "action"@,
                            JsonModel::Object(
                                seq![
                                    ("type"@, JsonModel::Str("string"@)),
                                    (
                                        "description"@,
                                        JsonModel::Str(
                                            "操作类型：记忆(添加记忆), 回忆(获取项目信息)"@,
                                        ),
                                    ),
                                    (
                                        "enum"@,
                                        JsonModel::Array(
                                            seq![JsonModel::Str("记忆"@), JsonModel::Str("回忆"@)],
                                        ),
                                    ),
                                ],
                            ),
                        ),
                        ("project_path"@, property("string"@, "项目路径（必需）"@)),
                        ("content"@, property("string"@, "记忆内容（记忆操作时必需）"@)),
                        (
                            "category"@,
                            JsonModel::Object(
                                seq![
                                    ("type"@, JsonModel::Str("string"@)),
                                    (
                                        "description"@,
                                        JsonModel::Str(
                                            "记忆分类：rule(规范规则), preference(用户偏好), pattern(最佳实践), context(项目上下文)"@,
                                        ),
                                    ),
                                    (
                                        "enum"@,
                                        JsonModel::Array(
                                            seq![
                                                JsonModel::Str("rule"@),
                                                JsonModel::Str("preference"@),
                                                JsonModel::Str("pattern"@),
                                                JsonModel::Str("context"@),
                                            ],
                                        ),
                                    ),
                                    ("default"@, JsonModel::Str("context"@)),
                                ],
                            ),
                        ),
                    ],
                ),
            ),
            (
                "required"@,
                JsonModel::Array(seq![JsonModel::Str("action"@), JsonModel::Str("project_path"@)]),
            ),
        ],
    )
}

/// The schema of a tool that takes nothing.
pub open spec fn empty_schema() -> JsonModel {
    JsonModel::Object(
        seq![
            ("type"@, JsonModel::Str("object"@)),
            ("properties"@, JsonModel::Object(Seq::empty())),
            ("required"@, JsonModel::Array(Seq::empty())),
        ],
    )
}

/// The schema of the tool named `name`.
pub open spec fn schema_for(name: Seq<char>) -> JsonModel {
    if name == "zhi"@ || name == "zhi_cunzhi"@ {
        zhi_schema()
    } else if name == "ji"@ || name == "ji_cunzhi"@ {
        ji_schema()
    } else {
        empty_schema()
    }
}

/// A tool as `tools/list` shows it.
pub open spec fn tool_model(tool: ToolInfoView) -> JsonModel {
    JsonModel::Object(
        seq![
            ("name"@, JsonModel::Str(tool.name)),
            ("description"@, JsonModel::Str(tool.description)),
            ("inputSchema"@, schema_for(tool.name)),
        ],
    )
}

/// The result of `tools/list`.
pub open spec fn tools_list_result(tools: Seq<ToolInfoView>) -> JsonModel {
    JsonModel::Object(
        seq![("tools"@, JsonModel::Array(Seq::new(tools.len(), |i: int| tool_model(tools[i]))))],
    )
}

/// The result of `initialize`: the protocol version and what the server can do.
pub open spec fn initialize_result() -> JsonModel {
    JsonModel::Object(
        seq![
            ("protocolVersion"@, JsonModel::Str("2024-11-05"@)),
            (
                "capabilities"@,
                JsonModel::Object(seq![("tools"@, JsonModel::Object(Seq::empty()))]),
            ),
            (
                "serverInfo"@,
                JsonModel::Object(
                    seq![
                        ("name"@, JsonModel::Str("cunzhi-cli"@)),
                        ("version"@, JsonModel::Str(VERSION@)),
                    ],
                ),
            ),
        ],
    )
}

/// A piece of a tool's result as JSON; its annotations only where it has any.
pub open spec fn content_model(content: ContentView) -> JsonModel {
    match content.annotations {
        Some(a) => JsonModel::Object(
            seq![
                ("type"@, JsonModel::Str(content.content_type)),
                ("text"@, JsonModel::Str(content.text)),
                ("annotations"@, a),
            ],
        ),
        None => JsonModel::Object(
            seq![
                ("type"@, JsonModel::Str(content.content_type)),
                ("text"@, JsonModel::Str(content.text)),
            ],
        ),
    }
}

/// The result of `tools/call`.
pub open spec fn tool_result_model(content: Seq<ContentView>) -> JsonModel {
    JsonModel::Object(
        seq![
            (
                "content"@,
                JsonModel::Array(Seq::new(content.len(), |i: int| content_model(content[i]))),
            ),
        ],
    )
}

/// The envelope of a successful reply.
pub open spec fn response_envelope(result: JsonModel, id: JsonModel) -> JsonModel {
    JsonModel::Object(
        seq![("jsonrpc"@, JsonModel::Str("2.0"@)), ("result"@, result), ("id"@, id)],
    )
}

/// The envelope of a failure: code -32000, the message, no id.
pub open spec fn error_envelope(message: Seq<char>) -> JsonModel {
    JsonModel::Object(
        seq![
            ("jsonrpc"@, JsonModel::Str("2.0"@)),
            (
                "error"@,
                JsonModel::Object(
                    seq![
                        ("code"@, JsonModel::Number("-32000"@)),
                        ("message"@, JsonModel::Str(message)),
                    ],
                ),
            ),
            ("id"@, JsonModel::Null),
        ],
    )
}

/// The canonical name of a tool: an alias gives the tool it stands for.
pub open spec fn normalized_tool(name: Seq<char>) -> Seq<char> {
    if name == "zhi_cunzhi"@ {
        "zhi"@
    } else if name == "ji_cunzhi"@ {
        "ji"@
    } else {
        name
    }
}

/// What a call of the tool `name` with `arguments` comes to: the tool to run,
/// or the error. An unknown name is `MethodNotFound`; arguments that cannot be
/// read are `InvalidParams`; the memory tool, where disabled, is
/// `InternalError`, whatever its arguments.
pub open spec fn tool_call_of(name: Seq<char>, arguments: JsonModel, ji_enabled: bool) -> Result<
    ToolCallView,
    McpErrorView,
> {
    let normalized = normalized_tool(name);
    if normalized == "zhi"@ {
        match zhi_request_of(arguments) {
            Ok(q) => Ok(ToolCallView::Zhi(q)),
            Err(e) => Err(McpErrorView::InvalidParams("参数解析失败: "@ + e)),
        }
    } else if normalized == "ji"@ {
        if !ji_enabled {
            Err(McpErrorView::InternalError("记忆管理工具已被禁用"@))
        } else {
            match jiyi_request_of(arguments) {
                Ok(q) => Ok(ToolCallView::Ji(q)),
                Err(e) => Err(McpErrorView::InvalidParams("参数解析失败: "@ + e)),
            }
        }
    } else {
        Err(
            McpErrorView::MethodNotFound(
                "未知的工具: "@ + name + " (标准化后: "@ + normalized + ")"@,
            ),
        )
    }
}

/// What a parsed request comes to, before anything is printed.
pub enum RoutedView {
    Result(JsonModel),
    Failure(Seq<char>),
    Call(ToolCallView),
}

/// Where a request goes by its method.
pub open spec fn route_of(request: JsonModel, zhi_enabled: bool, ji_enabled: bool) -> RoutedView {
    let method = request.member("method"@).text_or_empty();
    let params = request.member("params"@);
    if method == "initialize"@ {
        RoutedView::Result(initialize_result())
    } else if method == "tools/list"@ {
        RoutedView::Result(tools_list_result(listed_tools(zhi_enabled, ji_enabled)))
    } else if method == "tools/call"@ {
        match tool_call_of(
            params.member("name"@).text_or_empty(),
            params.member("arguments"@),
            ji_enabled,
        ) {
            Ok(call) => RoutedView::Call(call),
            Err(e) => RoutedView::Failure("工具调用失败: "@ + e.text()),
        }
    } else {
        RoutedView::Failure("未知方法: "@ + method)
    }
}

/// What a request text comes to.
pub open spec fn dispatch_of(
    parsed: Result<JsonModel, Seq<char>>,
    zhi_enabled: bool,
    ji_enabled: bool,
) -> DispatchView {
    match parsed {
        Err(e) => DispatchView::Fail("JSON 解析失败: "@ + e),
        Ok(request) => match route_of(request, zhi_enabled, ji_enabled) {
            RoutedView::Result(result) => DispatchView::Respond(
                rendered(value_built(response_envelope(result, request.member("id"@)))),
            ),
            RoutedView::Failure(m) => DispatchView::Fail(m),
            RoutedView::Call(call) => DispatchView::Call { call, id: request.member("id"@) },
        },
    }
}

/// What is written for a tool's outcome: the reply around its content, or the
/// failure message.
pub open spec fn tool_reply_of(id: JsonModel, outcome: Result<CallToolResultView, McpErrorView>)
    -> Result<Seq<char>, Seq<char>> {
    match outcome {
        Ok(result) => Ok(
            rendered(value_built(response_envelope(tool_result_model(result.content), id))),
        ),
        Err(e) => Err("工具调用失败: "@ + e.text()),
    }
}

/// The view of a tool's outcome.
pub open spec fn outcome_view(outcome: Result<CallToolResult, McpError>) -> Result<
    CallToolResultView,
    McpErrorView,
> {
    match outcome {
        Ok(r) => Ok(r@),
        Err(e) => Err(e@),
    }
}

fn tool_info(name: &str, description: &str, enabled: bool) -> (r: ToolInfo)
    ensures
        r@ == (ToolInfoView { name: name@, description: description@, enabled }),
{
    ToolInfo { name: name.to_string(), description: description.to_string(), enabled }
}

fn string_property(kind: &str, description: &str) -> (j: Json)
    ensures
        j@ == property(kind@, description@),
{
    object2(entry("type", Json::string(kind)), entry("description", Json::string(description)))
}

fn zhi_input_schema() -> (j: Json)
    ensures
        j@ == zhi_schema(),
{
    let options = object3(
        entry("type", Json::string("array")),
        entry("items", object1(entry("type", Json::string("string")))),
        entry("description", Json::string("预定义的选项列表（可选）")),
    );
    let markdown = object3(
        entry("type", Json::string("boolean")),
        entry("description", Json::string("消息是否为Markdown格式，默认为true")),
        entry("default", Json::Bool(true)),
    );
    let terminal = object3(
        entry("type", Json::string("boolean")),
        entry("description", Json::string("是否在新终端窗口中启动交互，默认为false")),
        entry("default", Json::Bool(false)),
    );
    let properties = object4(
        entry("message", string_property("string", "要显示给用户的消息")),
        entry("predefined_options", options),
        entry("is_markdown", markdown),
        entry("terminal_mode", terminal),
    );
    object3(
        entry("type", Json::string("object")),
        entry("properties", properties),
        entry("required", string_list1("message")),
    )
}

fn ji_input_schema() -> (j: Json)
    ensures
        j@ == ji_schema(),
{
    let action = object3(
        entry("type", Json::string("string")),
        entry("description", Json::string("操作类型：记忆(添加记忆), 回忆(获取项目信息)")),
        entry("enum", string_list2("记忆", "回忆")),
    );
    let category = object4(
        entry("type", Json::string("string")),
        entry(
            "description",
            Json::string(
                "记忆分类：rule(规范规则), preference(用户偏好), pattern(最佳实践), context(项目上下文)",
            ),
        ),
        entry("enum", string_list4("rule", "preference", "pattern", "context")),
        entry("default", Json::string("context")),
    );
    let properties = object4(
        entry("action", action),
        entry("project_path", string_property("string", "项目路径（必需）")),
        entry("content", string_property("string", "记忆内容（记忆操作时必需）")),
        entry("category", category),
    );
    object3(
        entry("type", Json::string("object")),
        entry("properties", properties),
        entry("required", string_list2("action", "project_path")),
    )
}

fn empty_input_schema() -> (j: Json)
    ensures
        j@ == empty_schema(),
{
    let none: Vec<Json> = Vec::new();
    assert(items_model(none@) =~= Seq::<JsonModel>::empty());
    object3(
        entry("type", Json::string("object")),
        entry("properties", object0()),
        entry("required", Json::array(none)),
    )
}

/// The schema of the arguments of the tool `name`.
pub fn input_schema(name: &str) -> (j: Json)
    ensures
        j@ == schema_for(name@),
{
    if str_eq(name, "zhi") || str_eq(name, "zhi_cunzhi") {
        zhi_input_schema()
    } else if str_eq(name, "ji") || str_eq(name, "ji_cunzhi") {
        ji_input_schema()
    } else {
        empty_input_schema()
    }
}

/// The result of `tools/list` for the given tools.
pub fn tools_list(tools: &Vec<ToolInfo>) -> (j: Json)
    ensures
        j@ == tools_list_result(tool_views(tools@)),
{
    let mut listed: Vec<Json> = Vec::new();
    let mut i: usize = 0;
    while i < tools.len()
        invariant
            i <= tools.len(),
            listed@.len() == i,
            forall|k: int| 0 <= k < i ==> (#[trigger] listed@[k])@ == tool_model(tools@[k]@),
        decreases tools.len() - i,
    {
        let tool = &tools[i];
        listed.push(
            object3(
                entry("name", Json::Str(tool.name.clone())),
                entry("description", Json::Str(tool.description.clone())),
                entry("inputSchema", input_schema(tool.name.as_str())),
            ),
        );
        i += 1;
    }
    proof {
        let shown = tool_views(tools@);
        assert(items_model(listed@) =~= Seq::new(shown.len(), |i: int| tool_model(shown[i])));
    }
    object1(entry("tools", Json::array(listed)))
}

/// The result of `initialize`.
pub fn initialize() -> (j: Json)
    ensures
        j@ == initialize_result(),
{
    object3(
        entry("protocolVersion", Json::string("2024-11-05")),
        entry("capabilities", object1(entry("tools", object0()))),
        entry(
            "serverInfo",
            object2(
                entry("name", Json::string("cunzhi-cli")),
                entry("version", Json::string(VERSION)),
            ),
        ),
    )
}

/// The result of `tools/call` around the content that the tool handed back.
pub fn tool_result(content: &Vec<Content>) -> (j: Json)
    ensures
        j@ == tool_result_model(content_views(content@)),
{
    let mut listed: Vec<Json> = Vec::new();
    let mut i: usize = 0;
    while i < content.len()
        invariant
            i <= content.len(),
            listed@.len() == i,
            forall|k: int| 0 <= k < i ==> (#[trigger] listed@[k])@ == content_model(content@[k]@),
        decreases content.len() - i,
    {
        let piece = &content[i];
        let shown = match &piece.annotations {
            Some(a) => object3(
                entry("type", Json::Str(piece.content_type.clone())),
                entry("text", Json::Str(piece.text.clone())),
                entry("annotations", a.clone()),
            ),
            None => object2(
                entry("type", Json::Str(piece.content_type.clone())),
                entry("text", Json::Str(piece.text.clone())),
            ),
        };
        listed.push(shown);
        i += 1;
    }
    proof {
        let shown = content_views(content@);
        assert(items_model(listed@) =~= Seq::new(shown.len(), |i: int| content_model(shown[i])));
    }
    object1(entry("content", Json::array(listed)))
}

/// The reply that carries `result` for the request `id`.
pub fn response(result: Json, id: Json) -> (j: Json)
    ensures
        j@ == response_envelope(result@, id@),
{
    object3(entry("jsonrpc", Json::string("2.0")), entry("result", result), entry("id", id))
}

/// The text of the error reply that carries `message`.
pub fn error_response(message: &str) -> (r: String)
    ensures
        r@ == rendered(value_built(error_envelope(message@))),
{
    let error = object2(
        entry("code", Json::number("-32000")),
        entry("message", Json::string(message)),
    );
    let j = object3(
        entry("jsonrpc", Json::string("2.0")),
        entry("error", error),
        entry("id", Json::Null),
    );
    render(&j)
}

/// The member `key` of `value`, or `null`.
pub fn member(value: &Json, key: &str) -> (r: Json)
    ensures
        r@ == value@.member(key@),
{
    match value.get(key) {
        Some(j) => j.clone(),
        None => Json::Null,
    }
}

/// The text of a string value, or the empty text.
pub fn text_or_empty(value: &Json) -> (r: String)
    ensures
        r@ == value@.text_or_empty(),
{
    match value.as_str() {
        Some(s) => s.to_string(),
        None => String::new(),
    }
}

/// A parsed request, routed.
#[derive(Debug)]
pub enum Routed {
    Result(Json),
    Failure(String),
    Call(ToolCall),
}

impl View for Routed {
    type V = RoutedView;

    open spec fn view(&self) -> RoutedView {
        match self {
            Routed::Result(j) => RoutedView::Result(j@),
            Routed::Failure(m) => RoutedView::Failure(m@),
            Routed::Call(c) => RoutedView::Call(c@),
        }
    }
}

/// The MCP server: the tools it offers and the requests it answers.
#[derive(Debug, Clone)]
pub struct ZhiServer {
    enabled_tools: ToolMap,
}

impl ZhiServer {
    /// The tool states that the server was made with.
    pub closed spec fn cached_tools(&self) -> Seq<(Seq<char>, bool)> {
        self.enabled_tools@
    }

    /// The tool states that hold now: those of the configuration just loaded,
    /// or the server's own where none could be loaded.
    pub open spec fn current_tools(&self, fresh: Option<&AppConfig>) -> Seq<(Seq<char>, bool)> {
        match fresh {
            Some(config) => config.mcp_config.tools@,
            None => self.cached_tools(),
        }
    }

    /// A server with the tools of the loaded configuration, or with both tools
    /// enabled where none could be loaded.
    pub fn new(loaded: Option<AppConfig>) -> (r: ZhiServer)
        ensures
            r.cached_tools() == match loaded {
                Some(config) => config.mcp_config.tools@,
                None => seq![("zhi"@, true), ("ji"@, true)],
            },
    {
        let enabled_tools = match loaded {
            Some(config) => config.mcp_config.tools,
            None => crate::config::default_mcp_tools(),
        };
        ZhiServer { enabled_tools }
    }

    fn tools<'a>(&'a self, fresh: Option<&'a AppConfig>) -> (r: &'a ToolMap)
        ensures
            r@ == self.current_tools(fresh),
    {
        match fresh {
            Some(config) => &config.mcp_config.tools,
            None => &self.enabled_tools,
        }
    }

    /// Whether a tool is enabled now. A tool that the configuration does not
    /// name is enabled.
    pub fn is_tool_enabled(&self, tool_name: &str, fresh: Option<&AppConfig>) -> (r: bool)
        ensures
            r == tool_enabled(self.current_tools(fresh), tool_name@),
    {
        match self.tools(fresh).get(tool_name) {
            Some(enabled) => enabled,
            None => true,
        }
    }

    /// The names of the tools that the configuration enables, in its order;
    /// none occurs twice.
    pub fn get_enabled_tools(&self, fresh: Option<&AppConfig>) -> (r: Vec<String>)
        ensures
            views(r@) == enabled_names(self.current_tools(fresh)),
            views(r@).no_duplicates(),
    {
        self.tools(fresh).enabled()
    }

    /// The tools as the server lists them: those that are enabled now.
    pub fn list_tools(&self, fresh: Option<&AppConfig>) -> (r: Vec<ToolInfo>)
        ensures
            tool_views(r@) == listed_tools(
                tool_enabled(self.current_tools(fresh), "zhi"@),
                tool_enabled(self.current_tools(fresh), "ji"@),
            ),
    {
        let zhi = self.is_tool_enabled("zhi", fresh);
        let ji = self.is_tool_enabled("ji", fresh);
        let mut tools: Vec<ToolInfo> = Vec::new();
        if zhi {
            tools.push(tool_info("zhi", "智能代码审查工具", true));
            tools.push(tool_info("zhi_cunzhi", "智能代码审查工具 (Augment 兼容)", true));
        }
        if ji {
            tools.push(tool_info("ji", "记忆管理工具", true));
            tools.push(tool_info("ji_cunzhi", "记忆管理工具 (Augment 兼容)", true));
        }
        assert(tool_views(tools@) =~= listed_tools(zhi, ji));
        tools
    }

    /// Reads the call of a tool: which tool, with which arguments.
    pub fn call_tool(&self, tool_name: &str, arguments: &Json, fresh: Option<&AppConfig>) -> (r:
        Result<ToolCall, McpError>)
        ensures
            match r {
                Ok(call) => tool_call_of(
                    tool_name@,
                    arguments@,
                    tool_enabled(self.current_tools(fresh), "ji"@),
                ) == Ok::<ToolCallView, McpErrorView>(call@),
                Err(e) => tool_call_of(
                    tool_name@,
                    arguments@,
                    tool_enabled(self.current_tools(fresh), "ji"@),
                ) == Err::<ToolCallView, McpErrorView>(e@),
            },
    {
        let normalized: &str = if str_eq(tool_name, "zhi_cunzhi") {
            "zhi"
        } else if str_eq(tool_name, "ji_cunzhi") {
            "ji"
        } else {
            tool_name
        };
        if str_eq(normalized, "zhi") {
            match ZhiRequest::from_json(arguments) {
                Ok(q) => Ok(ToolCall::Zhi(q)),
                Err(e) => {
                    let mut m = "参数解析失败: ".to_string();
                    m.append(e.as_str());
                    Err(McpError::invalid_params(m, None))
                },
            }
        } else if str_eq(normalized, "ji") {
            if !self.is_tool_enabled("ji", fresh) {
                return Err(McpError::internal_error("记忆管理工具已被禁用".to_string(), None));
            }
            match JiyiRequest::from_json(arguments) {
                Ok(q) => Ok(ToolCall::Ji(q)),
                Err(e) => {
                    let mut m = "参数解析失败: ".to_string();
                    m.append(e.as_str());
                    Err(McpError::invalid_params(m, None))
                },
            }
        } else {
            let mut m = "未知的工具: ".to_string();
            m.append(tool_name);
            m.append(" (标准化后: ");
            m.append(normalized);
            m.append(")");
            Err(McpError::invalid_request(m, None))
        }
    }

    /// Routes a parsed request by its method.
    pub fn route(&self, request: &Json, fresh: Option<&AppConfig>) -> (r: Routed)
        ensures
            r@ == route_of(
                request@,
                tool_enabled(self.current_tools(fresh), "zhi"@),
                tool_enabled(self.current_tools(fresh), "ji"@),
            ),
    {
        let method = text_or_empty(&member(request, "method"));
        let params = member(request, "params");
        if str_eq(method.as_str(), "initialize") {
            Routed::Result(initialize())
        } else if str_eq(method.as_str(), "tools/list") {
            let tools = self.list_tools(fresh);
            Routed::Result(tools_list(&tools))
        } else if str_eq(method.as_str(), "tools/call") {
            let tool_name = text_or_empty(&member(&params, "name"));
            let arguments = member(&params, "arguments");
            match self.call_tool(tool_name.as_str(), &arguments, fresh) {
                Ok(call) => Routed::Call(call),
                Err(e) => {
                    let mut m = "工具调用失败: ".to_string();
                    m.append(e.to_string().as_str());
                    Routed::Failure(m)
                },
            }
        } else {
            let mut m = "未知方法: ".to_string();
            m.append(method.as_str());
            Routed::Failure(m)
        }
    }

    /// Handles one request text: parses it, routes it, and prints the reply
    /// where one is due at once.
    pub fn handle_jsonrpc_request(&self, request: &str, fresh: Option<&AppConfig>) -> (r:
        Dispatch)
        ensures
            r@ == dispatch_of(
                parse_outcome(request@),
                tool_enabled(self.current_tools(fresh), "zhi"@),
                tool_enabled(self.current_tools(fresh), "ji"@),
            ),
    {
        match parse(request) {
            Err(e) => {
                let mut m = "JSON 解析失败: ".to_string();
                m.append(e.as_str());
                Dispatch::Fail(m)
            },
            Ok(parsed) => {
                let id = member(&parsed, "id");
                match self.route(&parsed, fresh) {
                    Routed::Result(result) => Dispatch::Respond(render(&response(result, id))),
                    Routed::Failure(m) => Dispatch::Fail(m),
                    Routed::Call(call) => Dispatch::Call { call, id },
                }
            },
        }
    }

    /// What is written once a tool has run: the reply around what it handed
    /// back, or the failure message.
    pub fn tool_reply(id: &Json, outcome: Result<CallToolResult, McpError>) -> (r: Result<
        String,
        String,
    >)
        ensures
            match r {
                Ok(t) => tool_reply_of(id@, outcome_view(outcome)) == Ok::<Seq<char>, Seq<char>>(
                    t@,
                ),
                Err(m) => tool_reply_of(id@, outcome_view(outcome)) == Err::<Seq<char>, Seq<char>>(
                    m@,
                ),
            },
    {
        match outcome {
            Ok(result) => Ok(render(&response(tool_result(&result.content), id.clone()))),
            Err(e) => {
                let mut m = "工具调用失败: ".to_string();
                m.append(e.to_string().as_str());
                Err(m)
            },
        }
    }
}


/// What the stdio loop does with one line.
#[derive(Debug)]
pub enum LineAction {
    /// A blank line: nothing is written.
    Skip,
    /// This text is written as one line.
    Write(String),
    /// A tool is to run; [`ZhiServer::finish_call`] gives the line to write.
    Call { call: ToolCall, id: Json },
}

/// The view of a [`LineAction`].
pub enum LineActionView {
    Skip,
    Write(Seq<char>),
    Call { call: ToolCallView, id: JsonModel },
}

impl View for LineAction {
    type V = LineActionView;

    open spec fn view(&self) -> LineActionView {
        match self {
            LineAction::Skip => LineActionView::Skip,
            LineAction::Write(t) => LineActionView::Write(t@),
            LineAction::Call { call, id } => LineActionView::Call { call: call@, id: id@ },
        }
    }
}

/// What one line of input comes to: nothing for a blank line; else the reply,
/// the error reply for a failure, or a tool call.
pub open spec fn line_action_of(
    line: Seq<char>,
    parsed: Result<JsonModel, Seq<char>>,
    zhi_enabled: bool,
    ji_enabled: bool,
) -> LineActionView {
    if trimmed(line).len() == 0 {
        LineActionView::Skip
    } else {
        match dispatch_of(parsed, zhi_enabled, ji_enabled) {
            DispatchView::Respond(t) => LineActionView::Write(t),
            DispatchView::Fail(m) => LineActionView::Write(
                rendered(value_built(error_envelope(m))),
            ),
            DispatchView::Call { call, id } => LineActionView::Call { call, id },
        }
    }
}

/// The line written for a tool's outcome: the reply, or the error reply.
pub open spec fn finished_line(
    id: JsonModel,
    outcome: Result<CallToolResultView, McpErrorView>,
) -> Seq<char> {
    match tool_reply_of(id, outcome) {
        Ok(t) => t,
        Err(m) => rendered(value_built(error_envelope(m))),
    }
}

/// An HTTP reply: status, headers in order, body.
#[derive(Debug, Clone)]
pub struct HttpReply {
    pub status: u16,
    pub headers: Vec<(String, String)>,
    pub body: String,
}

/// The view of an [`HttpReply`].
pub struct HttpReplyView {
    pub status: u16,
    pub headers: Seq<(Seq<char>, Seq<char>)>,
    pub body: Seq<char>,
}

impl View for HttpReply {
    type V = HttpReplyView;

    open spec fn view(&self) -> HttpReplyView {
        HttpReplyView {
            status: self.status,
            headers: Seq::new(
                self.headers@.len(),
                |i: int| (self.headers@[i].0@, self.headers@[i].1@),
            ),
            body: self.body@,
        }
    }
}

/// The body of an HTTP request, as far as it could be read.
#[derive(Debug, Clone)]
pub enum HttpBody {
    /// Reading the body failed.
    Unreadable,
    /// The body is not UTF-8.
    InvalidUtf8,
    Text(String),
}

/// Where an HTTP request goes.
#[derive(Debug, Clone, Copy, PartialEq, Eq, Structural)]
pub enum HttpRoute {
    /// `POST /mcp`: a JSON-RPC request.
    Mcp,
    /// `OPTIONS /mcp`: a CORS preflight.
    Preflight,
    /// `GET /health`.
    Health,
    NotFound,
}

/// What the HTTP handler does with one request.
#[derive(Debug)]
pub enum HttpAction {
    Reply(HttpReply),
    /// A tool is to run; [`ZhiServer::http_tool_reply`] gives the reply.
    Call { call: ToolCall, id: Json },
}

/// The view of an [`HttpAction`].
pub enum HttpActionView {
    Reply(HttpReplyView),
    Call { call: ToolCallView, id: JsonModel },
}

impl View for HttpAction {
    type V = HttpActionView;

    open spec fn view(&self) -> HttpActionView {
        match self {
            HttpAction::Reply(r) => HttpActionView::Reply(r@),
            HttpAction::Call { call, id } => HttpActionView::Call { call: call@, id: id@ },
        }
    }
}

/// The route of a method and a path.
pub open spec fn http_route_of(method: Seq<char>, path: Seq<char>) -> HttpRoute {
    if method == "POST"@ && path == "/mcp"@ {
        HttpRoute::Mcp
    } else if method == "OPTIONS"@ && path == "/mcp"@ {
        HttpRoute::Preflight
    } else if method == "GET"@ && path == "/health"@ {
        HttpRoute::Health
    } else {
        HttpRoute::NotFound
    }
}

/// The headers that open `/mcp` to pages of any origin.
pub open spec fn cors_headers() -> Seq<(Seq<char>, Seq<char>)> {
    seq![
        ("Access-Control-Allow-Origin"@, "*"@),
        ("Access-Control-Allow-Methods"@, "POST, OPTIONS"@),
        ("Access-Control-Allow-Headers"@, "Content-Type"@),
    ]
}

/// The header of a JSON body.
pub open spec fn json_header() -> Seq<(Seq<char>, Seq<char>)> {
    seq![("Content-Type"@, "application/json"@)]
}

/// A reply of plain text without headers.
pub open spec fn plain_reply(status: u16, body: Seq<char>) -> HttpReplyView {
    HttpReplyView { status, headers: Seq::empty(), body }
}

/// The reply to a JSON-RPC request over HTTP: 200 with the reply text, or 500
/// with the error reply.
pub open spec fn mcp_reply(outcome: Result<Seq<char>, Seq<char>>) -> HttpReplyView {
    match outcome {
        Ok(text) => HttpReplyView { status: 200, headers: json_header() + cors_headers(), body: text },
        Err(m) => HttpReplyView {
            status: 500,
            headers: json_header(),
            body: rendered(value_built(error_envelope(m))),
        },
    }
}

/// The body of `GET /health`.
pub open spec fn health_model(tools: Seq<Seq<char>>) -> JsonModel {
    JsonModel::Object(
        seq![
            ("status"@, JsonModel::Str("healthy"@)),
            ("server"@, JsonModel::Str("cunzhi-cli MCP Server"@)),
            ("version"@, JsonModel::Str(VERSION@)),
            ("tools"@, crate::json::text_array(tools)),
        ],
    )
}

/// What an HTTP request comes to. The body counts for `POST /mcp` alone.
pub open spec fn http_action_of(
    route: HttpRoute,
    body: HttpBody,
    parsed: Result<JsonModel, Seq<char>>,
    tools: Seq<(Seq<char>, bool)>,
) -> HttpActionView {
    match route {
        HttpRoute::Mcp => match body {
            HttpBody::Unreadable => HttpActionView::Reply(
                plain_reply(400, "Failed to read request body"@),
            ),
            HttpBody::InvalidUtf8 => HttpActionView::Reply(
                plain_reply(400, "Invalid UTF-8 in request body"@),
            ),
            HttpBody::Text(_) => match dispatch_of(
                parsed,
                tool_enabled(tools, "zhi"@),
                tool_enabled(tools, "ji"@),
            ) {
                DispatchView::Respond(t) => HttpActionView::Reply(mcp_reply(Ok(t))),
                DispatchView::Fail(m) => HttpActionView::Reply(mcp_reply(Err(m))),
                DispatchView::Call { call, id } => HttpActionView::Call { call, id },
            },
        },
        HttpRoute::Preflight => HttpActionView::Reply(
            HttpReplyView { status: 200, headers: cors_headers(), body: Seq::empty() },
        ),
        HttpRoute::Health => HttpActionView::Reply(
            HttpReplyView {
                status: 200,
                headers: json_header(),
                body: rendered(value_built(health_model(enabled_names(tools)))),
            },
        ),
        HttpRoute::NotFound => HttpActionView::Reply(plain_reply(404, "Not Found"@)),
    }
}

/// The text of the request body, where there is one.
pub open spec fn body_text(body: HttpBody) -> Seq<char> {
    match body {
        HttpBody::Text(t) => t@,
        _ => Seq::empty(),
    }
}

/// What [`ZhiServer::status`] says of `n` enabled tools.
pub open spec fn status_text(n: nat) -> Seq<char> {
    if n == 0 {
        "未运行 - 没有启用的工具"@
    } else {
        "运行中 - "@ + decimal(n) + " 个工具已启用"@
    }
}

fn header(name: &str, value: &str) -> (h: (String, String))
    ensures
        h.0@ == name@,
        h.1@ == value@,
{
    (name.to_string(), value.to_string())
}

fn plain(status: u16, body: &str) -> (r: HttpReply)
    ensures
        r@ == plain_reply(status, body@),
{
    let r = HttpReply { status, headers: Vec::new(), body: body.to_string() };
    assert(r@.headers =~= Seq::empty());
    r
}

/// The route of an HTTP request.
pub fn http_route(method: &str, path: &str) -> (r: HttpRoute)
    ensures
        r == http_route_of(method@, path@),
{
    if str_eq(method, "POST") && str_eq(path, "/mcp") {
        HttpRoute::Mcp
    } else if str_eq(method, "OPTIONS") && str_eq(path, "/mcp") {
        HttpRoute::Preflight
    } else if str_eq(method, "GET") && str_eq(path, "/health") {
        HttpRoute::Health
    } else {
        HttpRoute::NotFound
    }
}

/// The HTTP reply to a JSON-RPC request that came to `outcome`.
pub fn http_mcp_reply(outcome: Result<String, String>) -> (r: HttpReply)
    ensures
        r@ == mcp_reply(
            match outcome {
                Ok(t) => Ok(t@),
                Err(m) => Err(m@),
            },
        ),
{
    match outcome {
        Ok(text) => {
            let headers = vec![
                header("Content-Type", "application/json"),
                header("Access-Control-Allow-Origin", "*"),
                header("Access-Control-Allow-Methods", "POST, OPTIONS"),
                header("Access-Control-Allow-Headers", "Content-Type"),
            ];
            let r = HttpReply { status: 200, headers, body: text };
            assert(r@.headers =~= json_header() + cors_headers());
            r
        },
        Err(m) => {
            let headers = vec![header("Content-Type", "application/json")];
            let r = HttpReply { status: 500, headers, body: error_response(m.as_str()) };
            assert(r@.headers =~= json_header());
            r
        },
    }
}

impl ZhiServer {
    /// What the stdio loop does with `line`.
    pub fn line_action(&self, line: &str, fresh: Option<&AppConfig>) -> (r: LineAction)
        ensures
            r@ == line_action_of(
                line@,
                parse_outcome(line@),
                tool_enabled(self.current_tools(fresh), "zhi"@),
                tool_enabled(self.current_tools(fresh), "ji"@),
            ),
    {
        if trim(line).as_str().is_empty() {
            return LineAction::Skip;
        }
        match self.handle_jsonrpc_request(line, fresh) {
            Dispatch::Respond(t) => LineAction::Write(t),
            Dispatch::Fail(m) => LineAction::Write(error_response(m.as_str())),
            Dispatch::Call { call, id } => LineAction::Call { call, id },
        }
    }

    /// The line to write once the tool of a call has run.
    pub fn finish_call(id: &Json, outcome: Result<CallToolResult, McpError>) -> (r: String)
        ensures
            r@ == finished_line(id@, outcome_view(outcome)),
    {
        match ZhiServer::tool_reply(id, outcome) {
            Ok(t) => t,
            Err(m) => error_response(m.as_str()),
        }
    }

    /// What the HTTP handler does with one request.
    pub fn handle_http_request(
        &self,
        method: &str,
        path: &str,
        body: HttpBody,
        fresh: Option<&AppConfig>,
    ) -> (r: HttpAction)
        ensures
            r@ == http_action_of(
                http_route_of(method@, path@),
                body,
                parse_outcome(body_text(body)),
                self.current_tools(fresh),
            ),
    {
        match http_route(method, path) {
            HttpRoute::Mcp => match body {
                HttpBody::Unreadable => HttpAction::Reply(
                    plain(400, "Failed to read request body"),
                ),
                HttpBody::InvalidUtf8 => HttpAction::Reply(
                    plain(400, "Invalid UTF-8 in request body"),
                ),
                HttpBody::Text(text) => match self.handle_jsonrpc_request(text.as_str(), fresh) {
                    Dispatch::Respond(t) => HttpAction::Reply(http_mcp_reply(Ok(t))),
                    Dispatch::Fail(m) => HttpAction::Reply(http_mcp_reply(Err(m))),
                    Dispatch::Call { call, id } => HttpAction::Call { call, id },
                },
            },
            HttpRoute::Preflight => {
                let headers = vec![
                    header("Access-Control-Allow-Origin", "*"),
                    header("Access-Control-Allow-Methods", "POST, OPTIONS"),
                    header("Access-Control-Allow-Headers", "Content-Type"),
                ];
                let r = HttpReply { status: 200, headers, body: String::new() };
                assert(r@.headers =~= cors_headers());
                HttpAction::Reply(r)
            },
            HttpRoute::Health => {
                let tools = self.get_enabled_tools(fresh);
                let health = object4(
                    entry("status", Json::string("healthy")),
                    entry("server", Json::string("cunzhi-cli MCP Server")),
                    entry("version", Json::string(VERSION)),
                    entry("tools", crate::json::strings(&tools)),
                );
                let headers = vec![header("Content-Type", "application/json")];
                let r = HttpReply { status: 200, headers, body: render(&health) };
                assert(r@.headers =~= json_header());
                HttpAction::Reply(r)
            },
            HttpRoute::NotFound => HttpAction::Reply(plain(404, "Not Found")),
        }
    }

    /// The HTTP reply once the tool of a call has run.
    pub fn http_tool_reply(id: &Json, outcome: Result<CallToolResult, McpError>) -> (r: HttpReply)
        ensures
            r@ == mcp_reply(tool_reply_of(id@, outcome_view(outcome))),
    {
        http_mcp_reply(ZhiServer::tool_reply(id, outcome))
    }

    /// Whether the server can start, and how it then serves. It cannot start
    /// without an enabled tool. It serves over stdio whatever mode is asked
    /// for: no HTTP listener is started.
    pub fn start_with_mode(&self, mode: ServerMode, fresh: Option<&AppConfig>) -> (r: Result<
        ServerMode,
        String,
    >)
        ensures
            enabled_names(self.current_tools(fresh)).len() == 0 ==> r is Err && r->Err_0@
                == "没有启用的 MCP 工具"@,
            enabled_names(self.current_tools(fresh)).len() > 0 ==> r is Ok && r->Ok_0
                is Stdio,
    {
        let enabled = self.get_enabled_tools(fresh);
        assert(views(enabled@).len() == enabled@.len());
        if enabled.len() == 0 {
            return Err("没有启用的 MCP 工具".to_string());
        }
        match mode {
            ServerMode::Stdio => Ok(ServerMode::Stdio),
            ServerMode::Http { port: _ } => Ok(ServerMode::Stdio),
        }
    }

    /// [`Self::start_with_mode`] over stdio.
    pub fn start(&self, fresh: Option<&AppConfig>) -> (r: Result<ServerMode, String>)
        ensures
            enabled_names(self.current_tools(fresh)).len() == 0 ==> r is Err && r->Err_0@
                == "没有启用的 MCP 工具"@,
            enabled_names(self.current_tools(fresh)).len() > 0 ==> r is Ok && r->Ok_0
                is Stdio,
    {
        self.start_with_mode(ServerMode::Stdio, fresh)
    }

    /// The message of a stopped server.
    pub fn stop(&self) -> (r: String)
        ensures
            r@ == "服务器已停止"@,
    {
        "服务器已停止".to_string()
    }

    /// Whether the server runs, and with how many tools.
    pub fn status(&self, fresh: Option<&AppConfig>) -> (r: String)
        ensures
            r@ == status_text(enabled_names(self.current_tools(fresh)).len()),
    {
        let enabled = self.get_enabled_tools(fresh);
        assert(views(enabled@).len() == enabled@.len());
        if enabled.len() == 0 {
            "未运行 - 没有启用的工具".to_string()
        } else {
            let mut r = "运行中 - ".to_string();
            push_decimal(&mut r, enabled.len() as u64);
            r.append(" 个工具已启用");
            r
        }
    }
}

/// The content of a tool's result that holds `content` as one text.
pub fn build_mcp_response(content: &str) -> (j: Json)
    ensures
        j@ == tool_result_model(
            seq![ContentView { content_type: "text"@, text: content@, annotations: None }],
        ),
{
    let pieces = vec![Content::text(content.to_string())];
    assert(content_views(pieces@) =~= seq![
        ContentView { content_type: "text"@, text: content@, annotations: None },
    ]);
    tool_result(&pieces)
}


/// The text is a reply in its envelope.
pub open spec fn is_reply(text: Seq<char>) -> bool {
    exists|result: JsonModel, id: JsonModel|
        text == rendered(value_built(#[trigger] response_envelope(result, id)))
}

/// The text is an error reply in its envelope.
pub open spec fn is_error_reply(text: Seq<char>) -> bool {
    exists|message: Seq<char>| text == rendered(value_built(#[trigger] error_envelope(message)))
}

/// Whatever a line holds, it is skipped because it is blank, or it calls a
/// tool, or what is written for it is a reply or an error reply in its
/// envelope: no line goes without its answer, and no failure is written as
/// anything but an error reply.
pub proof fn lemma_every_line_is_answered(
    line: Seq<char>,
    parsed: Result<JsonModel, Seq<char>>,
    zhi_enabled: bool,
    ji_enabled: bool,
)
    ensures
        match line_action_of(line, parsed, zhi_enabled, ji_enabled) {
            LineActionView::Skip => trimmed(line).len() == 0,
            LineActionView::Write(text) => is_reply(text) || is_error_reply(text),
            LineActionView::Call { call, id } => parsed is Ok && id == parsed->Ok_0.member("id"@),
        },
{
    if trimmed(line).len() > 0 {
        match dispatch_of(parsed, zhi_enabled, ji_enabled) {
            DispatchView::Respond(text) => {
                let request = parsed->Ok_0;
                let result = route_of(request, zhi_enabled, ji_enabled)->Result_0;
                assert(text == rendered(
                    value_built(response_envelope(result, request.member("id"@))),
                ));
            },
            DispatchView::Fail(m) => {
                assert(rendered(value_built(error_envelope(m))) == rendered(
                    value_built(error_envelope(m)),
                ));
            },
            DispatchView::Call { call, id } => {},
        }
    }
}

/// Whatever a tool hands back, what is written for its call is a reply or an
/// error reply in its envelope.
pub proof fn lemma_every_call_is_answered(
    id: JsonModel,
    outcome: Result<CallToolResultView, McpErrorView>,
)
    ensures
        is_reply(finished_line(id, outcome)) || is_error_reply(finished_line(id, outcome)),
{
    match outcome {
        Ok(result) => {
            assert(finished_line(id, outcome) == rendered(
                value_built(response_envelope(tool_result_model(result.content), id)),
            ));
        },
        Err(e) => {
            assert(finished_line(id, outcome) == rendered(
                value_built(error_envelope("工具调用失败: "@ + e.text())),
            ));
        },
    }
}

} // verus!
