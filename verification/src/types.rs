//! The requests, results and errors that pass between the dispatcher, the
//! tools and the interaction surfaces.

use crate::config::AppConfig;
use crate::json::{
    entry, items_model, object3, object4, optional_string, render, rendered, strings, text_array,
    text_or_null, value_built, Json, JsonModel,
};
use crate::text::views;
use vstd::prelude::*;

verus! {

/// A request to put a message, and maybe fixed choices, before a human.
#[derive(Debug, Clone)]
pub struct ZhiRequest {
    pub message: String,
    /// The choices offered; may be empty.
    pub predefined_options: Vec<String>,
    pub is_markdown: bool,
    /// Whether a new terminal window may be tried.
    pub terminal_mode: Option<bool>,
}

/// The view of a [`ZhiRequest`].
pub struct ZhiRequestView {
    pub message: Seq<char>,
    pub predefined_options: Seq<Seq<char>>,
    pub is_markdown: bool,
    pub terminal_mode: Option<bool>,
}

impl View for ZhiRequest {
    type V = ZhiRequestView;

    open spec fn view(&self) -> ZhiRequestView {
        ZhiRequestView {
            message: self.message@,
            predefined_options: views(self.predefined_options@),
            is_markdown: self.is_markdown,
            terminal_mode: self.terminal_mode,
        }
    }
}

/// A request to the memory tool.
#[derive(Debug, Clone)]
pub struct JiyiRequest {
    pub action: String,
    pub project_path: String,
    pub content: String,
    pub category: String,
}

/// The view of a [`JiyiRequest`].
pub struct JiyiRequestView {
    pub action: Seq<char>,
    pub project_path: Seq<char>,
    pub content: Seq<char>,
    pub category: Seq<char>,
}

impl View for JiyiRequest {
    type V = JiyiRequestView;

    open spec fn view(&self) -> JiyiRequestView {
        JiyiRequestView {
            action: self.action@,
            project_path: self.project_path@,
            content: self.content@,
            category: self.category@,
        }
    }
}

/// A message is Markdown unless the request says otherwise.
pub fn default_is_markdown() -> (r: bool)
    ensures
        r,
{
    true
}

/// A request that is silent on it does not ask for a terminal window.
pub fn default_terminal_mode() -> (r: Option<bool>)
    ensures
        r == Some(false),
{
    Some(false)
}

/// A memory without a category is project context.
pub fn default_category() -> (r: String)
    ensures
        r@ == "context"@,
{
    "context".to_string()
}

/// The message for a member that is required and missing.
pub open spec fn missing_field(key: Seq<char>) -> Seq<char> {
    "missing field `"@ + key + "`"@
}

/// The message for a member of the wrong kind.
pub open spec fn invalid_field(key: Seq<char>, expected: Seq<char>) -> Seq<char> {
    "invalid type for field `"@ + key + "`, expected "@ + expected
}

/// The text of the member `key`, which must be there.
pub open spec fn required_text_of(args: JsonModel, key: Seq<char>) -> Result<Seq<char>, Seq<char>> {
    match args.field(key) {
        None => Err(missing_field(key)),
        Some(JsonModel::Str(s)) => Ok(s),
        Some(_) => Err(invalid_field(key, "a string"@)),
    }
}

/// The text of the member `key`, or `default` where the member is missing.
pub open spec fn optional_text_of(args: JsonModel, key: Seq<char>, default: Seq<char>) -> Result<
    Seq<char>,
    Seq<char>,
> {
    match args.field(key) {
        None => Ok(default),
        Some(JsonModel::Str(s)) => Ok(s),
        Some(_) => Err(invalid_field(key, "a string"@)),
    }
}

/// The flag of the member `key`, or `default` where the member is missing.
pub open spec fn optional_flag_of(args: JsonModel, key: Seq<char>, default: bool) -> Result<
    bool,
    Seq<char>,
> {
    match args.field(key) {
        None => Ok(default),
        Some(JsonModel::Bool(b)) => Ok(b),
        Some(_) => Err(invalid_field(key, "a boolean"@)),
    }
}

/// The member `key` as a flag that may be `null`; `default` where it is missing.
pub open spec fn nullable_flag_of(args: JsonModel, key: Seq<char>, default: Option<bool>) -> Result<
    Option<bool>,
    Seq<char>,
> {
    match args.field(key) {
        None => Ok(default),
        Some(JsonModel::Null) => Ok(None),
        Some(JsonModel::Bool(b)) => Ok(Some(b)),
        Some(_) => Err(invalid_field(key, "a boolean or null"@)),
    }
}

/// Every item is a string.
pub open spec fn all_texts(items: Seq<JsonModel>) -> bool {
    forall|i: int| 0 <= i < items.len() ==> (#[trigger] items[i]) is Str
}

/// The texts of the items.
pub open spec fn texts_of(items: Seq<JsonModel>) -> Seq<Seq<char>> {
    Seq::new(items.len(), |i: int| items[i].text_or_empty())
}

/// The member `key` as a list of texts; the empty list where it is missing.
pub open spec fn text_list_of(args: JsonModel, key: Seq<char>) -> Result<
    Seq<Seq<char>>,
    Seq<char>,
> {
    match args.field(key) {
        None => Ok(Seq::empty()),
        Some(JsonModel::Array(items)) => if all_texts(items) {
            Ok(texts_of(items))
        } else {
            Err(invalid_field(key, "an array of strings"@))
        },
        Some(_) => Err(invalid_field(key, "an array of strings"@)),
    }
}

/// What the arguments of the interaction tool hold, or why they are refused.
/// The members are read in the order: `message`, `predefined_options`,
/// `is_markdown`, `terminal_mode`; the first one at fault gives the message.
pub open spec fn zhi_request_of(args: JsonModel) -> Result<ZhiRequestView, Seq<char>> {
    if !(args is Object) {
        Err("invalid type: expected an object"@)
    } else {
        match required_text_of(args, "message"@) {
            Err(e) => Err(e),
            Ok(message) => match text_list_of(args, "predefined_options"@) {
                Err(e) => Err(e),
                Ok(predefined_options) => match optional_flag_of(args, "is_markdown"@, true) {
                    Err(e) => Err(e),
                    Ok(is_markdown) => match nullable_flag_of(
                        args,
                        "terminal_mode"@,
                        Some(false),
                    ) {
                        Err(e) => Err(e),
                        Ok(terminal_mode) => Ok(
                            ZhiRequestView {
                                message,
                                predefined_options,
                                is_markdown,
                                terminal_mode,
                            },
                        ),
                    },
                },
            },
        }
    }
}

/// What the arguments of the memory tool hold, or why they are refused.
pub open spec fn jiyi_request_of(args: JsonModel) -> Result<JiyiRequestView, Seq<char>> {
    if !(args is Object) {
        Err("invalid type: expected an object"@)
    } else {
        match required_text_of(args, "action"@) {
            Err(e) => Err(e),
            Ok(action) => match required_text_of(args, "project_path"@) {
                Err(e) => Err(e),
                Ok(project_path) => match optional_text_of(args, "content"@, Seq::empty()) {
                    Err(e) => Err(e),
                    Ok(content) => match optional_text_of(args, "category"@, "context"@) {
                        Err(e) => Err(e),
                        Ok(category) => Ok(
                            JiyiRequestView { action, project_path, content, category },
                        ),
                    },
                },
            },
        }
    }
}

fn missing_field_message(key: &str) -> (r: String)
    ensures
        r@ == missing_field(key@),
{
    let mut r = "missing field `".to_string();
    r.append(key);
    r.append("`");
    r
}

fn invalid_field_message(key: &str, expected: &str) -> (r: String)
    ensures
        r@ == invalid_field(key@, expected@),
{
    let mut r = "invalid type for field `".to_string();
    r.append(key);
    r.append("`, expected ");
    r.append(expected);
    r
}

fn required_text(args: &Json, key: &str) -> (r: Result<String, String>)
    ensures
        match r {
            Ok(s) => required_text_of(args@, key@) == Ok::<Seq<char>, Seq<char>>(s@),
            Err(e) => required_text_of(args@, key@) == Err::<Seq<char>, Seq<char>>(e@),
        },
{
    match args.get(key) {
        None => Err(missing_field_message(key)),
        Some(j) => match j.as_str() {
            Some(s) => Ok(s.to_string()),
            None => Err(invalid_field_message(key, "a string")),
        },
    }
}

fn optional_text(args: &Json, key: &str, default: &str) -> (r: Result<String, String>)
    ensures
        match r {
            Ok(s) => optional_text_of(args@, key@, default@) == Ok::<Seq<char>, Seq<char>>(s@),
            Err(e) => optional_text_of(args@, key@, default@) == Err::<Seq<char>, Seq<char>>(e@),
        },
{
    match args.get(key) {
        None => Ok(default.to_string()),
        Some(j) => match j.as_str() {
            Some(s) => Ok(s.to_string()),
            None => Err(invalid_field_message(key, "a string")),
        },
    }
}

fn optional_flag(args: &Json, key: &str, default: bool) -> (r: Result<bool, String>)
    ensures
        match r {
            Ok(b) => optional_flag_of(args@, key@, default) == Ok::<bool, Seq<char>>(b),
            Err(e) => optional_flag_of(args@, key@, default) == Err::<bool, Seq<char>>(e@),
        },
{
    match args.get(key) {
        None => Ok(default),
        Some(j) => match j.as_bool() {
            Some(b) => Ok(b),
            None => Err(invalid_field_message(key, "a boolean")),
        },
    }
}

fn nullable_flag(args: &Json, key: &str, default: Option<bool>) -> (r: Result<
    Option<bool>,
    String,
>)
    ensures
        match r {
            Ok(b) => nullable_flag_of(args@, key@, default) == Ok::<Option<bool>, Seq<char>>(b),
            Err(e) => nullable_flag_of(args@, key@, default) == Err::<Option<bool>, Seq<char>>(
                e@,
            ),
        },
{
    match args.get(key) {
        None => Ok(default),
        Some(j) => {
            if j.is_null() {
                Ok(None)
            } else {
                match j.as_bool() {
                    Some(b) => Ok(Some(b)),
                    None => Err(invalid_field_message(key, "a boolean or null")),
                }
            }
        },
    }
}

fn text_list(args: &Json, key: &str) -> (r: Result<Vec<String>, String>)
    ensures
        match r {
            Ok(v) => text_list_of(args@, key@) == Ok::<Seq<Seq<char>>, Seq<char>>(views(v@)),
            Err(e) => text_list_of(args@, key@) == Err::<Seq<Seq<char>>, Seq<char>>(e@),
        },
{
    match args.get(key) {
        None => {
            let v: Vec<String> = Vec::new();
            assert(views(v@) =~= Seq::<Seq<char>>::empty());
            Ok(v)
        },
        Some(j) => match j.as_array() {
            None => Err(invalid_field_message(key, "an array of strings")),
            Some(items) => {
                let mut out: Vec<String> = Vec::new();
                let mut i: usize = 0;
                while i < items.len()
                    invariant
                        i <= items.len(),
                        out@.len() == i,
                        args@.field(key@) == Some(JsonModel::Array(items_model(items@))),
                        forall|k: int| 0 <= k < i ==> (#[trigger] items@[k])@ is Str,
                        forall|k: int|
                            0 <= k < i ==> (#[trigger] out@[k])@ == items@[k]@.text_or_empty(),
                    decreases items.len() - i,
                {
                    match items[i].as_str() {
                        Some(s) => {
                            out.push(s.to_string());
                        },
                        None => {
                            assert(!(items_model(items@)[i as int] is Str));
                            return Err(invalid_field_message(key, "an array of strings"));
                        },
                    }
                    i += 1;
                }
                proof {
                    let models = items_model(items@);
                    assert forall|k: int| 0 <= k < models.len() implies (#[trigger] models[k])
                        is Str by {
                        assert(items@[k]@ is Str);
                    }
                    assert(views(out@) =~= texts_of(models));
                }
                Ok(out)
            },
        },
    }
}

impl ZhiRequest {
    /// Reads the arguments of a call of the interaction tool.
    pub fn from_json(args: &Json) -> (r: Result<ZhiRequest, String>)
        ensures
            match r {
                Ok(q) => zhi_request_of(args@) == Ok::<ZhiRequestView, Seq<char>>(q@),
                Err(e) => zhi_request_of(args@) == Err::<ZhiRequestView, Seq<char>>(e@),
            },
    {
        if !args.is_object() {
            return Err("invalid type: expected an object".to_string());
        }
        let message = match required_text(args, "message") {
            Ok(m) => m,
            Err(e) => {
                return Err(e);
            },
        };
        let predefined_options = match text_list(args, "predefined_options") {
            Ok(v) => v,
            Err(e) => {
                return Err(e);
            },
        };
        let is_markdown = match optional_flag(args, "is_markdown", default_is_markdown()) {
            Ok(b) => b,
            Err(e) => {
                return Err(e);
            },
        };
        let terminal_mode = match nullable_flag(args, "terminal_mode", default_terminal_mode()) {
            Ok(b) => b,
            Err(e) => {
                return Err(e);
            },
        };
        Ok(ZhiRequest { message, predefined_options, is_markdown, terminal_mode })
    }
}

impl JiyiRequest {
    /// Reads the arguments of a call of the memory tool.
    pub fn from_json(args: &Json) -> (r: Result<JiyiRequest, String>)
        ensures
            match r {
                Ok(q) => jiyi_request_of(args@) == Ok::<JiyiRequestView, Seq<char>>(q@),
                Err(e) => jiyi_request_of(args@) == Err::<JiyiRequestView, Seq<char>>(e@),
            },
    {
        if !args.is_object() {
            return Err("invalid type: expected an object".to_string());
        }
        let action = match required_text(args, "action") {
            Ok(m) => m,
            Err(e) => {
                return Err(e);
            },
        };
        let project_path = match required_text(args, "project_path") {
            Ok(m) => m,
            Err(e) => {
                return Err(e);
            },
        };
        proof {
            reveal_strlit("");
            assert(""@ =~= Seq::<char>::empty());
        }
        let content = match optional_text(args, "content", "") {
            Ok(m) => m,
            Err(e) => {
                return Err(e);
            },
        };
        let category = match optional_text(args, "category", default_category().as_str()) {
            Ok(m) => m,
            Err(e) => {
                return Err(e);
            },
        };
        Ok(JiyiRequest { action, project_path, content, category })
    }
}


/// One piece of a tool's result.
#[derive(Debug, Clone)]
pub struct Content {
    pub content_type: String,
    pub text: String,
    pub annotations: Option<Json>,
}

/// The view of a [`Content`].
pub struct ContentView {
    pub content_type: Seq<char>,
    pub text: Seq<char>,
    pub annotations: Option<JsonModel>,
}

impl View for Content {
    type V = ContentView;

    open spec fn view(&self) -> ContentView {
        ContentView {
            content_type: self.content_type@,
            text: self.text@,
            annotations: match self.annotations {
                Some(a) => Some(a@),
                None => None,
            },
        }
    }
}

impl Content {
    /// A piece of plain text.
    pub fn text(text: String) -> (r: Content)
        ensures
            r@ == (ContentView { content_type: "text"@, text: text@, annotations: None }),
    {
        Content { content_type: "text".to_string(), text, annotations: None }
    }
}

/// The views of a vector of contents.
pub open spec fn content_views(v: Seq<Content>) -> Seq<ContentView> {
    Seq::new(v.len(), |i: int| v[i]@)
}

/// What a tool hands back.
#[derive(Debug, Clone)]
pub struct CallToolResult {
    pub content: Vec<Content>,
    pub is_error: Option<bool>,
}

/// The view of a [`CallToolResult`].
pub struct CallToolResultView {
    pub content: Seq<ContentView>,
    pub is_error: Option<bool>,
}

impl View for CallToolResult {
    type V = CallToolResultView;

    open spec fn view(&self) -> CallToolResultView {
        CallToolResultView { content: content_views(self.content@), is_error: self.is_error }
    }
}

impl CallToolResult {
    /// A result that carries `content`.
    pub fn success(content: Vec<Content>) -> (r: CallToolResult)
        ensures
            r@ == (CallToolResultView { content: content_views(content@), is_error: None }),
    {
        CallToolResult { content, is_error: None }
    }

    /// A result that reports `message` as an error.
    pub fn error(message: String) -> (r: CallToolResult)
        ensures
            r@ == (CallToolResultView {
                content: seq![
                    ContentView { content_type: "text"@, text: message@, annotations: None },
                ],
                is_error: Some(true),
            }),
    {
        let content = vec![Content::text(message)];
        assert(content_views(content@) =~= seq![
            ContentView { content_type: "text"@, text: message@, annotations: None },
        ]);
        CallToolResult { content, is_error: Some(true) }
    }
}

/// Why a request failed.
#[derive(Debug, Clone)]
pub enum McpError {
    /// The tool's arguments are malformed or missing.
    InvalidParams(String),
    /// A process, a launch or an I/O step failed.
    InternalError(String),
    /// The method or the tool is unknown.
    MethodNotFound(String),
    /// The wait for the human's answer ran out.
    Timeout(String),
    /// The human cancelled.
    UserCancelled(String),
}

/// The view of an [`McpError`].
pub enum McpErrorView {
    InvalidParams(Seq<char>),
    InternalError(Seq<char>),
    MethodNotFound(Seq<char>),
    Timeout(Seq<char>),
    UserCancelled(Seq<char>),
}

impl View for McpError {
    type V = McpErrorView;

    open spec fn view(&self) -> McpErrorView {
        match self {
            McpError::InvalidParams(m) => McpErrorView::InvalidParams(m@),
            McpError::InternalError(m) => McpErrorView::InternalError(m@),
            McpError::MethodNotFound(m) => McpErrorView::MethodNotFound(m@),
            McpError::Timeout(m) => McpErrorView::Timeout(m@),
            McpError::UserCancelled(m) => McpErrorView::UserCancelled(m@),
        }
    }
}

impl McpErrorView {
    /// The text that the error shows as.
    pub open spec fn text(self) -> Seq<char> {
        match self {
            McpErrorView::InvalidParams(m) => "Invalid parameters: "@ + m,
            McpErrorView::InternalError(m) => "Internal error: "@ + m,
            McpErrorView::MethodNotFound(m) => "Method not found: "@ + m,
            McpErrorView::Timeout(m) => "Timeout: "@ + m,
            McpErrorView::UserCancelled(m) => "User cancelled: "@ + m,
        }
    }
}

impl McpError {
    /// An error of the tool's arguments.
    pub fn invalid_params(msg: String, _data: Option<Json>) -> (r: McpError)
        ensures
            r@ == McpErrorView::InvalidParams(msg@),
    {
        McpError::InvalidParams(msg)
    }

    /// An error of a process, a launch or an I/O step.
    pub fn internal_error(msg: String, _data: Option<Json>) -> (r: McpError)
        ensures
            r@ == McpErrorView::InternalError(msg@),
    {
        McpError::InternalError(msg)
    }

    /// An error of an unknown method or tool.
    pub fn invalid_request(msg: String, _data: Option<Json>) -> (r: McpError)
        ensures
            r@ == McpErrorView::MethodNotFound(msg@),
    {
        McpError::MethodNotFound(msg)
    }

    /// The error of a wait that ran out.
    pub fn timeout(msg: String) -> (r: McpError)
        ensures
            r@ == McpErrorView::Timeout(msg@),
    {
        McpError::Timeout(msg)
    }

    /// The error of a human who cancelled.
    pub fn user_cancelled(msg: String) -> (r: McpError)
        ensures
            r@ == McpErrorView::UserCancelled(msg@),
    {
        McpError::UserCancelled(msg)
    }

    /// The text that the error shows as: its kind, a colon, its message.
    pub fn to_string(&self) -> (r: String)
        ensures
            r@ == self@.text(),
    {
        let (mut r, m) = match self {
            McpError::InvalidParams(m) => ("Invalid parameters: ".to_string(), m),
            McpError::InternalError(m) => ("Internal error: ".to_string(), m),
            McpError::MethodNotFound(m) => ("Method not found: ".to_string(), m),
            McpError::Timeout(m) => ("Timeout: ".to_string(), m),
            McpError::UserCancelled(m) => ("User cancelled: ".to_string(), m),
        };
        r.append(m.as_str());
        r
    }
}

/// The request as the UI process reads it.
#[derive(Debug, Clone)]
pub struct PopupRequest {
    pub id: String,
    pub message: String,
    pub predefined_options: Option<Vec<String>>,
    pub is_markdown: bool,
}

impl PopupRequest {
    /// The popup that shows `request` under the identifier `id`: the same
    /// message and flag, and the choices where there are any.
    pub fn for_request(request: &ZhiRequest, id: String) -> (r: PopupRequest)
        ensures
            r.id@ == id@,
            r.message@ == request.message@,
            r.is_markdown == request.is_markdown,
            request.predefined_options@.len() == 0 ==> r.predefined_options is None,
            request.predefined_options@.len() > 0 ==> r.predefined_options is Some && views(
                r.predefined_options->0@,
            ) == views(request.predefined_options@),
    {
        let predefined_options = if request.predefined_options.len() == 0 {
            None
        } else {
            let mut options: Vec<String> = Vec::new();
            let mut i: usize = 0;
            while i < request.predefined_options.len()
                invariant
                    i <= request.predefined_options.len(),
                    options@.len() == i,
                    forall|k: int|
                        0 <= k < i ==> (#[trigger] options@[k])@ == request.predefined_options@[k]@,
                decreases request.predefined_options.len() - i,
            {
                options.push(request.predefined_options[i].clone());
                i += 1;
            }
            assert(views(options@) =~= views(request.predefined_options@));
            Some(options)
        };
        PopupRequest {
            id,
            message: request.message.clone(),
            predefined_options,
            is_markdown: request.is_markdown,
        }
    }
}

/// An image that came with an answer.
#[derive(Debug, Clone)]
pub struct ImageAttachment {
    pub data: String,
    pub media_type: String,
    pub filename: Option<String>,
}

/// The view of an [`ImageAttachment`].
pub struct ImageAttachmentView {
    pub data: Seq<char>,
    pub media_type: Seq<char>,
    pub filename: Option<Seq<char>>,
}

impl View for ImageAttachment {
    type V = ImageAttachmentView;

    open spec fn view(&self) -> ImageAttachmentView {
        ImageAttachmentView {
            data: self.data@,
            media_type: self.media_type@,
            filename: match self.filename {
                Some(f) => Some(f@),
                None => None,
            },
        }
    }
}

/// Where and when an answer was given.
#[derive(Debug, Clone)]
pub struct ResponseMetadata {
    pub timestamp: Option<String>,
    pub request_id: Option<String>,
    pub source: Option<String>,
}

/// A structured answer.
#[derive(Debug, Clone)]
pub struct McpResponse {
    pub user_input: Option<String>,
    pub selected_options: Vec<String>,
    pub images: Vec<ImageAttachment>,
    pub metadata: ResponseMetadata,
}

/// The source of an image in the older answer format.
#[derive(Debug, Clone)]
pub struct ImageSource {
    pub source_type: String,
    pub media_type: String,
    pub data: String,
}

/// One piece of an answer in the older format.
#[derive(Debug, Clone)]
pub struct McpResponseContent {
    pub content_type: String,
    pub text: Option<String>,
    pub source: Option<ImageSource>,
}

/// The views of a vector of images.
pub open spec fn image_views(v: Seq<ImageAttachment>) -> Seq<ImageAttachmentView> {
    Seq::new(v.len(), |i: int| v[i]@)
}

/// An image as a JSON object.
pub open spec fn image_model(image: ImageAttachmentView) -> JsonModel {
    JsonModel::Object(
        seq![
            ("data"@, JsonModel::Str(image.data)),
            ("media_type"@, JsonModel::Str(image.media_type)),
            ("filename"@, text_or_null(image.filename)),
        ],
    )
}

/// A structured answer as a JSON object.
pub open spec fn response_model(
    user_input: Option<Seq<char>>,
    selected_options: Seq<Seq<char>>,
    images: Seq<ImageAttachmentView>,
    request_id: Option<Seq<char>>,
    source: Seq<char>,
    timestamp: Seq<char>,
) -> JsonModel {
    JsonModel::Object(
        seq![
            ("user_input"@, text_or_null(user_input)),
            ("selected_options"@, text_array(selected_options)),
            ("images"@, JsonModel::Array(Seq::new(images.len(), |i: int| image_model(images[i])))),
            (
                "metadata"@,
                JsonModel::Object(
                    seq![
                        ("timestamp"@, JsonModel::Str(timestamp)),
                        ("request_id"@, text_or_null(request_id)),
                        ("source"@, JsonModel::Str(source)),
                    ],
                ),
            ),
        ],
    )
}

/// The view of an optional string.
pub open spec fn optional_view(text: Option<String>) -> Option<Seq<char>> {
    match text {
        Some(s) => Some(s@),
        None => None,
    }
}

/// `chrono::Utc::now().to_rfc3339()`: the time of the call. Nothing is said
/// of it.
#[verifier::external_body]
fn now_rfc3339() -> (r: String) {
    chrono::Utc::now().to_rfc3339()
}

/// The structured answer that was given at `timestamp`.
pub fn build_mcp_response_at(
    user_input: Option<String>,
    selected_options: Vec<String>,
    images: Vec<ImageAttachment>,
    request_id: Option<String>,
    source: &str,
    timestamp: &str,
) -> (j: Json)
    ensures
        j@ == response_model(
            optional_view(user_input),
            views(selected_options@),
            image_views(images@),
            optional_view(request_id),
            source@,
            timestamp@,
        ),
{
    let mut listed: Vec<Json> = Vec::new();
    let mut i: usize = 0;
    while i < images.len()
        invariant
            i <= images.len(),
            listed@.len() == i,
            forall|k: int| 0 <= k < i ==> (#[trigger] listed@[k])@ == image_model(images@[k]@),
        decreases images.len() - i,
    {
        let image = &images[i];
        listed.push(
            object3(
                entry("data", Json::Str(image.data.clone())),
                entry("media_type", Json::Str(image.media_type.clone())),
                entry("filename", optional_string(&image.filename)),
            ),
        );
        i += 1;
    }
    proof {
        let views = image_views(images@);
        assert(items_model(listed@) =~= Seq::new(views.len(), |i: int| image_model(views[i])));
    }
    let metadata = object3(
        entry("timestamp", Json::string(timestamp)),
        entry("request_id", optional_string(&request_id)),
        entry("source", Json::string(source)),
    );
    object4(
        entry("user_input", optional_string(&user_input)),
        entry("selected_options", strings(&selected_options)),
        entry("images", Json::array(listed)),
        entry("metadata", metadata),
    )
}

/// The structured answer, stamped with the time of the call.
pub fn build_mcp_response(
    user_input: Option<String>,
    selected_options: Vec<String>,
    images: Vec<ImageAttachment>,
    request_id: Option<String>,
    source: &str,
) -> (j: Json)
    ensures
        exists|timestamp: Seq<char>|
            j@ == response_model(
                optional_view(user_input),
                views(selected_options@),
                image_views(images@),
                optional_view(request_id),
                source@,
                timestamp,
            ),
{
    let timestamp = now_rfc3339();
    build_mcp_response_at(
        user_input,
        selected_options,
        images,
        request_id,
        source,
        timestamp.as_str(),
    )
}

/// The text of the answer to a "send".
pub fn build_send_response(
    user_input: Option<String>,
    selected_options: Vec<String>,
    images: Vec<ImageAttachment>,
    request_id: Option<String>,
    source: &str,
) -> (r: String)
    ensures
        exists|timestamp: Seq<char>|
            r@ == rendered(
                value_built(
                    response_model(
                        optional_view(user_input),
                        views(selected_options@),
                        image_views(images@),
                        optional_view(request_id),
                        source@,
                        timestamp,
                    ),
                ),
            ),
{
    let response = build_mcp_response(user_input, selected_options, images, request_id, source);
    render(&response)
}

/// The prompt that asks to go on: the configured one, or the built-in one
/// where no configuration could be loaded.
pub open spec fn continue_prompt_of(loaded: Option<&AppConfig>) -> Seq<char> {
    match loaded {
        Some(config) => config.reply_config.continue_prompt@,
        None => "请按照最佳实践继续"@,
    }
}

/// The text of the answer to a "continue": the continue prompt as the input,
/// no choices, no images.
pub fn build_continue_response(
    request_id: Option<String>,
    source: &str,
    loaded: Option<&AppConfig>,
) -> (r: String)
    ensures
        exists|timestamp: Seq<char>|
            r@ == rendered(
                value_built(
                    response_model(
                        Some(continue_prompt_of(loaded)),
                        Seq::empty(),
                        Seq::empty(),
                        optional_view(request_id),
                        source@,
                        timestamp,
                    ),
                ),
            ),
{
    let continue_prompt = match loaded {
        Some(config) => config.reply_config.continue_prompt.clone(),
        None => "请按照最佳实践继续".to_string(),
    };
    let options: Vec<String> = Vec::new();
    let images: Vec<ImageAttachment> = Vec::new();
    assert(views(options@) =~= Seq::<Seq<char>>::empty());
    assert(image_views(images@) =~= Seq::<ImageAttachmentView>::empty());
    let timestamp = now_rfc3339();
    let response = build_mcp_response_at(
        Some(continue_prompt),
        options,
        images,
        request_id,
        source,
        timestamp.as_str(),
    );
    let r = render(&response);
    assert(r@ == rendered(
        value_built(
            response_model(
                Some(continue_prompt_of(loaded)),
                Seq::empty(),
                Seq::empty(),
                optional_view(request_id),
                source@,
                timestamp@,
            ),
        ),
    ));
    r
}


/// The content of an answer: the answer as one piece of text.
pub fn parse_mcp_response(response: &str) -> (r: Result<Vec<Content>, String>)
    ensures
        r is Ok,
        content_views(r->Ok_0@) == seq![
            ContentView { content_type: "text"@, text: response@, annotations: None },
        ],
{
    let content = vec![Content::text(response.to_string())];
    assert(content_views(content@) =~= seq![
        ContentView { content_type: "text"@, text: response@, annotations: None },
    ]);
    Ok(content)
}

} // verus!
