//! The interaction tool: the fallback chain that puts a request before a
//! human (a UI process, then a terminal session, then a prompt on the
//! server's own terminal), and everything the three surfaces are given.

use crate::config::TerminalConfig;
use crate::escape::{shell_quote, shell_quoted};
use crate::terminal::{optional, TerminalKind, TerminalLauncherConfig, TerminalType};
use crate::text::{
    decimal, join, joined, lowercase, push_decimal, str_eq, to_lowercase, trim, trimmed, views,
};
use crate::types::{
    CallToolResult, CallToolResultView, Content, ContentView, McpError, McpErrorView, ZhiRequest,
};
use vstd::prelude::*;

verus! {

/// A lower-case hexadecimal digit.
pub open spec fn is_hex_digit(c: char) -> bool {
    ('0' <= c && c <= '9') || ('a' <= c && c <= 'f')
}

/// The text of a random identifier: 36 characters in five groups of
/// hexadecimal digits between hyphens, the third group beginning with `4`,
/// the fourth with `8`, `9`, `a` or `b`.
pub open spec fn is_identifier(s: Seq<char>) -> bool {
    &&& s.len() == 36
    &&& forall|i: int|
        0 <= i < 36 ==> if i == 8 || i == 13 || i == 18 || i == 23 {
            #[trigger] s[i] == '-'
        } else {
            is_hex_digit(s[i])
        }
    &&& s[14] == '4'
    &&& (s[19] == '8' || s[19] == '9' || s[19] == 'a' || s[19] == 'b')
}

/// `uuid::Uuid::new_v4().to_string()`: a random identifier of version 4,
/// printed hyphenated in lower case. Which one it is, is not said.
#[verifier::external_body]
fn new_identifier() -> (r: String)
    ensures
        is_identifier(r@),
{
    uuid::Uuid::new_v4().to_string()
}

/// A fresh identifier for a request and the files that go with it.
pub fn generate_request_id() -> (r: String)
    ensures
        is_identifier(r@),
{
    new_identifier()
}

/// The name of the session script of the identifier `id`.
pub open spec fn script_file(id: Seq<char>) -> Seq<char> {
    "cunzhi_terminal_"@ + id + ".sh"@
}

/// The name of the response file of the identifier `id`.
pub open spec fn response_file(id: Seq<char>) -> Seq<char> {
    "cunzhi_response_"@ + id + ".txt"@
}

/// The names of the two files of one terminal session. Both carry the
/// session's identifier, so the pair belongs to one request.
#[derive(Debug, Clone)]
pub struct SessionFiles {
    pub script: String,
    pub response: String,
}

/// The file names of the session with the identifier `id`.
pub fn session_files(id: &str) -> (r: SessionFiles)
    ensures
        r.script@ == script_file(id@),
        r.response@ == response_file(id@),
{
    let mut script = "cunzhi_terminal_".to_string();
    script.append(id);
    script.append(".sh");
    let mut response = "cunzhi_response_".to_string();
    response.append(id);
    response.append(".txt");
    SessionFiles { script, response }
}

/// The file mode of a session script: its owner may do all, the others read
/// and run it.
pub const SCRIPT_MODE: u32 = 0o755;

/// The session script up to the message.
pub const SCRIPT_HEAD: &'static str =
    "#!/bin/bash\n\n# 寸止 CLI 终端交互脚本\necho \"🤖 寸止 AI 助手\"\necho \"════════════════════════════════════════════════\"\n\n# 显示消息\nprintf '%s\\n' ";

/// The session script between the message and the number of choices.
pub const SCRIPT_AFTER_MESSAGE: &'static str =
    "\n\necho \"════════════════════════════════════════════════\"\n\n# 处理预定义选项\nif [ ";

/// The session script between the number of choices and their lines.
pub const SCRIPT_AFTER_COUNT: &'static str =
    " -gt 0 ]; then\n    echo \"📋 可选选项:\"\n";

/// The session script between the lines of the choices and the upper bound of a selection.
pub const SCRIPT_AFTER_OPTIONS: &'static str =
    "\n    echo \"\"\n    echo \"请选择一个选项 (输入数字)，或输入自定义内容：\"\n\n    read -p \"> \" user_input\n\n    # 检查是否是数字选择\n    if [[ \"$user_input\" =~ ^[0-9]+$ ]] && [ \"$user_input\" -ge 1 ] && [ \"$user_input\" -le ";

/// The session script between the upper bound of a selection and the `case` arms.
pub const SCRIPT_AFTER_LIMIT: &'static str =
    " ]; then\n        case $user_input in\n";

/// The session script between the `case` arms and the path that a choice is written to.
pub const SCRIPT_AFTER_CASES: &'static str =
    "\n        esac\n        echo \"用户选择: $selected_option\" > ";

/// The session script up to the path that an input in place of a choice is written to.
pub const SCRIPT_ELSE_INPUT: &'static str =
    "\n    else\n        echo \"用户输入: $user_input\" > ";

/// The session script up to the path that a free answer is written to.
pub const SCRIPT_NO_OPTIONS: &'static str =
    "\n    fi\nelse\n    echo \"请输入您的回复:\"\n    read -p \"> \" user_input\n    echo \"用户输入: $user_input\" > ";

/// The end of the session script.
pub const SCRIPT_TAIL: &'static str =
    "\nfi\n\necho \"\"\necho \"回复已记录，您可以关闭此终端窗口。\"\necho \"按任意键退出...\"\nread -n 1\n";

/// The line that shows the choice of the given index.
pub open spec fn option_line(index: int, option: Seq<char>) -> Seq<char> {
    "    echo "@ + shell_quoted(decimal((index + 1) as nat) + ". "@ + option)
}

/// The lines that show the choices, numbered from 1.
pub open spec fn option_lines(options: Seq<Seq<char>>) -> Seq<char> {
    joined(Seq::new(options.len(), |i: int| option_line(i, options[i])), "\n"@)
}

/// The `case` arm that takes the number of the given index for its choice.
pub open spec fn case_line(index: int, option: Seq<char>) -> Seq<char> {
    "        "@ + decimal((index + 1) as nat) + ") selected_option="@ + shell_quoted(option)
        + " ;;"@
}

/// The `case` arms of the choices.
pub open spec fn case_lines(options: Seq<Seq<char>>) -> Seq<char> {
    joined(Seq::new(options.len(), |i: int| case_line(i, options[i])), "\n"@)
}

/// The session script: it shows the message and the numbered choices, reads
/// one line, and writes the answer to the response file in one write. The
/// message, each choice and the path stand in it as shell words.
pub open spec fn interaction_script(
    message: Seq<char>,
    options: Seq<Seq<char>>,
    response_path: Seq<char>,
) -> Seq<char> {
    SCRIPT_HEAD@ + shell_quoted(message) + SCRIPT_AFTER_MESSAGE@ + decimal(options.len())
        + SCRIPT_AFTER_COUNT@ + option_lines(options) + SCRIPT_AFTER_OPTIONS@ + decimal(
        options.len(),
    ) + SCRIPT_AFTER_LIMIT@ + case_lines(options) + SCRIPT_AFTER_CASES@ + shell_quoted(
        response_path,
    ) + SCRIPT_ELSE_INPUT@ + shell_quoted(response_path) + SCRIPT_NO_OPTIONS@ + shell_quoted(
        response_path,
    ) + SCRIPT_TAIL@
}

/// The terminal kind that goes by a name, given the name in lower case.
pub open spec fn terminal_named(lowered: Seq<char>, given: Seq<char>) -> TerminalKind {
    if lowered == "terminal"@ || lowered == "terminal.app"@ {
        TerminalKind::TerminalApp
    } else if lowered == "iterm"@ || lowered == "iterm2"@ {
        TerminalKind::ITerm2
    } else if lowered == "alacritty"@ {
        TerminalKind::Alacritty
    } else if lowered == "gnome-terminal"@ {
        TerminalKind::GnomeTerminal
    } else if lowered == "konsole"@ {
        TerminalKind::Konsole
    } else if lowered == "xterm"@ {
        TerminalKind::Xterm
    } else if lowered == "cmd"@ {
        TerminalKind::Cmd
    } else if lowered == "powershell"@ {
        TerminalKind::PowerShell
    } else if lowered == "wt"@ || lowered == "windows-terminal"@ {
        TerminalKind::WindowsTerminal
    } else {
        TerminalKind::Custom(given)
    }
}

/// The terminal kind for a name whose lower-case form is `lowered`. A name of
/// no known terminal is the command of a custom one.
pub fn terminal_type_named(lowered: &str, given: &str) -> (r: TerminalType)
    ensures
        r@ == terminal_named(lowered@, given@),
{
    if str_eq(lowered, "terminal") || str_eq(lowered, "terminal.app") {
        TerminalType::TerminalApp
    } else if str_eq(lowered, "iterm") || str_eq(lowered, "iterm2") {
        TerminalType::ITerm2
    } else if str_eq(lowered, "alacritty") {
        TerminalType::Alacritty
    } else if str_eq(lowered, "gnome-terminal") {
        TerminalType::GnomeTerminal
    } else if str_eq(lowered, "konsole") {
        TerminalType::Konsole
    } else if str_eq(lowered, "xterm") {
        TerminalType::Xterm
    } else if str_eq(lowered, "cmd") {
        TerminalType::Cmd
    } else if str_eq(lowered, "powershell") {
        TerminalType::PowerShell
    } else if str_eq(lowered, "wt") || str_eq(lowered, "windows-terminal") {
        TerminalType::WindowsTerminal
    } else {
        TerminalType::Custom(given.to_string())
    }
}

/// What the prompt on the server's own terminal reported in place of an
/// answer.
#[derive(Debug, Clone)]
pub enum PromptError {
    /// The human cancelled the prompt.
    Cancelled,
    /// The human interrupted the prompt, which cancels it too.
    Interrupted,
    /// The prompt failed.
    Other(String),
}

/// Which prompt is shown on the server's own terminal.
#[derive(Debug, Clone)]
pub enum InlinePrompt {
    /// A selection among these entries.
    Select(Vec<String>),
    /// A line of free text.
    Text,
}

/// What follows a selection.
#[derive(Debug, Clone)]
pub enum SelectionStep {
    /// The interaction has its answer.
    Reply(String),
    /// The interaction has failed.
    Fail(McpError),
    /// The free-text prompt is shown next.
    AskInput,
}

/// The view of a [`SelectionStep`].
pub enum SelectionStepView {
    Reply(Seq<char>),
    Fail(McpErrorView),
    AskInput,
}

impl View for SelectionStep {
    type V = SelectionStepView;

    open spec fn view(&self) -> SelectionStepView {
        match self {
            SelectionStep::Reply(t) => SelectionStepView::Reply(t@),
            SelectionStep::Fail(e) => SelectionStepView::Fail(e@),
            SelectionStep::AskInput => SelectionStepView::AskInput,
        }
    }
}

/// The entry of the menu that asks for free text.
pub const CUSTOM_INPUT: &'static str = "自定义输入";

/// The entry of the menu that cancels.
pub const CANCEL: &'static str = "取消";

/// The message of the error that an explicit cancel ends in.
pub const CANCELLED: &'static str = "用户取消了操作";

/// The answer of a human who has nothing to add.
pub const CONTINUE: &'static str = "用户确认继续";

/// The entries of the selection: the choices, then free text, then cancel.
pub open spec fn menu(options: Seq<Seq<char>>) -> Seq<Seq<char>> {
    options + seq![CUSTOM_INPUT@, CANCEL@]
}

/// The view of what a prompt came back with.
pub open spec fn prompted(answer: Result<String, PromptError>) -> Result<Seq<char>, Option<Seq<char>>> {
    match answer {
        Ok(t) => Ok(t@),
        Err(PromptError::Cancelled) => Err(None),
        Err(PromptError::Interrupted) => Err(None),
        Err(PromptError::Other(m)) => Err(Some(m@)),
    }
}

/// What follows a selection: free text leads to the next prompt; a choice is
/// the answer. The cancel entry and a prompt that was cancelled are both
/// `UserCancelled`, never an answer; a prompt that failed is `InternalError`.
pub open spec fn selection_step(answer: Result<Seq<char>, Option<Seq<char>>>) -> SelectionStepView {
    match answer {
        Ok(selected) => if selected == CANCEL@ {
            SelectionStepView::Fail(McpErrorView::UserCancelled(CANCELLED@))
        } else if selected == CUSTOM_INPUT@ {
            SelectionStepView::AskInput
        } else {
            SelectionStepView::Reply("用户选择: "@ + selected)
        },
        Err(None) => SelectionStepView::Fail(McpErrorView::UserCancelled(CANCELLED@)),
        Err(Some(m)) => SelectionStepView::Fail(McpErrorView::InternalError("选择失败: "@ + m)),
    }
}

/// What a line of free text stands for, given the line trimmed and the
/// trimmed line in lower case: nothing, or `continue`, confirms; `cancel` is
/// `UserCancelled`, never an answer; anything else is the input.
pub open spec fn input_reply(trimmed_input: Seq<char>, lowered: Seq<char>) -> Result<
    Seq<char>,
    McpErrorView,
> {
    if trimmed_input.len() == 0 {
        Ok(CONTINUE@)
    } else if lowered == "cancel"@ {
        Err(McpErrorView::UserCancelled(CANCELLED@))
    } else if lowered == "continue"@ {
        Ok(CONTINUE@)
    } else {
        Ok("用户输入: "@ + trimmed_input)
    }
}

/// What a line of free text comes to.
pub open spec fn input_outcome(answer: Result<Seq<char>, Option<Seq<char>>>) -> Result<
    Seq<char>,
    McpErrorView,
> {
    match answer {
        Ok(input) => input_reply(trimmed(input), lowercase(trimmed(input))),
        Err(None) => Err(McpErrorView::UserCancelled(CANCELLED@)),
        Err(Some(m)) => Err(McpErrorView::InternalError("输入失败: "@ + m)),
    }
}

/// An explicit cancel is never an answer: the cancel entry of the menu, a
/// prompt that the human cancelled or interrupted, and the word `cancel` in
/// place of free text all end in `UserCancelled`.
pub proof fn lemma_cancel_is_no_answer(input: Seq<char>)
    ensures
        prompted(Err(PromptError::Cancelled)) == Err::<Seq<char>, Option<Seq<char>>>(None),
        prompted(Err(PromptError::Interrupted)) == Err::<Seq<char>, Option<Seq<char>>>(None),
        selection_step(Ok(CANCEL@)) == SelectionStepView::Fail(
            McpErrorView::UserCancelled(CANCELLED@),
        ),
        selection_step(Err(None)) == SelectionStepView::Fail(
            McpErrorView::UserCancelled(CANCELLED@),
        ),
        input_outcome(Err(None)) == Err::<Seq<char>, McpErrorView>(
            McpErrorView::UserCancelled(CANCELLED@),
        ),
        trimmed(input).len() > 0 && lowercase(trimmed(input)) == "cancel"@ ==> input_outcome(
            Ok(input),
        ) == Err::<Seq<char>, McpErrorView>(McpErrorView::UserCancelled(CANCELLED@)),
{
}

/// The prompts of the server's own terminal.
pub struct EnhancedCliInteraction;

impl EnhancedCliInteraction {
    /// The entries that the selection shows for the given choices.
    pub fn selection_menu(options: &Vec<String>) -> (r: Vec<String>)
        ensures
            views(r@) == menu(views(options@)),
    {
        let mut all: Vec<String> = Vec::new();
        let mut i: usize = 0;
        while i < options.len()
            invariant
                i <= options.len(),
                all@.len() == i,
                forall|k: int| 0 <= k < i ==> (#[trigger] all@[k])@ == options@[k]@,
            decreases options.len() - i,
        {
            all.push(options[i].clone());
            i += 1;
        }
        all.push(CUSTOM_INPUT.to_string());
        all.push(CANCEL.to_string());
        assert(views(all@) =~= menu(views(options@)));
        all
    }

    /// Reads what the selection came back with.
    pub fn handle_option_selection(answer: Result<String, PromptError>) -> (r: SelectionStep)
        ensures
            r@ == selection_step(prompted(answer)),
    {
        match answer {
            Ok(selected) => {
                if str_eq(selected.as_str(), CANCEL) {
                    SelectionStep::Fail(McpError::user_cancelled(CANCELLED.to_string()))
                } else if str_eq(selected.as_str(), CUSTOM_INPUT) {
                    SelectionStep::AskInput
                } else {
                    let mut r = "用户选择: ".to_string();
                    r.append(selected.as_str());
                    SelectionStep::Reply(r)
                }
            },
            Err(PromptError::Cancelled) | Err(PromptError::Interrupted) => SelectionStep::Fail(
                McpError::user_cancelled(CANCELLED.to_string()),
            ),
            Err(PromptError::Other(m)) => {
                let mut r = "选择失败: ".to_string();
                r.append(m.as_str());
                SelectionStep::Fail(McpError::internal_error(r, None))
            },
        }
    }

    /// What a line of free text stands for; `lowered` is the trimmed line in
    /// lower case.
    pub fn reply_to_input(trimmed_input: &str, lowered: &str) -> (r: Result<String, McpError>)
        ensures
            match r {
                Ok(t) => input_reply(trimmed_input@, lowered@) == Ok::<Seq<char>, McpErrorView>(t@),
                Err(e) => input_reply(trimmed_input@, lowered@) == Err::<Seq<char>, McpErrorView>(
                    e@,
                ),
            },
    {
        if trimmed_input.is_empty() {
            Ok(CONTINUE.to_string())
        } else if str_eq(lowered, "cancel") {
            Err(McpError::user_cancelled(CANCELLED.to_string()))
        } else if str_eq(lowered, "continue") {
            Ok(CONTINUE.to_string())
        } else {
            let mut r = "用户输入: ".to_string();
            r.append(trimmed_input);
            Ok(r)
        }
    }

    /// Reads what the free-text prompt came back with.
    pub fn handle_custom_input(answer: Result<String, PromptError>) -> (r: Result<String, McpError>)
        ensures
            match r {
                Ok(t) => input_outcome(prompted(answer)) == Ok::<Seq<char>, McpErrorView>(t@),
                Err(e) => input_outcome(prompted(answer)) == Err::<Seq<char>, McpErrorView>(e@),
            },
    {
        match answer {
            Ok(input) => {
                let trimmed_input = trim(input.as_str());
                let lowered = to_lowercase(trimmed_input.as_str());
                EnhancedCliInteraction::reply_to_input(trimmed_input.as_str(), lowered.as_str())
            },
            Err(PromptError::Cancelled) | Err(PromptError::Interrupted) => Err(
                McpError::user_cancelled(CANCELLED.to_string()),
            ),
            Err(PromptError::Other(m)) => {
                let mut r = "输入失败: ".to_string();
                r.append(m.as_str());
                Err(McpError::internal_error(r, None))
            },
        }
    }
}

/// The stages of the fallback chain, in order.
#[derive(Debug, Clone, Copy, PartialEq, Eq, Structural)]
pub enum Stage {
    UiProcess,
    TerminalMode,
    InlineCli,
    Done,
}

/// The surfaces on which a human can answer.
#[derive(Debug, Clone, Copy, PartialEq, Eq, Structural)]
pub enum Surface {
    Ui,
    Terminal,
    Inline,
}

/// How a request ended.
#[derive(Debug, Clone)]
pub enum Resolution {
    /// A human answered on this surface.
    Answer { surface: Surface, text: String },
    /// The last surface failed.
    Fatal(McpError),
}

/// The view of a [`Resolution`].
pub enum ResolutionView {
    Answer { surface: Surface, text: Seq<char> },
    Fatal(McpErrorView),
}

impl View for Resolution {
    type V = ResolutionView;

    open spec fn view(&self) -> ResolutionView {
        match self {
            Resolution::Answer { surface, text } => ResolutionView::Answer {
                surface: *surface,
                text: text@,
            },
            Resolution::Fatal(e) => ResolutionView::Fatal(e@),
        }
    }
}

/// What happened on the surface that the driver was asked to try.
#[derive(Debug, Clone)]
pub enum FlowEvent {
    /// The UI process handed back an answer.
    UiAnswered(String),
    /// The UI process could not be found or failed. `terminal_enabled` is what
    /// the configuration, read at this moment, says of terminal mode; `None`
    /// where it could not be read.
    UiFailed { terminal_enabled: Option<bool> },
    /// The terminal session left an answer.
    TerminalAnswered(String),
    /// The terminal could not be launched, or no answer came in time.
    TerminalFailed,
    /// The prompt on the server's own terminal was answered.
    InlineAnswered(String),
    /// The prompt on the server's own terminal failed.
    InlineFailed(McpError),
}

/// The view of a [`FlowEvent`].
pub enum FlowEventView {
    UiAnswered(Seq<char>),
    UiFailed { terminal_enabled: Option<bool> },
    TerminalAnswered(Seq<char>),
    TerminalFailed,
    InlineAnswered(Seq<char>),
    InlineFailed(McpErrorView),
}

impl View for FlowEvent {
    type V = FlowEventView;

    open spec fn view(&self) -> FlowEventView {
        match self {
            FlowEvent::UiAnswered(t) => FlowEventView::UiAnswered(t@),
            FlowEvent::UiFailed { terminal_enabled } => FlowEventView::UiFailed {
                terminal_enabled: *terminal_enabled,
            },
            FlowEvent::TerminalAnswered(t) => FlowEventView::TerminalAnswered(t@),
            FlowEvent::TerminalFailed => FlowEventView::TerminalFailed,
            FlowEvent::InlineAnswered(t) => FlowEventView::InlineAnswered(t@),
            FlowEvent::InlineFailed(e) => FlowEventView::InlineFailed(e@),
        }
    }
}

/// What the driver does next.
#[derive(Debug)]
pub enum FlowAction {
    /// Try the UI process.
    AskUi,
    /// Try a terminal session.
    AskTerminal,
    /// Ask on the server's own terminal.
    AskInline,
    /// The request has ended: this goes back to the caller.
    Finish(Result<CallToolResult, McpError>),
}

/// The view of a [`FlowAction`].
pub enum FlowActionView {
    AskUi,
    AskTerminal,
    AskInline,
    Finish(Result<CallToolResultView, McpErrorView>),
}

impl View for FlowAction {
    type V = FlowActionView;

    open spec fn view(&self) -> FlowActionView {
        match self {
            FlowAction::AskUi => FlowActionView::AskUi,
            FlowAction::AskTerminal => FlowActionView::AskTerminal,
            FlowAction::AskInline => FlowActionView::AskInline,
            FlowAction::Finish(r) => FlowActionView::Finish(
                match r {
                    Ok(result) => Ok(result@),
                    Err(e) => Err(e@),
                },
            ),
        }
    }
}

/// The state of one request on its way through the fallback chain.
#[derive(Debug)]
pub struct InteractionFlow {
    stage: Stage,
    terminal_requested: bool,
    terminal_tried: bool,
    resolution: Option<Resolution>,
}

/// The view of an [`InteractionFlow`].
pub struct FlowState {
    pub stage: Stage,
    /// The request asks for terminal mode.
    pub terminal_requested: bool,
    /// How often a terminal session was tried.
    pub terminal_launches: nat,
    pub resolution: Option<ResolutionView>,
}

impl View for InteractionFlow {
    type V = FlowState;

    closed spec fn view(&self) -> FlowState {
        FlowState {
            stage: self.stage,
            terminal_requested: self.terminal_requested,
            terminal_launches: if self.terminal_tried {
                1
            } else {
                0
            },
            resolution: match self.resolution {
                Some(r) => Some(r@),
                None => None,
            },
        }
    }
}

/// The state of a request before anything was tried.
pub open spec fn flow_start(terminal_mode: Option<bool>) -> FlowState {
    FlowState {
        stage: Stage::UiProcess,
        terminal_requested: terminal_mode == Some(true),
        terminal_launches: 0,
        resolution: None,
    }
}

/// A state that has ended with `resolution`.
pub open spec fn resolved(state: FlowState, resolution: ResolutionView) -> FlowState {
    FlowState { stage: Stage::Done, resolution: Some(resolution), ..state }
}

/// The event answers what the stage asks for.
pub open spec fn flow_fits(stage: Stage, event: FlowEventView) -> bool {
    match stage {
        Stage::UiProcess => event is UiAnswered || event is UiFailed,
        Stage::TerminalMode => event is TerminalAnswered || event is TerminalFailed,
        Stage::InlineCli => event is InlineAnswered || event is InlineFailed,
        Stage::Done => false,
    }
}

/// The state after `event`. An answer ends the request. A failure moves on to
/// the next surface: from the UI process to a terminal session where the
/// request asks for one and the configuration enables it, else straight to
/// the server's own terminal; from a terminal session to the server's own
/// terminal. A failure there is fatal. An event that does not answer what the
/// stage asks for changes nothing.
pub open spec fn flow_next(state: FlowState, event: FlowEventView) -> FlowState {
    match (state.stage, event) {
        (Stage::UiProcess, FlowEventView::UiAnswered(text)) => resolved(
            state,
            ResolutionView::Answer { surface: Surface::Ui, text },
        ),
        (Stage::UiProcess, FlowEventView::UiFailed { terminal_enabled }) => if state.terminal_requested
            && terminal_enabled == Some(true) {
            FlowState {
                stage: Stage::TerminalMode,
                terminal_launches: state.terminal_launches + 1,
                ..state
            }
        } else {
            FlowState { stage: Stage::InlineCli, ..state }
        },
        (Stage::TerminalMode, FlowEventView::TerminalAnswered(text)) => resolved(
            state,
            ResolutionView::Answer { surface: Surface::Terminal, text },
        ),
        (Stage::TerminalMode, FlowEventView::TerminalFailed) => FlowState {
            stage: Stage::InlineCli,
            ..state
        },
        (Stage::InlineCli, FlowEventView::InlineAnswered(text)) => resolved(
            state,
            ResolutionView::Answer { surface: Surface::Inline, text },
        ),
        (Stage::InlineCli, FlowEventView::InlineFailed(e)) => resolved(
            state,
            ResolutionView::Fatal(e),
        ),
        _ => state,
    }
}

/// The result that carries `text` as its one piece of content.
pub open spec fn answer_result(text: Seq<char>) -> CallToolResultView {
    CallToolResultView {
        content: seq![ContentView { content_type: "text"@, text, annotations: None }],
        is_error: None,
    }
}

/// What the driver does in a state.
pub open spec fn flow_action(state: FlowState) -> FlowActionView {
    match state.stage {
        Stage::UiProcess => FlowActionView::AskUi,
        Stage::TerminalMode => FlowActionView::AskTerminal,
        Stage::InlineCli => FlowActionView::AskInline,
        Stage::Done => FlowActionView::Finish(
            match state.resolution {
                Some(ResolutionView::Answer { surface, text }) => Ok(answer_result(text)),
                Some(ResolutionView::Fatal(e)) => Err(e),
                None => Err(McpErrorView::InternalError("交互未产生结果"@)),
            },
        ),
    }
}

/// A request has its resolution when, and only when, it is done, and a
/// terminal session was tried once at most.
pub open spec fn flow_valid(state: FlowState) -> bool {
    &&& state.stage == Stage::Done <==> state.resolution is Some
    &&& state.terminal_launches <= 1
    &&& state.stage == Stage::UiProcess ==> state.terminal_launches == 0
}

/// How many surfaces a request can still be put to.
pub open spec fn surfaces_left(stage: Stage) -> nat {
    match stage {
        Stage::UiProcess => 3,
        Stage::TerminalMode => 2,
        Stage::InlineCli => 1,
        Stage::Done => 0,
    }
}

fn copy_error(e: &McpError) -> (r: McpError)
    ensures
        r@ == e@,
{
    match e {
        McpError::InvalidParams(m) => McpError::InvalidParams(m.clone()),
        McpError::InternalError(m) => McpError::InternalError(m.clone()),
        McpError::MethodNotFound(m) => McpError::MethodNotFound(m.clone()),
        McpError::Timeout(m) => McpError::Timeout(m.clone()),
        McpError::UserCancelled(m) => McpError::UserCancelled(m.clone()),
    }
}

impl InteractionFlow {
    #[verifier::type_invariant]
    spec fn in_order(&self) -> bool {
        flow_valid(self@)
    }

    /// The flow of a request, before anything was tried.
    pub fn new(request: &ZhiRequest) -> (r: InteractionFlow)
        ensures
            r@ == flow_start(request.terminal_mode),
            flow_valid(r@),
    {
        let terminal_requested = match request.terminal_mode {
            Some(b) => b,
            None => false,
        };
        InteractionFlow {
            stage: Stage::UiProcess,
            terminal_requested,
            terminal_tried: false,
            resolution: None,
        }
    }

    /// Where the request stands.
    pub fn stage(&self) -> (r: Stage)
        ensures
            r == self@.stage,
    {
        self.stage
    }

    /// How often a terminal session was tried.
    pub fn terminal_launches(&self) -> (r: u32)
        ensures
            r == self@.terminal_launches,
            flow_valid(self@),
    {
        proof {
            use_type_invariant(self);
        }
        if self.terminal_tried {
            1
        } else {
            0
        }
    }

    /// What the driver does next.
    pub fn action(&self) -> (r: FlowAction)
        ensures
            r@ == flow_action(self@),
    {
        match self.stage {
            Stage::UiProcess => FlowAction::AskUi,
            Stage::TerminalMode => FlowAction::AskTerminal,
            Stage::InlineCli => FlowAction::AskInline,
            Stage::Done => match &self.resolution {
                Some(Resolution::Answer { surface: _, text }) => {
                    let content = vec![Content::text(text.clone())];
                    let result = CallToolResult::success(content);
                    assert(result@.content =~= answer_result(text@).content);
                    FlowAction::Finish(Ok(result))
                },
                Some(Resolution::Fatal(e)) => FlowAction::Finish(Err(copy_error(e))),
                None => FlowAction::Finish(
                    Err(McpError::internal_error("交互未产生结果".to_string(), None)),
                ),
            },
        }
    }

    /// Takes what happened on the surface that [`Self::action`] asked for.
    pub fn advance(&mut self, event: FlowEvent)
        ensures
            final(self)@ == flow_next(old(self)@, event@),
            flow_valid(final(self)@),
    {
        proof {
            use_type_invariant(&*self);
            lemma_flow_step(self@, event@);
        }
        let requested = self.terminal_requested;
        let tried = self.terminal_tried;
        match self.stage {
            Stage::UiProcess => match event {
                FlowEvent::UiAnswered(text) => {
                    *self = InteractionFlow {
                        stage: Stage::Done,
                        terminal_requested: requested,
                        terminal_tried: tried,
                        resolution: Some(Resolution::Answer { surface: Surface::Ui, text }),
                    };
                },
                FlowEvent::UiFailed { terminal_enabled } => {
                    let enabled = match terminal_enabled {
                        Some(b) => b,
                        None => false,
                    };
                    if requested && enabled {
                        *self = InteractionFlow {
                            stage: Stage::TerminalMode,
                            terminal_requested: requested,
                            terminal_tried: true,
                            resolution: None,
                        };
                    } else {
                        *self = InteractionFlow {
                            stage: Stage::InlineCli,
                            terminal_requested: requested,
                            terminal_tried: tried,
                            resolution: None,
                        };
                    }
                },
                _ => {},
            },
            Stage::TerminalMode => match event {
                FlowEvent::TerminalAnswered(text) => {
                    *self = InteractionFlow {
                        stage: Stage::Done,
                        terminal_requested: requested,
                        terminal_tried: tried,
                        resolution: Some(Resolution::Answer { surface: Surface::Terminal, text }),
                    };
                },
                FlowEvent::TerminalFailed => {
                    *self = InteractionFlow {
                        stage: Stage::InlineCli,
                        terminal_requested: requested,
                        terminal_tried: tried,
                        resolution: None,
                    };
                },
                _ => {},
            },
            Stage::InlineCli => match event {
                FlowEvent::InlineAnswered(text) => {
                    *self = InteractionFlow {
                        stage: Stage::Done,
                        terminal_requested: requested,
                        terminal_tried: tried,
                        resolution: Some(Resolution::Answer { surface: Surface::Inline, text }),
                    };
                },
                FlowEvent::InlineFailed(e) => {
                    *self = InteractionFlow {
                        stage: Stage::Done,
                        terminal_requested: requested,
                        terminal_tried: tried,
                        resolution: Some(Resolution::Fatal(e)),
                    };
                },
                _ => {},
            },
            Stage::Done => {},
        }
    }
}

/// The interaction tool.
#[derive(Debug, Clone)]
pub struct InteractionTool;

impl InteractionTool {
    /// The flow that a call of the tool goes through.
    pub fn zhi(request: &ZhiRequest) -> (r: InteractionFlow)
        ensures
            r@ == flow_start(request.terminal_mode),
            flow_valid(r@),
    {
        InteractionFlow::new(request)
    }

    /// The terminal kind that goes by a name; upper and lower case are the
    /// same. A name of no known terminal is the command of a custom one.
    pub fn parse_terminal_type(terminal_str: &str) -> (r: TerminalType)
        ensures
            r@ == terminal_named(lowercase(terminal_str@), terminal_str@),
    {
        let lowered = to_lowercase(terminal_str);
        terminal_type_named(lowered.as_str(), terminal_str)
    }

    /// The launcher's setup for a terminal session: the title, the fall-back
    /// and the timeout of the configuration, its preferred terminal by name,
    /// and the directory to start in.
    pub fn launcher_config(config: &TerminalConfig, working_directory: Option<String>) -> (r:
        TerminalLauncherConfig)
        ensures
            optional(r.window_title) == Some(config.window_title@),
            r.fallback_to_cli == config.fallback_to_cli,
            r.timeout_seconds == config.timeout_seconds,
            optional(r.working_directory) == optional(working_directory),
            match config.preferred_terminal {
                Some(name) => r.preferred_terminal is Some && r.preferred_terminal->0@
                    == terminal_named(lowercase(name@), name@),
                None => r.preferred_terminal is None,
            },
    {
        let preferred_terminal = match &config.preferred_terminal {
            Some(name) => Some(InteractionTool::parse_terminal_type(name.as_str())),
            None => None,
        };
        TerminalLauncherConfig {
            preferred_terminal,
            fallback_to_cli: config.fallback_to_cli,
            working_directory,
            window_title: Some(config.window_title.clone()),
            timeout_seconds: config.timeout_seconds,
        }
    }

    /// The lines of the session script that show the choices.
    pub fn format_options_for_script(options: &Vec<String>) -> (r: String)
        ensures
            r@ == option_lines(views(options@)),
    {
        let mut lines: Vec<String> = Vec::new();
        let mut i: usize = 0;
        while i < options.len()
            invariant
                i <= options.len(),
                lines@.len() == i,
                forall|k: int|
                    0 <= k < i ==> (#[trigger] lines@[k])@ == option_line(k, options@[k]@),
            decreases options.len() - i,
        {
            let mut shown = String::new();
            assert(i < usize::MAX);
            push_decimal(&mut shown, (i + 1) as u64);
            shown.append(". ");
            shown.append(options[i].as_str());
            assert(shown@ =~= decimal((i + 1) as nat) + ". "@ + options@[i as int]@);
            let mut line = "    echo ".to_string();
            line.append(shell_quote(shown.as_str()).as_str());
            lines.push(line);
            i += 1;
        }
        proof {
            let o = views(options@);
            assert(views(lines@) =~= Seq::new(o.len(), |i: int| option_line(i, o[i])));
        }
        join(&lines, "\n")
    }

    /// The `case` arms of the session script.
    pub fn generate_case_statements(options: &Vec<String>) -> (r: String)
        ensures
            r@ == case_lines(views(options@)),
    {
        let mut lines: Vec<String> = Vec::new();
        let mut i: usize = 0;
        while i < options.len()
            invariant
                i <= options.len(),
                lines@.len() == i,
                forall|k: int| 0 <= k < i ==> (#[trigger] lines@[k])@ == case_line(k, options@[k]@),
            decreases options.len() - i,
        {
            let mut line = "        ".to_string();
            assert(i < usize::MAX);
            push_decimal(&mut line, (i + 1) as u64);
            line.append(") selected_option=");
            line.append(shell_quote(options[i].as_str()).as_str());
            line.append(" ;;");
            lines.push(line);
            i += 1;
        }
        proof {
            let o = views(options@);
            assert(views(lines@) =~= Seq::new(o.len(), |i: int| case_line(i, o[i])));
        }
        join(&lines, "\n")
    }

    /// The session script for `request` that leaves the answer in the file at
    /// `response_path`.
    pub fn generate_interaction_script(request: &ZhiRequest, response_path: &str) -> (r: Result<
        String,
        McpError,
    >)
        ensures
            r is Ok,
            r->Ok_0@ == interaction_script(
                request.message@,
                views(request.predefined_options@),
                response_path@,
            ),
    {
        let count = request.predefined_options.len();
        assert(views(request.predefined_options@).len() == count);
        let path = shell_quote(response_path);
        let mut r = SCRIPT_HEAD.to_string();
        r.append(shell_quote(request.message.as_str()).as_str());
        r.append(SCRIPT_AFTER_MESSAGE);
        push_decimal(&mut r, count as u64);
        r.append(SCRIPT_AFTER_COUNT);
        r.append(InteractionTool::format_options_for_script(&request.predefined_options).as_str());
        r.append(SCRIPT_AFTER_OPTIONS);
        push_decimal(&mut r, count as u64);
        r.append(SCRIPT_AFTER_LIMIT);
        r.append(InteractionTool::generate_case_statements(&request.predefined_options).as_str());
        r.append(SCRIPT_AFTER_CASES);
        r.append(path.as_str());
        r.append(SCRIPT_ELSE_INPUT);
        r.append(path.as_str());
        r.append(SCRIPT_NO_OPTIONS);
        r.append(path.as_str());
        r.append(SCRIPT_TAIL);
        Ok(r)
    }

    /// The prompt that the server's own terminal shows for `request`: a
    /// selection where there are choices, else a line of free text.
    pub fn handle_cli_interaction(request: &ZhiRequest) -> (r: InlinePrompt)
        ensures
            request.predefined_options@.len() == 0 ==> r is Text,
            request.predefined_options@.len() > 0 ==> r is Select && views(r->Select_0@) == menu(
                views(request.predefined_options@),
            ),
    {
        if request.predefined_options.len() > 0 {
            InlinePrompt::Select(EnhancedCliInteraction::selection_menu(&request.predefined_options))
        } else {
            InlinePrompt::Text
        }
    }
}

/// The state after the events of `events`, in order.
pub open spec fn flow_run(state: FlowState, events: Seq<FlowEventView>) -> FlowState
    decreases events.len(),
{
    if events.len() == 0 {
        state
    } else {
        flow_run(flow_next(state, events[0]), events.drop_first())
    }
}

/// One step keeps a request in order, and an event that answers what was
/// asked for brings the request nearer to its end.
pub proof fn lemma_flow_step(state: FlowState, event: FlowEventView)
    requires
        flow_valid(state),
    ensures
        flow_valid(flow_next(state, event)),
        flow_fits(state.stage, event) ==> surfaces_left(flow_next(state, event).stage)
            < surfaces_left(state.stage),
        !flow_fits(state.stage, event) ==> flow_next(state, event) == state,
        state.resolution is Some ==> flow_next(state, event) == state,
{
}

/// Whatever happens, a request has exactly one resolution once it is done,
/// and none before: it never ends with two, and never ends without one.
pub proof fn lemma_one_resolution(terminal_mode: Option<bool>, events: Seq<FlowEventView>)
    ensures
        flow_valid(flow_run(flow_start(terminal_mode), events)),
        flow_run(flow_start(terminal_mode), events).stage == Stage::Done <==> flow_run(
            flow_start(terminal_mode),
            events,
        ).resolution is Some,
        flow_action(flow_run(flow_start(terminal_mode), events)) is Finish <==> flow_run(
            flow_start(terminal_mode),
            events,
        ).resolution is Some,
{
    lemma_run_valid(flow_start(terminal_mode), events);
}

proof fn lemma_run_valid(state: FlowState, events: Seq<FlowEventView>)
    requires
        flow_valid(state),
    ensures
        flow_valid(flow_run(state, events)),
    decreases events.len(),
{
    if events.len() > 0 {
        lemma_flow_step(state, events[0]);
        lemma_run_valid(flow_next(state, events[0]), events.drop_first());
    }
}

/// A resolution, once there, is final: no later event changes it.
pub proof fn lemma_resolution_final(state: FlowState, events: Seq<FlowEventView>)
    requires
        flow_valid(state),
        state.resolution is Some,
    ensures
        flow_run(state, events) == state,
    decreases events.len(),
{
    if events.len() > 0 {
        lemma_resolution_final(state, events.drop_first());
    }
}

/// Every event answers what the state before it asked for.
pub open spec fn flow_answers(state: FlowState, events: Seq<FlowEventView>) -> bool
    decreases events.len(),
{
    events.len() == 0 || (flow_fits(state.stage, events[0]) && flow_answers(
        flow_next(state, events[0]),
        events.drop_first(),
    ))
}

/// A request is done after three surfaces at most: a driver that answers each
/// step cannot be asked for a fourth.
pub proof fn lemma_flow_ends(state: FlowState, events: Seq<FlowEventView>)
    requires
        flow_valid(state),
        flow_answers(state, events),
    ensures
        events.len() <= surfaces_left(state.stage),
        events.len() == surfaces_left(state.stage) ==> flow_run(state, events).stage
            == Stage::Done,
    decreases events.len(),
{
    if events.len() > 0 {
        lemma_flow_step(state, events[0]);
        lemma_flow_ends(flow_next(state, events[0]), events.drop_first());
    }
}

/// Where the request does not ask for terminal mode, or the configuration
/// does not enable it, a failure of the UI process leads straight to the
/// server's own terminal, and no terminal session is ever tried.
pub proof fn lemma_inline_without_terminal(
    terminal_mode: Option<bool>,
    terminal_enabled: Option<bool>,
    later: Seq<FlowEventView>,
)
    requires
        terminal_mode != Some(true) || terminal_enabled != Some(true),
    ensures
        flow_next(flow_start(terminal_mode), FlowEventView::UiFailed { terminal_enabled }).stage
            == Stage::InlineCli,
        flow_action(
            flow_next(flow_start(terminal_mode), FlowEventView::UiFailed { terminal_enabled }),
        ) is AskInline,
        flow_run(
            flow_next(flow_start(terminal_mode), FlowEventView::UiFailed { terminal_enabled }),
            later,
        ).terminal_launches == 0,
{
    let state = flow_next(flow_start(terminal_mode), FlowEventView::UiFailed { terminal_enabled });
    lemma_no_launch_later(state, later);
}

proof fn lemma_no_launch_later(state: FlowState, events: Seq<FlowEventView>)
    requires
        state.stage != Stage::UiProcess,
    ensures
        flow_run(state, events).terminal_launches == state.terminal_launches,
        flow_run(state, events).stage != Stage::UiProcess,
    decreases events.len(),
{
    if events.len() > 0 {
        lemma_no_launch_later(flow_next(state, events[0]), events.drop_first());
    }
}

} // verus!
