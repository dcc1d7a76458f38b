//! The interactive chat: what the human's lines mean and what is answered.

use crate::logger::{eq_ignore_ascii_case, same_ignoring_case};
use crate::text::{from_chars, starts_with, str_starts_with, to_chars, trim, trimmed, views};
use crate::types::ZhiRequest;
use vstd::prelude::*;

verus! {

/// The analysis report up to the name of the file.
pub const ANALYSIS_HEAD: &'static str =
    "# 🔍 代码分析报告\n\n## 分析目标\n文件: `";

/// The analysis report after the name of the file.
pub const ANALYSIS_TAIL: &'static str =
    "`\n\n## 分析结果\n### ✅ 优点\n- **代码结构清晰** - 函数职责明确，模块化程度高\n- **注释完整** - 关键逻辑都有详细说明\n- **错误处理** - 异常情况处理得当\n\n### ⚠️ 改进建议\n- **性能优化** - 可以考虑使用更高效的算法\n- **代码复用** - 部分逻辑可以提取为公共函数\n- **测试覆盖** - 建议增加单元测试\n\n### 🎯 下一步行动\n1. 重构重复代码\n2. 添加性能测试\n3. 完善文档说明";

/// The advice on a project.
pub const OPTIMIZATION: &'static str =
    "# 🚀 项目优化建议\n\n## 架构优化\n### 📁 目录结构\n```\nsrc/\n├── core/          # 核心业务逻辑\n├── utils/         # 工具函数\n├── config/        # 配置管理\n└── tests/         # 测试文件\n```\n\n### 🔧 技术栈建议\n- **依赖管理** - 使用 Cargo.toml 管理依赖版本\n- **代码质量** - 集成 clippy 和 rustfmt\n- **CI/CD** - 配置 GitHub Actions 自动化流程\n\n## 性能优化\n- **内存管理** - 减少不必要的克隆操作\n- **并发处理** - 使用 tokio 异步编程\n- **缓存策略** - 实现智能缓存机制\n\n## 安全加固\n- **输入验证** - 严格验证用户输入\n- **错误处理** - 避免敏感信息泄露\n- **依赖审计** - 定期检查依赖安全性";

/// The answer to a question up to the question.
pub const ANSWER_HEAD: &'static str =
    "# 💡 技术问答\n\n## 您的问题\n> ";

/// The answer to a question after the question.
pub const ANSWER_TAIL: &'static str =
    "\n\n## 解答\n基于您的问题，我建议从以下几个方面考虑：\n\n### 🎯 核心要点\n- **最佳实践** - 遵循行业标准和社区约定\n- **性能考量** - 平衡功能需求和性能表现\n- **可维护性** - 编写易于理解和修改的代码\n\n### 📚 相关资源\n- [Rust 官方文档](https://doc.rust-lang.org/)\n- [Rust 编程指南](https://rust-lang.github.io/api-guidelines/)\n- [异步编程手册](https://rust-lang.github.io/async-book/)\n\n### 🔗 推荐工具\n- **开发环境** - VS Code + rust-analyzer\n- **测试框架** - cargo test + proptest\n- **性能分析** - cargo flamegraph";

/// The answer to any other line up to the line.
pub const GENERAL_HEAD: &'static str =
    "# 🤖 AI 助手回复\n\n## 您的输入\n> ";

/// The answer to any other line after the line.
pub const GENERAL_TAIL: &'static str =
    "\n\n## 我的理解\n感谢您的输入！我正在分析您的需求...\n\n### 🎯 可能的帮助方向\n- **代码审查** - 分析代码质量和潜在问题\n- **架构设计** - 提供系统设计建议\n- **技术选型** - 推荐合适的技术方案\n- **最佳实践** - 分享行业经验和标准\n\n### 💡 建议\n如果您有具体的代码或项目需要分析，可以使用：\n- `analyze <文件路径>` - 分析特定文件\n- `optimize` - 获取项目优化建议\n- `ask <具体问题>` - 咨询技术问题\n\n请告诉我您希望我如何帮助您！";

/// What a line of the chat asks for.
#[derive(Debug, Clone, Copy, PartialEq, Eq, Structural)]
pub enum ChatCommand {
    /// The chat ends.
    Exit,
    /// The commands are shown.
    Help,
    /// The line is answered.
    Input,
}

/// What a line of the chat asks for: `exit` and `quit` end the chat, `help`
/// shows the commands, in any case of their letters; anything else is
/// answered.
pub open spec fn chat_command_of(line: Seq<char>) -> ChatCommand {
    if same_ignoring_case(line, "exit"@) || same_ignoring_case(line, "quit"@) {
        ChatCommand::Exit
    } else if same_ignoring_case(line, "help"@) {
        ChatCommand::Help
    } else {
        ChatCommand::Input
    }
}

/// What follows the prefix in a text that begins with it; nothing for a text
/// that does not.
pub open spec fn after_prefix(s: Seq<char>, prefix: Seq<char>) -> Seq<char> {
    if starts_with(s, prefix) {
        s.skip(prefix.len() as int)
    } else {
        Seq::empty()
    }
}

/// The answer to a request for an analysis.
pub open spec fn analysis_text(input: Seq<char>) -> Seq<char> {
    ANALYSIS_HEAD@ + trimmed(after_prefix(input, "analyze"@)) + ANALYSIS_TAIL@
}

/// The answer to a question.
pub open spec fn answer_text(input: Seq<char>) -> Seq<char> {
    ANSWER_HEAD@ + trimmed(after_prefix(input, "ask"@)) + ANSWER_TAIL@
}

/// The answer to anything else.
pub open spec fn general_text(input: Seq<char>) -> Seq<char> {
    GENERAL_HEAD@ + input + GENERAL_TAIL@
}

/// The answer to a line of the chat, by what the line begins with.
pub open spec fn reply_text(input: Seq<char>) -> Seq<char> {
    if starts_with(input, "analyze"@) {
        analysis_text(input)
    } else if starts_with(input, "optimize"@) {
        OPTIMIZATION@
    } else if starts_with(input, "ask"@) {
        answer_text(input)
    } else {
        general_text(input)
    }
}

fn strip_prefix(s: &str, prefix: &str) -> (r: String)
    ensures
        r@ == after_prefix(s@, prefix@),
{
    if str_starts_with(s, prefix) {
        let v = to_chars(s);
        let n = prefix.unicode_len();
        assert(v@.subrange(n as int, v.len() as int) =~= s@.skip(n as int));
        from_chars(&v, n, v.len())
    } else {
        String::new()
    }
}

/// What a line of the chat asks for.
pub fn chat_command(line: &str) -> (r: ChatCommand)
    ensures
        r == chat_command_of(line@),
{
    if eq_ignore_ascii_case(line, "exit") || eq_ignore_ascii_case(line, "quit") {
        ChatCommand::Exit
    } else if eq_ignore_ascii_case(line, "help") {
        ChatCommand::Help
    } else {
        ChatCommand::Input
    }
}

/// The answer to a request for the analysis of a file.
pub fn generate_code_analysis_response(input: &str) -> (r: String)
    ensures
        r@ == analysis_text(input@),
{
    let file_path = trim(strip_prefix(input, "analyze").as_str());
    let mut r = ANALYSIS_HEAD.to_string();
    r.append(file_path.as_str());
    r.append(ANALYSIS_TAIL);
    r
}

/// The advice on a project.
pub fn generate_optimization_response() -> (r: String)
    ensures
        r@ == OPTIMIZATION@,
{
    OPTIMIZATION.to_string()
}

/// The answer to a question.
pub fn generate_qa_response(input: &str) -> (r: String)
    ensures
        r@ == answer_text(input@),
{
    let question = trim(strip_prefix(input, "ask").as_str());
    let mut r = ANSWER_HEAD.to_string();
    r.append(question.as_str());
    r.append(ANSWER_TAIL);
    r
}

/// The answer to a line that is no command.
pub fn generate_general_response(input: &str) -> (r: String)
    ensures
        r@ == general_text(input@),
{
    let mut r = GENERAL_HEAD.to_string();
    r.append(input);
    r.append(GENERAL_TAIL);
    r
}

/// The request that asks the human for the next line of the chat.
pub fn chat_prompt() -> (r: ZhiRequest)
    ensures
        r.message@ == "请输入您的问题或需求:"@,
        views(r.predefined_options@) == seq![
            "代码分析"@,
            "项目优化建议"@,
            "技术问题咨询"@,
            "最佳实践指导"@,
        ],
        !r.is_markdown,
        r.terminal_mode == Some(false),
{
    let predefined_options = vec![
        "代码分析".to_string(),
        "项目优化建议".to_string(),
        "技术问题咨询".to_string(),
        "最佳实践指导".to_string(),
    ];
    assert(views(predefined_options@) =~= seq![
        "代码分析"@,
        "项目优化建议"@,
        "技术问题咨询"@,
        "最佳实践指导"@,
    ]);
    ZhiRequest {
        message: "请输入您的问题或需求:".to_string(),
        predefined_options,
        is_markdown: false,
        terminal_mode: Some(false),
    }
}

/// The request that shows the answer to a line of the chat, with what the
/// human may do next.
pub fn handle_user_input(input: &str) -> (r: ZhiRequest)
    ensures
        r.message@ == reply_text(input@),
        views(r.predefined_options@) == seq![
            "继续分析"@,
            "查看详细信息"@,
            "提供更多建议"@,
            "切换话题"@,
        ],
        r.is_markdown,
        r.terminal_mode == Some(false),
{
    let message = if str_starts_with(input, "analyze") {
        generate_code_analysis_response(input)
    } else if str_starts_with(input, "optimize") {
        generate_optimization_response()
    } else if str_starts_with(input, "ask") {
        generate_qa_response(input)
    } else {
        generate_general_response(input)
    };
    let predefined_options = vec![
        "继续分析".to_string(),
        "查看详细信息".to_string(),
        "提供更多建议".to_string(),
        "切换话题".to_string(),
    ];
    assert(views(predefined_options@) =~= seq![
        "继续分析"@,
        "查看详细信息"@,
        "提供更多建议"@,
        "切换话题"@,
    ]);
    ZhiRequest { message, predefined_options, is_markdown: true, terminal_mode: Some(false) }
}

} // verus!
