//! Setting a project up: the configuration templates and the checks on a
//! project's name and directory.

use crate::config::{
    default_terminal_config, default_version, AppConfig, McpConfig, ReplyConfig, ToolMap, VERSION,
};
use crate::errors::PathFacts;
use crate::text::{starts_with, str_eq, str_starts_with, to_chars, views};
use vstd::prelude::*;

verus! {

/// Whether a character is a letter or a digit, of any script.
pub uninterp spec fn alphanumeric(c: char) -> bool;

/// `char::is_alphanumeric`: whether the character is alphabetic or numeric by
/// the Unicode standard.
pub assume_specification[ char::is_alphanumeric ](c: char) -> (r: bool)
    ensures
        r == alphanumeric(c),
;

/// A ready-made configuration.
#[derive(Debug, Clone)]
pub struct ProjectTemplate {
    pub name: String,
    pub description: String,
    pub mcp_tools: Vec<String>,
    pub enable_continue_reply: bool,
    pub continue_threshold: u32,
}

/// The view of a [`ProjectTemplate`].
pub struct TemplateView {
    pub name: Seq<char>,
    pub description: Seq<char>,
    pub mcp_tools: Seq<Seq<char>>,
    pub enable_continue_reply: bool,
    pub continue_threshold: u32,
}

impl View for ProjectTemplate {
    type V = TemplateView;

    open spec fn view(&self) -> TemplateView {
        TemplateView {
            name: self.name@,
            description: self.description@,
            mcp_tools: views(self.mcp_tools@),
            enable_continue_reply: self.enable_continue_reply,
            continue_threshold: self.continue_threshold,
        }
    }
}

/// The views of a vector of templates.
pub open spec fn template_views(v: Seq<ProjectTemplate>) -> Seq<TemplateView> {
    Seq::new(v.len(), |i: int| v[i]@)
}

/// The templates on offer: the basic one, the full one, and the one that
/// leaves everything to choose.
pub open spec fn templates() -> Seq<TemplateView> {
    seq![
        TemplateView {
            name: "基础配置"@,
            description: "最小化配置，只启用核心功能"@,
            mcp_tools: seq!["zhi"@],
            enable_continue_reply: false,
            continue_threshold: 1000,
        },
        TemplateView {
            name: "完整配置"@,
            description: "启用所有功能，适合完整的代码审查工作流"@,
            mcp_tools: seq!["zhi"@, "ji"@],
            enable_continue_reply: true,
            continue_threshold: 1000,
        },
        TemplateView {
            name: "自定义配置"@,
            description: "手动选择需要的功能和配置"@,
            mcp_tools: Seq::empty(),
            enable_continue_reply: true,
            continue_threshold: 1000,
        },
    ]
}

/// The first template of the list that goes by `name`.
pub open spec fn template_named(list: Seq<TemplateView>, name: Seq<char>) -> Option<TemplateView>
    decreases list.len(),
{
    if list.len() == 0 {
        None
    } else if list[0].name == name {
        Some(list[0])
    } else {
        template_named(list.drop_first(), name)
    }
}

/// The tool states of a template: each of the two tools is enabled where the
/// template names it.
pub open spec fn template_tools(template: TemplateView) -> Seq<(Seq<char>, bool)> {
    seq![
        ("zhi"@, template.mcp_tools.contains("zhi"@)),
        ("ji"@, template.mcp_tools.contains("ji"@)),
    ]
}

impl ProjectTemplate {
    /// The templates on offer.
    pub fn get_templates() -> (r: Vec<ProjectTemplate>)
        ensures
            template_views(r@) == templates(),
    {
        let basic_tools = vec!["zhi".to_string()];
        assert(views(basic_tools@) =~= seq!["zhi"@]);
        let full_tools = vec!["zhi".to_string(), "ji".to_string()];
        assert(views(full_tools@) =~= seq!["zhi"@, "ji"@]);
        let no_tools: Vec<String> = Vec::new();
        assert(views(no_tools@) =~= Seq::<Seq<char>>::empty());
        let r = vec![
            ProjectTemplate {
                name: "基础配置".to_string(),
                description: "最小化配置，只启用核心功能".to_string(),
                mcp_tools: basic_tools,
                enable_continue_reply: false,
                continue_threshold: 1000,
            },
            ProjectTemplate {
                name: "完整配置".to_string(),
                description: "启用所有功能，适合完整的代码审查工作流".to_string(),
                mcp_tools: full_tools,
                enable_continue_reply: true,
                continue_threshold: 1000,
            },
            ProjectTemplate {
                name: "自定义配置".to_string(),
                description: "手动选择需要的功能和配置".to_string(),
                mcp_tools: no_tools,
                enable_continue_reply: true,
                continue_threshold: 1000,
            },
        ];
        assert(template_views(r@) =~= templates());
        r
    }
}

/// The characters that a project's name may hold: letters, digits, the hyphen
/// and the underscore.
pub open spec fn name_char_allowed(c: char) -> bool {
    alphanumeric(c) || c == '-' || c == '_'
}

/// The longest name of a project, in bytes.
pub const MAX_PROJECT_NAME_BYTES: usize = 50;

/// Why a project's name is refused, if it is.
pub open spec fn project_name_fault(empty: bool, too_long: bool, all_allowed: bool) -> Option<
    Seq<char>,
> {
    if empty {
        Some("项目名称不能为空"@)
    } else if too_long {
        Some("项目名称不能超过 50 个字符"@)
    } else if !all_allowed {
        Some("项目名称只能包含字母、数字、连字符和下划线"@)
    } else {
        None
    }
}

/// The verdict on a project's name, given whether it is empty, whether it is
/// longer than 50 bytes, and whether all its characters are allowed.
pub fn project_name_verdict(empty: bool, too_long: bool, all_allowed: bool) -> (r: Result<
    (),
    String,
>)
    ensures
        match r {
            Ok(_) => project_name_fault(empty, too_long, all_allowed) is None,
            Err(e) => project_name_fault(empty, too_long, all_allowed) == Some(e@),
        },
{
    if empty {
        Err("项目名称不能为空".to_string())
    } else if too_long {
        Err("项目名称不能超过 50 个字符".to_string())
    } else if !all_allowed {
        Err("项目名称只能包含字母、数字、连字符和下划线".to_string())
    } else {
        Ok(())
    }
}

/// Whether `name` can be the name of a project: it is not empty, takes 50
/// bytes at most, and holds letters, digits, hyphens and underscores only.
pub fn validate_project_name(name: &str) -> (r: Result<(), String>)
    ensures
        match r {
            Ok(_) => project_name_fault(
                name@.len() == 0,
                name.len() > MAX_PROJECT_NAME_BYTES,
                forall|i: int| 0 <= i < name@.len() ==> name_char_allowed(#[trigger] name@[i]),
            ) is None,
            Err(e) => project_name_fault(
                name@.len() == 0,
                name.len() > MAX_PROJECT_NAME_BYTES,
                forall|i: int| 0 <= i < name@.len() ==> name_char_allowed(#[trigger] name@[i]),
            ) == Some(e@),
        },
{
    let v = to_chars(name);
    let mut all_allowed = true;
    let mut i: usize = 0;
    while i < v.len()
        invariant
            i <= v.len(),
            v@ == name@,
            all_allowed == forall|k: int| 0 <= k < i ==> name_char_allowed(#[trigger] name@[k]),
        decreases v.len() - i,
    {
        let c = v[i];
        if !(c.is_alphanumeric() || c == '-' || c == '_') {
            all_allowed = false;
        }
        i += 1;
    }
    project_name_verdict(v.len() == 0, name.len() > MAX_PROJECT_NAME_BYTES, all_allowed)
}

/// Whether the directory at `path` can hold a project: it must be there, be a
/// directory, and be writable.
pub fn check_project_directory(path: &str, facts: PathFacts) -> (r: Result<(), String>)
    ensures
        r is Ok <==> facts.exists && facts.is_dir && !facts.readonly,
        !facts.exists ==> r is Err && r->Err_0@ == "目录不存在: "@ + path@,
        facts.exists && !facts.is_dir ==> r is Err && r->Err_0@ == "路径不是目录: "@ + path@,
        facts.exists && facts.is_dir && facts.readonly ==> r is Err && r->Err_0@
            == "目录没有写入权限: "@ + path@,
{
    if !facts.exists {
        let mut m = "目录不存在: ".to_string();
        m.append(path);
        return Err(m);
    }
    if !facts.is_dir {
        let mut m = "路径不是目录: ".to_string();
        m.append(path);
        return Err(m);
    }
    if facts.readonly {
        let mut m = "目录没有写入权限: ".to_string();
        m.append(path);
        return Err(m);
    }
    Ok(())
}

fn names_tool(tools: &Vec<String>, tool: &str) -> (r: bool)
    ensures
        r == views(tools@).contains(tool@),
{
    let mut i: usize = 0;
    while i < tools.len()
        invariant
            i <= tools.len(),
            forall|k: int| 0 <= k < i ==> (#[trigger] views(tools@)[k]) != tool@,
        decreases tools.len() - i,
    {
        if str_eq(tools[i].as_str(), tool) {
            assert(views(tools@)[i as int] == tool@);
            return true;
        }
        i += 1;
    }
    false
}

/// The configuration that a template stands for.
pub fn configure_from_template(template: &ProjectTemplate) -> (r: AppConfig)
    ensures
        r.mcp_config.tools@ == template_tools(template@),
        r.reply_config.enable_continue_reply == template.enable_continue_reply,
        r.reply_config.auto_continue_threshold == template.continue_threshold,
        r.reply_config.continue_prompt@ == "请按照最佳实践继续"@,
        r.terminal_config.enabled,
        r.terminal_config.preferred_terminal is None,
        r.terminal_config.fallback_to_cli,
        r.terminal_config.window_title@ == "寸止 CLI 交互"@,
        r.terminal_config.timeout_seconds == 300,
        r.version@ == VERSION@,
{
    let zhi = names_tool(&template.mcp_tools, "zhi");
    let ji = names_tool(&template.mcp_tools, "ji");
    let mut tools = ToolMap::new();
    tools.insert("zhi".to_string(), zhi);
    tools.insert("ji".to_string(), ji);
    proof {
        reveal_strlit("zhi");
        reveal_strlit("ji");
        let none = Seq::<(Seq<char>, bool)>::empty();
        let first = seq![("zhi"@, zhi)];
        assert(crate::config::position_of(none, "zhi"@) is None);
        assert(none.push(("zhi"@, zhi)) =~= first);
        assert(first.drop_last() =~= none);
        assert(crate::config::position_of(first.drop_last(), "ji"@) is None);
        assert("zhi"@.len() == 3 && "ji"@.len() == 2);
        assert(first.last().0 != "ji"@);
        assert(crate::config::position_of(first, "ji"@) is None);
        assert(first.push(("ji"@, ji)) =~= template_tools(template@));
    }
    AppConfig {
        reply_config: ReplyConfig {
            enable_continue_reply: template.enable_continue_reply,
            auto_continue_threshold: template.continue_threshold,
            continue_prompt: "请按照最佳实践继续".to_string(),
        },
        mcp_config: McpConfig { tools },
        terminal_config: default_terminal_config(),
        version: default_version(),
    }
}

/// The configuration of the template that goes by `template_name`; an error
/// where there is no such template.
pub fn create_config_template(template_name: &str) -> (r: Result<AppConfig, String>)
    ensures
        match template_named(templates(), template_name@) {
            Some(template) => r is Ok && r->Ok_0.mcp_config.tools@ == template_tools(template)
                && r->Ok_0.reply_config.enable_continue_reply == template.enable_continue_reply
                && r->Ok_0.reply_config.auto_continue_threshold == template.continue_threshold
                && r->Ok_0.reply_config.continue_prompt@ == "请按照最佳实践继续"@
                && r->Ok_0.version@ == VERSION@,
            None => r is Err && r->Err_0@ == "未知的模板: "@ + template_name@,
        },
{
    let list = ProjectTemplate::get_templates();
    assert(template_views(list@).skip(0) =~= template_views(list@));
    let mut i: usize = 0;
    while i < list.len()
        invariant
            i <= list.len(),
            template_views(list@) == templates(),
            template_named(templates(), template_name@) == template_named(
                templates().skip(i as int),
                template_name@,
            ),
        decreases list.len() - i,
    {
        proof {
            let rest = templates().skip(i as int);
            assert(rest[0] == list@[i as int]@);
            assert(rest.drop_first() =~= templates().skip(i + 1));
        }
        if str_eq(list[i].name.as_str(), template_name) {
            return Ok(configure_from_template(&list[i]));
        }
        i += 1;
    }
    let mut m = "未知的模板: ".to_string();
    m.append(template_name);
    Err(m)
}


/// What the wizard shows of a template: its name, a hyphen, what it is for.
pub open spec fn template_label(template: TemplateView) -> Seq<char> {
    template.name + " - "@ + template.description
}

/// What the wizard shows of a template.
pub fn template_option(template: &ProjectTemplate) -> (r: String)
    ensures
        r@ == template_label(template@),
{
    let mut r = template.name.clone();
    r.append(" - ");
    r.append(template.description.as_str());
    r
}

/// The index of the first template that is shown as `selection`.
pub fn selected_template(list: &Vec<ProjectTemplate>, selection: &str) -> (r: Option<usize>)
    ensures
        match r {
            Some(i) => i < list@.len() && template_label(list@[i as int]@) == selection@
                && forall|k: int| 0 <= k < i ==> template_label(#[trigger] list@[k]@) != selection@,
            None => forall|k: int|
                0 <= k < list@.len() ==> template_label(#[trigger] list@[k]@) != selection@,
        },
{
    let mut i: usize = 0;
    while i < list.len()
        invariant
            i <= list.len(),
            forall|k: int| 0 <= k < i ==> template_label(#[trigger] list@[k]@) != selection@,
        decreases list.len() - i,
    {
        if str_eq(template_option(&list[i]).as_str(), selection) {
            return Some(i);
        }
        i += 1;
    }
    None
}

/// What the wizard shows of the interaction tool.
pub const ZHI_CHOICE: &'static str = "zhi - 智能代码审查工具，提供代码质量分析和建议";

/// What the wizard shows of the memory tool.
pub const JI_CHOICE: &'static str = "ji - 记忆管理工具，管理项目知识和最佳实践";

/// One of the choices begins with `prefix`.
pub open spec fn chosen(selected: Seq<Seq<char>>, prefix: Seq<char>) -> bool {
    exists|i: int| 0 <= i < selected.len() && starts_with(#[trigger] selected[i], prefix)
}

fn any_begins(selected: &Vec<String>, prefix: &str) -> (r: bool)
    ensures
        r == chosen(views(selected@), prefix@),
{
    let mut i: usize = 0;
    while i < selected.len()
        invariant
            i <= selected.len(),
            forall|k: int| 0 <= k < i ==> !starts_with(#[trigger] views(selected@)[k], prefix@),
        decreases selected.len() - i,
    {
        if str_starts_with(selected[i].as_str(), prefix) {
            assert(starts_with(views(selected@)[i as int], prefix@));
            return true;
        }
        i += 1;
    }
    false
}

/// The tool states for what was chosen in the wizard: a tool is enabled
/// where one of the choices begins with its name.
pub fn tools_from_choices(selected: &Vec<String>) -> (r: ToolMap)
    ensures
        r@ == seq![
            ("zhi"@, chosen(views(selected@), "zhi"@)),
            ("ji"@, chosen(views(selected@), "ji"@)),
        ],
{
    let zhi = any_begins(selected, "zhi");
    let ji = any_begins(selected, "ji");
    let mut tools = ToolMap::new();
    tools.insert("zhi".to_string(), zhi);
    tools.insert("ji".to_string(), ji);
    proof {
        reveal_strlit("zhi");
        reveal_strlit("ji");
        let none = Seq::<(Seq<char>, bool)>::empty();
        let first = seq![("zhi"@, zhi)];
        assert(crate::config::position_of(none, "zhi"@) is None);
        assert(none.push(("zhi"@, zhi)) =~= first);
        assert(first.drop_last() =~= none);
        assert(crate::config::position_of(first.drop_last(), "ji"@) is None);
        assert("zhi"@.len() == 3 && "ji"@.len() == 2);
        assert(first.last().0 != "ji"@);
        assert(crate::config::position_of(first, "ji"@) is None);
        assert(first.push(("ji"@, ji)) =~= seq![("zhi"@, zhi), ("ji"@, ji)]);
    }
    tools
}

} // verus!
