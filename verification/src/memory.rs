//! The memory tool: what a request asks of the note store, and the summary of
//! a project's notes.

use crate::text::{decimal, from_chars, push_decimal, str_eq, to_chars, trim, trimmed};
use crate::types::{JiyiRequest, McpError, McpErrorView};
use vstd::prelude::*;

verus! {

/// The kinds of note.
#[derive(Debug, Clone, Copy, PartialEq, Eq, Structural)]
pub enum MemoryCategory {
    Rule,
    Preference,
    Pattern,
    Context,
}

/// A note.
#[derive(Debug, Clone)]
pub struct MemoryEntry {
    pub id: String,
    pub content: String,
    pub category: MemoryCategory,
    /// When the note was made, as an RFC 3339 time.
    pub created_at: String,
    /// When the note was last changed, as an RFC 3339 time.
    pub updated_at: String,
}

/// What is kept about the notes of a project.
#[derive(Debug, Clone)]
pub struct MemoryMetadata {
    pub project_path: String,
    pub last_organized: String,
    pub total_entries: usize,
    pub version: String,
}

/// The directory of a category inside the directory of the notes.
pub open spec fn category_directory(category: MemoryCategory) -> Seq<char> {
    match category {
        MemoryCategory::Rule => "rules"@,
        MemoryCategory::Preference => "preferences"@,
        MemoryCategory::Pattern => "patterns"@,
        MemoryCategory::Context => "context"@,
    }
}

/// What a category is called in the summary.
pub open spec fn category_label(category: MemoryCategory) -> Seq<char> {
    match category {
        MemoryCategory::Rule => "规范"@,
        MemoryCategory::Preference => "偏好"@,
        MemoryCategory::Pattern => "实践"@,
        MemoryCategory::Context => "上下文"@,
    }
}

/// The name of a category as it prints.
pub open spec fn category_name(category: MemoryCategory) -> Seq<char> {
    match category {
        MemoryCategory::Rule => "Rule"@,
        MemoryCategory::Preference => "Preference"@,
        MemoryCategory::Pattern => "Pattern"@,
        MemoryCategory::Context => "Context"@,
    }
}

/// The category that goes by a name; a name of no category is project
/// context.
pub open spec fn category_named(name: Seq<char>) -> MemoryCategory {
    if name == "rule"@ {
        MemoryCategory::Rule
    } else if name == "preference"@ {
        MemoryCategory::Preference
    } else if name == "pattern"@ {
        MemoryCategory::Pattern
    } else {
        MemoryCategory::Context
    }
}

impl MemoryCategory {
    /// The category that goes by a name.
    pub fn parse(name: &str) -> (r: MemoryCategory)
        ensures
            r == category_named(name@),
    {
        if str_eq(name, "rule") {
            MemoryCategory::Rule
        } else if str_eq(name, "preference") {
            MemoryCategory::Preference
        } else if str_eq(name, "pattern") {
            MemoryCategory::Pattern
        } else {
            MemoryCategory::Context
        }
    }

    /// The directory of the category inside the directory of the notes.
    pub fn directory(&self) -> (r: &'static str)
        ensures
            r@ == category_directory(*self),
    {
        match self {
            MemoryCategory::Rule => "rules",
            MemoryCategory::Preference => "preferences",
            MemoryCategory::Pattern => "patterns",
            MemoryCategory::Context => "context",
        }
    }

    /// What the category is called in the summary.
    pub fn label(&self) -> (r: &'static str)
        ensures
            r@ == category_label(*self),
    {
        match self {
            MemoryCategory::Rule => "规范",
            MemoryCategory::Preference => "偏好",
            MemoryCategory::Pattern => "实践",
            MemoryCategory::Context => "上下文",
        }
    }

    /// The name of the category as it prints.
    pub fn name(&self) -> (r: &'static str)
        ensures
            r@ == category_name(*self),
    {
        match self {
            MemoryCategory::Rule => "Rule",
            MemoryCategory::Preference => "Preference",
            MemoryCategory::Pattern => "Pattern",
            MemoryCategory::Context => "Context",
        }
    }
}

/// What the summary reads of a note.
pub struct EntryView {
    pub content: Seq<char>,
    pub category: MemoryCategory,
}

/// The content and the category of each note.
pub open spec fn entry_views(v: Seq<MemoryEntry>) -> Seq<EntryView> {
    Seq::new(v.len(), |i: int| EntryView { content: v[i].content@, category: v[i].category })
}

/// How many of the notes are of the category.
pub open spec fn count_of(entries: Seq<EntryView>, category: MemoryCategory) -> nat
    decreases entries.len(),
{
    if entries.len() == 0 {
        0
    } else if entries.last().category == category {
        count_of(entries.drop_last(), category) + 1
    } else {
        count_of(entries.drop_last(), category)
    }
}

/// The first `n` characters of a text, or all of it.
pub open spec fn first_chars(s: Seq<char>, n: nat) -> Seq<char> {
    if s.len() <= n {
        s
    } else {
        s.take(n as int)
    }
}

/// The line of the note of the given index in the list of the latest notes.
pub open spec fn recent_line(index: int, entry: EntryView) -> Seq<char> {
    decimal((index + 1) as nat) + ". ["@ + category_label(entry.category) + "] "@ + first_chars(
        entry.content,
        50,
    ) + "\n"@
}

/// The lines of the first `n` notes.
pub open spec fn recent_lines(entries: Seq<EntryView>, n: nat) -> Seq<char>
    decreases n,
{
    if n == 0 || n > entries.len() {
        Seq::empty()
    } else {
        recent_lines(entries, (n - 1) as nat) + recent_line(n - 1, entries[n - 1])
    }
}

/// How many notes the summary lists.
pub open spec fn listed(total: nat) -> nat {
    if total < 5 {
        total
    } else {
        5
    }
}

/// The summary of a project's notes: the path; where there are notes, their
/// number, the number in each category, and the first five of them, cut to 50
/// characters.
pub open spec fn summary_text(project_path: Seq<char>, entries: Seq<EntryView>) -> Seq<char> {
    if entries.len() == 0 {
        "项目路径: "@ + project_path + "\n暂无记忆条目"@
    } else {
        "项目路径: "@ + project_path + "\n总记忆条目: "@ + decimal(entries.len()) + "\n\n"@
            + "分类统计:\n"@ + "- 规范规则: "@ + decimal(count_of(entries, MemoryCategory::Rule))
            + " 条\n"@ + "- 用户偏好: "@ + decimal(count_of(entries, MemoryCategory::Preference))
            + " 条\n"@ + "- 最佳实践: "@ + decimal(count_of(entries, MemoryCategory::Pattern))
            + " 条\n"@ + "- 项目上下文: "@ + decimal(count_of(entries, MemoryCategory::Context))
            + " 条\n\n"@ + "最近记忆:\n"@ + recent_lines(entries, listed(entries.len()))
    }
}

/// The notes of a project.
#[derive(Debug, Clone)]
pub struct MemoryManager {
    pub memory_dir: String,
    pub project_path: String,
}

/// The name of the directory of the notes, inside the project.
pub const MEMORY_DIRECTORY: &'static str = ".cunzhi-memory";

/// The name of the file that holds what is kept about the notes.
pub const METADATA_FILE: &'static str = "metadata.json";

fn count_category(memories: &Vec<MemoryEntry>, category: MemoryCategory) -> (r: usize)
    ensures
        r == count_of(entry_views(memories@), category),
{
    let mut n: usize = 0;
    let mut i: usize = 0;
    while i < memories.len()
        invariant
            i <= memories.len(),
            n <= i,
            n == count_of(entry_views(memories@).take(i as int), category),
        decreases memories.len() - i,
    {
        proof {
            let e = entry_views(memories@);
            assert(e.take(i + 1).drop_last() =~= e.take(i as int));
            assert(e.take(i + 1).last() == e[i as int]);
        }
        if memories[i].category == category {
            n += 1;
        }
        i += 1;
    }
    assert(entry_views(memories@).take(memories.len() as int) =~= entry_views(memories@));
    n
}

fn first_chars_of(s: &str, n: usize) -> (r: String)
    ensures
        r@ == first_chars(s@, n as nat),
{
    let v = to_chars(s);
    if v.len() <= n {
        assert(v@.subrange(0, v.len() as int) =~= v@);
        from_chars(&v, 0, v.len())
    } else {
        from_chars(&v, 0, n)
    }
}

impl MemoryManager {
    /// The summary of the project's notes, the latest first in `memories`.
    pub fn get_project_summary(&self, memories: &Vec<MemoryEntry>) -> (r: Result<String, String>)
        ensures
            r is Ok,
            r->Ok_0@ == summary_text(self.project_path@, entry_views(memories@)),
    {
        let ghost entries = entry_views(memories@);
        let mut r = "项目路径: ".to_string();
        r.append(self.project_path.as_str());
        if memories.len() == 0 {
            r.append("\n暂无记忆条目");
            return Ok(r);
        }
        r.append("\n总记忆条目: ");
        push_decimal(&mut r, memories.len() as u64);
        r.append("\n\n");
        r.append("分类统计:\n");
        r.append("- 规范规则: ");
        push_decimal(&mut r, count_category(memories, MemoryCategory::Rule) as u64);
        r.append(" 条\n");
        r.append("- 用户偏好: ");
        push_decimal(&mut r, count_category(memories, MemoryCategory::Preference) as u64);
        r.append(" 条\n");
        r.append("- 最佳实践: ");
        push_decimal(&mut r, count_category(memories, MemoryCategory::Pattern) as u64);
        r.append(" 条\n");
        r.append("- 项目上下文: ");
        push_decimal(&mut r, count_category(memories, MemoryCategory::Context) as u64);
        r.append(" 条\n\n");
        r.append("最近记忆:\n");
        let ghost head = r@;
        let shown: usize = if memories.len() < 5 {
            memories.len()
        } else {
            5
        };
        let mut i: usize = 0;
        assert(r@ =~= head + recent_lines(entries, 0));
        while i < shown
            invariant
                i <= shown <= memories.len(),
                entries == entry_views(memories@),
                r@ == head + recent_lines(entries, i as nat),
            decreases shown - i,
        {
            let mut line = String::new();
            push_decimal(&mut line, (i + 1) as u64);
            line.append(". [");
            line.append(memories[i].category.label());
            line.append("] ");
            line.append(first_chars_of(memories[i].content.as_str(), 50).as_str());
            line.append("\n");
            assert(line@ =~= recent_line(i as int, entries[i as int]));
            r.append(line.as_str());
            assert(r@ =~= head + (recent_lines(entries, i as nat) + recent_line(
                i as int,
                entries[i as int],
            )));
            i += 1;
        }
        Ok(r)
    }
}

/// What the memory tool is to do.
#[derive(Debug, Clone)]
pub enum MemoryAction {
    /// Add a note.
    Add { content: String, category: MemoryCategory },
    /// Hand back the summary of the project's notes.
    Recall,
}

/// The view of a [`MemoryAction`].
pub enum MemoryActionView {
    Add { content: Seq<char>, category: MemoryCategory },
    Recall,
}

impl View for MemoryAction {
    type V = MemoryActionView;

    open spec fn view(&self) -> MemoryActionView {
        match self {
            MemoryAction::Add { content, category } => MemoryActionView::Add {
                content: content@,
                category: *category,
            },
            MemoryAction::Recall => MemoryActionView::Recall,
        }
    }
}

/// What a request asks of the memory tool, given whether the project's path
/// exists and, where it does, whether the store of the notes could be opened.
/// A path that does not exist, an unknown action, and a note without content
/// are `InvalidParams`; a store that cannot be opened is `InternalError`.
pub open spec fn memory_action(
    action: Seq<char>,
    project_path: Seq<char>,
    content: Seq<char>,
    category: Seq<char>,
    path_exists: bool,
    store: Result<(), Seq<char>>,
) -> Result<MemoryActionView, McpErrorView> {
    if !path_exists {
        Err(McpErrorView::InvalidParams("项目路径不存在: "@ + project_path))
    } else {
        match store {
            Err(e) => Err(McpErrorView::InternalError("创建记忆管理器失败: "@ + e)),
            Ok(_) => if action == "记忆"@ {
                if trimmed(content).len() == 0 {
                    Err(McpErrorView::InvalidParams("缺少记忆内容"@))
                } else {
                    Ok(MemoryActionView::Add { content, category: category_named(category) })
                }
            } else if action == "回忆"@ {
                Ok(MemoryActionView::Recall)
            } else {
                Err(
                    McpErrorView::InvalidParams(
                        "未知的操作类型: "@ + action + "，支持的操作: 记忆, 回忆"@,
                    ),
                )
            },
        }
    }
}

/// The answer to a note that was added.
pub open spec fn added_text(id: Seq<char>, content: Seq<char>, category: MemoryCategory) -> Seq<
    char,
> {
    "✅ 记忆已添加，ID: "@ + id + "\n📝 内容: "@ + content + "\n📂 分类: "@ + category_name(category)
}

/// The memory tool.
#[derive(Debug, Clone)]
pub struct MemoryTool;

impl MemoryTool {
    /// What `request` asks of the tool.
    pub fn jiyi(request: &JiyiRequest, path_exists: bool, store: Result<(), String>) -> (r: Result<
        MemoryAction,
        McpError,
    >)
        ensures
            match r {
                Ok(a) => memory_action(
                    request.action@,
                    request.project_path@,
                    request.content@,
                    request.category@,
                    path_exists,
                    match store {
                        Ok(_) => Ok(()),
                        Err(e) => Err(e@),
                    },
                ) == Ok::<MemoryActionView, McpErrorView>(a@),
                Err(e) => memory_action(
                    request.action@,
                    request.project_path@,
                    request.content@,
                    request.category@,
                    path_exists,
                    match store {
                        Ok(_) => Ok(()),
                        Err(e) => Err(e@),
                    },
                ) == Err::<MemoryActionView, McpErrorView>(e@),
            },
    {
        if !path_exists {
            let mut m = "项目路径不存在: ".to_string();
            m.append(request.project_path.as_str());
            return Err(McpError::invalid_params(m, None));
        }
        match store {
            Err(e) => {
                let mut m = "创建记忆管理器失败: ".to_string();
                m.append(e.as_str());
                return Err(McpError::internal_error(m, None));
            },
            Ok(_) => {},
        }
        if str_eq(request.action.as_str(), "记忆") {
            if trim(request.content.as_str()).as_str().is_empty() {
                return Err(McpError::invalid_params("缺少记忆内容".to_string(), None));
            }
            Ok(
                MemoryAction::Add {
                    content: request.content.clone(),
                    category: MemoryCategory::parse(request.category.as_str()),
                },
            )
        } else if str_eq(request.action.as_str(), "回忆") {
            Ok(MemoryAction::Recall)
        } else {
            let mut m = "未知的操作类型: ".to_string();
            m.append(request.action.as_str());
            m.append("，支持的操作: 记忆, 回忆");
            Err(McpError::invalid_params(m, None))
        }
    }

    /// The answer to a note that was added under the identifier `id`.
    pub fn added(id: &str, content: &str, category: MemoryCategory) -> (r: String)
        ensures
            r@ == added_text(id@, content@, category),
    {
        let mut r = "✅ 记忆已添加，ID: ".to_string();
        r.append(id);
        r.append("\n📝 内容: ");
        r.append(content);
        r.append("\n📂 分类: ");
        r.append(category.name());
        r
    }

    /// The error of a note that could not be added.
    pub fn add_failed(reason: &str) -> (r: McpError)
        ensures
            r@ == McpErrorView::InternalError("添加记忆失败: "@ + reason@),
    {
        let mut m = "添加记忆失败: ".to_string();
        m.append(reason);
        McpError::internal_error(m, None)
    }

    /// The error of a summary that could not be made.
    pub fn recall_failed(reason: &str) -> (r: McpError)
        ensures
            r@ == McpErrorView::InternalError("获取项目信息失败: "@ + reason@),
    {
        let mut m = "获取项目信息失败: ".to_string();
        m.append(reason);
        McpError::internal_error(m, None)
    }
}

/// What is shown of a tool in the settings.
#[derive(Debug, Clone)]
pub struct MCPToolConfig {
    pub id: String,
    pub name: String,
    pub description: String,
    pub enabled: bool,
    pub can_disable: bool,
    pub icon: String,
    pub icon_bg: String,
    pub dark_icon_bg: String,
}

/// The two tools as the settings show them: the interaction tool, which
/// cannot be disabled, and the memory tool, which can.
pub fn get_default_mcp_tools_config() -> (r: Vec<MCPToolConfig>)
    ensures
        r@.len() == 2,
        r@[0].id@ == "zhi"@,
        r@[0].name@ == "寸止工具"@,
        r@[0].description@ == "智能代码审查交互工具，支持预定义选项、自由文本输入和图片上传"@,
        r@[0].enabled,
        !r@[0].can_disable,
        r@[0].icon@ == "🤖"@,
        r@[0].icon_bg@ == "#3b82f6"@,
        r@[0].dark_icon_bg@ == "#1e40af"@,
        r@[1].id@ == "ji"@,
        r@[1].name@ == "记忆管理工具"@,
        r@[1].description@ == "全局记忆管理工具，用于存储和管理重要的开发规范、用户偏好和最佳实践"@,
        r@[1].enabled,
        r@[1].can_disable,
        r@[1].icon@ == "🧠"@,
        r@[1].icon_bg@ == "#10b981"@,
        r@[1].dark_icon_bg@ == "#047857"@,
{
    vec![
        MCPToolConfig {
            id: "zhi".to_string(),
            name: "寸止工具".to_string(),
            description: "智能代码审查交互工具，支持预定义选项、自由文本输入和图片上传".to_string(),
            enabled: true,
            can_disable: false,
            icon: "🤖".to_string(),
            icon_bg: "#3b82f6".to_string(),
            dark_icon_bg: "#1e40af".to_string(),
        },
        MCPToolConfig {
            id: "ji".to_string(),
            name: "记忆管理工具".to_string(),
            description: "全局记忆管理工具，用于存储和管理重要的开发规范、用户偏好和最佳实践".to_string(),
            enabled: true,
            can_disable: true,
            icon: "🧠".to_string(),
            icon_bg: "#10b981".to_string(),
            dark_icon_bg: "#047857".to_string(),
        },
    ]
}


/// A moment: the seconds since the beginning of 1970, and the nanoseconds
/// beyond them.
#[derive(Debug, Clone, Copy, PartialEq, Eq, Structural)]
pub struct Moment {
    pub seconds: i64,
    pub nanos: u32,
}

/// The first moment is later than the second.
pub open spec fn later(a: Moment, b: Moment) -> bool {
    a.seconds > b.seconds || (a.seconds == b.seconds && a.nanos > b.nanos)
}

/// The note of the index `a` stands before the note of the index `b` in the
/// list of the notes: it is the later one, or, of two of the same moment, the
/// one that was read first.
pub open spec fn stands_before(times: Seq<Moment>, a: int, b: int) -> bool {
    later(times[a], times[b]) || (times[a] == times[b] && a < b)
}

/// `order` lists each of the first `n` indices once.
pub open spec fn lists_each_once(order: Seq<usize>, n: int) -> bool {
    &&& order.len() == n
    &&& forall|i: int| 0 <= i < order.len() ==> (#[trigger] order[i]) < n
    &&& forall|i: int, j: int| 0 <= i < j < order.len() ==> order[i] != order[j]
}

/// `order` lists the indices so that each stands before the next.
pub open spec fn latest_first(times: Seq<Moment>, order: Seq<usize>) -> bool {
    forall|i: int, j: int|
        0 <= i < j < order.len() ==> stands_before(
            times,
            #[trigger] order[i] as int,
            #[trigger] order[j] as int,
        )
}

fn is_later(a: &Moment, b: &Moment) -> (r: bool)
    ensures
        r == later(*a, *b),
{
    a.seconds > b.seconds || (a.seconds == b.seconds && a.nanos > b.nanos)
}

/// The order in which the notes are listed, given the moment at which each
/// was made: the latest first, and notes of the same moment in the order in
/// which they stand.
pub fn latest_first_order(times: &Vec<Moment>) -> (order: Vec<usize>)
    ensures
        lists_each_once(order@, times@.len() as int),
        latest_first(times@, order@),
{
    let mut order: Vec<usize> = Vec::new();
    let mut i: usize = 0;
    while i < times.len()
        invariant
            i <= times.len(),
            lists_each_once(order@, i as int),
            latest_first(times@, order@),
        decreases times.len() - i,
    {
        let mut p: usize = order.len();
        while p > 0 && is_later(&times[i], &times[order[p - 1]])
            invariant
                p <= order.len(),
                i < times.len(),
                lists_each_once(order@, i as int),
                forall|k: int| p <= k < order.len() ==> later(times@[i as int], times@[order@[k] as int]),
            decreases p,
        {
            p -= 1;
        }
        let ghost before = order@;
        order.insert(p, i);
        proof {
            let after = order@;
            assert(after == before.insert(p as int, i));
            assert forall|a: int| 0 <= a < after.len() implies (#[trigger] after[a]) < i + 1 by {
                if a < p {
                    assert(after[a] == before[a]);
                } else if a > p {
                    assert(after[a] == before[a - 1]);
                }
            }
            assert forall|a: int, b: int| 0 <= a < b < after.len() implies after[a]
                != after[b] && stands_before(times@, #[trigger] after[a] as int, #[trigger] after[b] as int) by {
                if b < p {
                    assert(after[a] == before[a] && after[b] == before[b]);
                } else if a > p {
                    assert(after[a] == before[a - 1] && after[b] == before[b - 1]);
                } else if a == p {
                    assert(after[b] == before[b - 1]);
                    assert(before[b - 1] < i);
                    assert(later(times@[i as int], times@[before[b - 1] as int]));
                } else if b == p {
                    assert(after[a] == before[a]);
                    assert(before[a] < i);
                    assert(latest_first(times@, before));
                    if p > 0 {
                        assert(!later(times@[i as int], times@[before[p - 1] as int]));
                        if a < p - 1 {
                            assert(stands_before(times@, before[a] as int, before[p - 1] as int));
                        }
                    }
                } else {
                    assert(after[a] == before[a] && after[b] == before[b - 1]);
                }
            }
        }
        i += 1;
    }
    order
}

/// Only one order lists each index once, the latest first.
pub proof fn lemma_one_order(times: Seq<Moment>, first: Seq<usize>, second: Seq<usize>)
    requires
        lists_each_once(first, times.len() as int),
        latest_first(times, first),
        lists_each_once(second, times.len() as int),
        latest_first(times, second),
    ensures
        first == second,
    decreases times.len(),
{
    lemma_same_order(times, first, second, 0);
    assert(first =~= second);
}

proof fn lemma_holds(order: Seq<usize>, n: int, x: usize)
    requires
        lists_each_once(order, n),
        x < n,
    ensures
        exists|j: int| 0 <= j < order.len() && order[j] == x,
    decreases n,
{
    if exists|p: int| 0 <= p < order.len() && order[p] == n - 1 {
        let p = choose|p: int| 0 <= p < order.len() && order[p] == n - 1;
        if x == n - 1 {
            assert(order[p] == x);
        } else {
            let rest = order.remove(p);
            assert forall|i: int| 0 <= i < rest.len() implies (#[trigger] rest[i]) < n - 1 by {
                if i < p {
                    assert(rest[i] == order[i]);
                    assert(order[i] != order[p]);
                } else {
                    assert(rest[i] == order[i + 1]);
                    assert(order[p] != order[i + 1]);
                }
            }
            assert forall|i: int, j: int| 0 <= i < j < rest.len() implies rest[i] != rest[j] by {
                let oi = if i < p {
                    i
                } else {
                    i + 1
                };
                let oj = if j < p {
                    j
                } else {
                    j + 1
                };
                assert(rest[i] == order[oi] && rest[j] == order[oj]);
            }
            lemma_holds(rest, n - 1, x);
            let j = choose|j: int| 0 <= j < rest.len() && rest[j] == x;
            if j < p {
                assert(order[j] == x);
            } else {
                assert(order[j + 1] == x);
            }
        }
    } else {
        let rest = order.drop_last();
        assert forall|i: int| 0 <= i < rest.len() implies (#[trigger] rest[i]) < n - 1 by {
            assert(rest[i] == order[i]);
        }
        assert forall|i: int, j: int| 0 <= i < j < rest.len() implies rest[i] != rest[j] by {
            assert(rest[i] == order[i] && rest[j] == order[j]);
        }
        let last = order[n - 1];
        assert(last < n - 1);
        lemma_holds(rest, n - 1, last);
        let j = choose|j: int| 0 <= j < rest.len() && rest[j] == last;
        assert(order[j] == order[n - 1]);
        assert(false);
    }
}

proof fn lemma_same_order(times: Seq<Moment>, first: Seq<usize>, second: Seq<usize>, k: int)
    requires
        lists_each_once(first, times.len() as int),
        latest_first(times, first),
        lists_each_once(second, times.len() as int),
        latest_first(times, second),
        0 <= k <= times.len(),
        forall|i: int| 0 <= i < k ==> first[i] == second[i],
    ensures
        forall|i: int| 0 <= i < times.len() ==> first[i] == second[i],
    decreases times.len() - k,
{
    if k < times.len() {
        let a = first[k];
        let b = second[k];
        if a != b {
            lemma_holds(second, times.len() as int, a);
            lemma_holds(first, times.len() as int, b);
            let ja = choose|j: int| 0 <= j < second.len() && second[j] == a;
            let jb = choose|j: int| 0 <= j < first.len() && first[j] == b;
            if ja < k {
                assert(first[ja] == second[ja]);
                assert(first[ja] != first[k]);
            }
            if jb < k {
                assert(second[jb] == first[jb]);
                assert(second[jb] != second[k]);
            }
            assert(ja > k && jb > k);
            assert(stands_before(times, first[k] as int, first[jb] as int));
            assert(stands_before(times, second[k] as int, second[ja] as int));
            assert(false);
        }
        lemma_same_order(times, first, second, k + 1);
    }
}

/// The name of the file that holds the note of the identifier `id`.
pub fn entry_file_name(id: &str) -> (r: String)
    ensures
        r@ == id@ + ".json"@,
{
    let mut r = id.to_string();
    r.append(".json");
    r
}

} // verus!
