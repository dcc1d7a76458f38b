//! What the command line shows: boxed messages, the Markdown of the UI
//! process, and the summary of a configuration.

use crate::config::AppConfig;
use crate::storage::{numeral_value, parse_u32};
use crate::text::{
    decimal, from_chars, matches_at, occurs_at, push_decimal, repeat, repeated, to_chars, trim,
    trimmed, views,
};
use crate::ui::byte_len;
use vstd::prelude::*;

verus! {

/// The index of the first line feed of `s`, or its length where it has none.
pub open spec fn line_end(s: Seq<char>) -> int
    decreases s.len(),
{
    if s.len() == 0 || s[0] == '\n' {
        0
    } else {
        1 + line_end(s.drop_first())
    }
}

/// A line without the carriage return that may end it.
pub open spec fn without_return(line: Seq<char>) -> Seq<char> {
    if line.len() > 0 && line.last() == '\r' {
        line.drop_last()
    } else {
        line
    }
}

/// The lines of a text. A line ends with a line feed, before which a carriage
/// return does not count; the last line need not end. A last line that does
/// not end keeps its carriage return.
pub open spec fn lines_of(s: Seq<char>) -> Seq<Seq<char>>
    decreases s.len(),
{
    if s.len() == 0 {
        Seq::empty()
    } else {
        let end = line_end(s);
        if end < s.len() {
            proof {
                lemma_line_end(s);
            }
            seq![without_return(s.take(end))] + lines_of(s.skip(end + 1))
        } else {
            seq![s]
        }
    }
}

/// [`line_end`] is the index of the first line feed, or the length.
pub proof fn lemma_line_end(s: Seq<char>)
    ensures
        0 <= line_end(s) <= s.len(),
        line_end(s) < s.len() ==> s[line_end(s)] == '\n',
        forall|k: int| 0 <= k < line_end(s) ==> s[k] != '\n',
    decreases s.len(),
{
    if s.len() > 0 && s[0] != '\n' {
        lemma_line_end(s.drop_first());
        assert forall|k: int| 0 <= k < line_end(s) implies s[k] != '\n' by {
            if k > 0 {
                assert(s.drop_first()[k - 1] == s[k]);
            }
        }
    }
}

proof fn lemma_line_end_is(s: Seq<char>, end: int)
    requires
        0 <= end <= s.len(),
        end < s.len() ==> s[end] == '\n',
        forall|k: int| 0 <= k < end ==> s[k] != '\n',
    ensures
        line_end(s) == end,
{
    lemma_line_end(s);
    let found = line_end(s);
    if found < end {
        assert(s[found] == '\n');
    } else if end < found {
        assert(s[end] != '\n');
    }
}

/// `str::lines`, gathered.
pub fn split_lines(text: &str) -> (r: Vec<String>)
    ensures
        views(r@) == lines_of(text@),
{
    let v = to_chars(text);
    let mut out: Vec<String> = Vec::new();
    let mut start: usize = 0;
    assert(v@.skip(0) =~= v@);
    assert(views(out@) =~= Seq::<Seq<char>>::empty());
    while start < v.len()
        invariant
            start <= v.len(),
            v@ == text@,
            lines_of(text@) == views(out@) + lines_of(v@.skip(start as int)),
        decreases v.len() - start,
    {
        let ghost rest = v@.skip(start as int);
        let ghost before = views(out@);
        let mut end: usize = start;
        while end < v.len() && v[end] != '\n'
            invariant
                start <= end <= v.len(),
                forall|k: int| start <= k < end ==> v@[k] != '\n',
            decreases v.len() - end,
        {
            end += 1;
        }
        proof {
            assert forall|k: int| 0 <= k < end - start implies rest[k] != '\n' by {
                assert(rest[k] == v@[k + start]);
            }
            if end < v.len() {
                assert(rest[end - start] == v@[end as int]);
            }
            lemma_line_end_is(rest, end - start);
        }
        if end < v.len() {
            let stop = if end > start && v[end - 1] == '\r' {
                end - 1
            } else {
                end
            };
            let line = from_chars(&v, start, stop);
            proof {
                let whole = rest.take(end - start);
                assert(whole =~= v@.subrange(start as int, end as int));
                if end > start {
                    assert(whole.last() == v@[end - 1]);
                }
                assert(line@ =~= without_return(whole));
                assert(rest.skip(end - start + 1) =~= v@.skip(end + 1));
            }
            out.push(line);
            assert(views(out@) =~= before.push(line@));
            assert(before + (seq![line@] + lines_of(v@.skip(end + 1))) =~= before.push(line@)
                + lines_of(v@.skip(end + 1)));
            start = end + 1;
        } else {
            let line = from_chars(&v, start, end);
            proof {
                assert(line@ =~= rest);
                assert(v@.skip(v.len() as int) =~= Seq::<char>::empty());
                assert(lines_of(v@.skip(v.len() as int)) =~= Seq::<Seq<char>>::empty());
            }
            out.push(line);
            assert(views(out@) =~= before.push(line@));
            assert(before + seq![rest] =~= before.push(line@) + Seq::<Seq<char>>::empty());
            start = end;
        }
    }
    assert(v@.skip(v.len() as int) =~= Seq::<char>::empty());
    assert(views(out@) + Seq::<Seq<char>>::empty() =~= views(out@));
    out
}

/// The largest of the lengths in bytes of `title` and of the first `n`
/// lines.
pub open spec fn widest(title: Seq<char>, lines: Seq<Seq<char>>, n: nat) -> usize
    decreases n,
{
    if n == 0 || n > lines.len() {
        byte_len(title)
    } else {
        let before = widest(title, lines, (n - 1) as nat);
        if byte_len(lines[n - 1]) > before {
            byte_len(lines[n - 1])
        } else {
            before
        }
    }
}

/// The width between the corners of a box around text of the given width.
pub open spec fn inner_width(width: usize) -> usize {
    if width <= usize::MAX - 2 {
        (width + 2) as usize
    } else {
        usize::MAX
    }
}

/// A line of a box: the text, filled up with spaces to the width in bytes.
pub open spec fn boxed_line(text: Seq<char>, width: usize) -> Seq<char> {
    "│ "@ + text + repeated(" "@, (width - byte_len(text)) as nat) + " │"@
}

/// The edge of a box between two corners.
pub open spec fn box_edge(left: Seq<char>, width: usize, right: Seq<char>) -> Seq<char> {
    left + repeated("─"@, inner_width(width) as nat) + right
}

/// The box around a title and a message: the title, and below a rule the
/// lines of the message, where there is one.
pub open spec fn boxed(title: Seq<char>, message: Seq<char>) -> Seq<Seq<char>> {
    let lines = lines_of(message);
    let width = widest(title, lines, lines.len());
    let top = seq![box_edge("┌"@, width, "┐"@), boxed_line(title, width)];
    let body = if message.len() == 0 {
        top
    } else {
        top + seq![box_edge("├"@, width, "┤"@)] + Seq::new(
            lines.len(),
            |i: int| boxed_line(lines[i], width),
        )
    };
    body + seq![box_edge("└"@, width, "┘"@)]
}

fn edge(left: &str, width: usize, right: &str) -> (r: String)
    ensures
        r@ == box_edge(left@, width, right@),
{
    let inner = if width <= usize::MAX - 2 {
        width + 2
    } else {
        usize::MAX
    };
    let mut r = left.to_string();
    r.append(repeat("─", inner).as_str());
    r.append(right);
    r
}

fn line_in_box(text: &str, width: usize) -> (r: String)
    requires
        byte_len(text@) <= width,
    ensures
        r@ == boxed_line(text@, width),
{
    let mut r = "│ ".to_string();
    r.append(text);
    r.append(repeat(" ", width - text.len()).as_str());
    r.append(" │");
    r
}

proof fn lemma_widest(title: Seq<char>, lines: Seq<Seq<char>>, n: nat)
    requires
        n <= lines.len(),
    ensures
        byte_len(title) <= widest(title, lines, n),
        forall|i: int| 0 <= i < n ==> byte_len(#[trigger] lines[i]) <= widest(title, lines, n),
    decreases n,
{
    if n > 0 {
        lemma_widest(title, lines, (n - 1) as nat);
    }
}

/// The lines of the box around a title and a message.
pub fn print_boxed_message(title: &str, message: &str) -> (r: Vec<String>)
    ensures
        views(r@) == boxed(title@, message@),
{
    let lines = split_lines(message);
    let ghost shown = lines_of(message@);
    assert(views(lines@).len() == lines@.len());
    let mut width: usize = title.len();
    let mut i: usize = 0;
    while i < lines.len()
        invariant
            i <= lines.len(),
            views(lines@) == shown,
            width == widest(title@, shown, i as nat),
        decreases lines.len() - i,
    {
        let n = lines[i].as_str().len();
        assert(n == byte_len(shown[i as int]));
        if n > width {
            width = n;
        }
        i += 1;
    }
    proof {
        lemma_widest(title@, shown, shown.len());
    }
    let mut out: Vec<String> = Vec::new();
    out.push(edge("┌", width, "┐"));
    out.push(line_in_box(title, width));
    let ghost top = seq![box_edge("┌"@, width, "┐"@), boxed_line(title@, width)];
    assert(views(out@) =~= top);
    if !message.is_empty() {
        out.push(edge("├", width, "┤"));
        let mut k: usize = 0;
        while k < lines.len()
            invariant
                k <= lines.len(),
                views(lines@) == shown,
                lines@.len() == shown.len(),
                forall|j: int| 0 <= j < shown.len() ==> byte_len(#[trigger] shown[j]) <= width,
                out@.len() == k + 3,
                views(out@).take(3) == top + seq![box_edge("├"@, width, "┤"@)],
                forall|j: int|
                    0 <= j < k ==> (#[trigger] out@[j + 3])@ == boxed_line(shown[j], width),
            decreases lines.len() - k,
        {
            assert(lines@[k as int]@ == shown[k as int]);
            let line = line_in_box(lines[k].as_str(), width);
            let ghost before = views(out@);
            out.push(line);
            assert(views(out@).take(3) =~= before.take(3));
            k += 1;
        }
        out.push(edge("└", width, "┘"));
        proof {
            let want = boxed(title@, message@);
            let got = views(out@);
            assert(got.len() == want.len());
            assert forall|j: int| 0 <= j < got.len() implies got[j] == want[j] by {
                if j < 3 {
                    assert(got[j] == got.take(3)[j]);
                } else if j < shown.len() + 3 {
                    assert(out@[(j - 3) + 3]@ == boxed_line(shown[j - 3], width));
                }
            }
            assert(got =~= want);
        }
    } else {
        out.push(edge("└", width, "┘"));
        assert(views(out@) =~= boxed(title@, message@));
    }
    out
}

/// How a line of the UI process's Markdown is shown.
#[derive(Debug, Clone, Copy, PartialEq, Eq, Structural)]
pub enum LineStyle {
    Heading1,
    Heading2,
    Heading3,
    /// An item of a list, after its bullet.
    ListItem,
    Bold,
    Italic,
    Code,
    /// The fence of a code block, shown as a short rule.
    Fence,
    Blank,
    Plain,
}

/// A line and how it is shown.
#[derive(Debug, Clone)]
pub struct StyledLine {
    pub style: LineStyle,
    pub text: String,
}

/// `s` begins with `prefix`.
pub open spec fn begins(s: Seq<char>, prefix: Seq<char>) -> bool {
    occurs_at(s, prefix, 0)
}

/// `s` ends with `suffix`.
pub open spec fn ends(s: Seq<char>, suffix: Seq<char>) -> bool {
    occurs_at(s, suffix, s.len() - suffix.len())
}

/// How a line is shown, and the text that is shown of it. The marks are
/// looked for in the line without the white space around it; a line without
/// marks is shown as it is.
pub open spec fn styled_line(line: Seq<char>) -> (LineStyle, Seq<char>) {
    let t = trimmed(line);
    if begins(t, "# "@) {
        (LineStyle::Heading1, t.skip(2))
    } else if begins(t, "## "@) {
        (LineStyle::Heading2, t.skip(3))
    } else if begins(t, "### "@) {
        (LineStyle::Heading3, t.skip(4))
    } else if begins(t, "- "@) || begins(t, "* "@) {
        (LineStyle::ListItem, t.skip(2))
    } else if begins(t, "**"@) && ends(t, "**"@) && t.len() > 4 {
        (LineStyle::Bold, t.subrange(2, t.len() - 2))
    } else if begins(t, "*"@) && ends(t, "*"@) && t.len() > 2 {
        (LineStyle::Italic, t.subrange(1, t.len() - 1))
    } else if begins(t, "`"@) && ends(t, "`"@) && t.len() > 2 {
        (LineStyle::Code, t.subrange(1, t.len() - 1))
    } else if begins(t, "```"@) {
        (LineStyle::Fence, "───"@)
    } else if t.len() == 0 {
        (LineStyle::Blank, Seq::empty())
    } else {
        (LineStyle::Plain, line)
    }
}

fn begins_with(t: &Vec<char>, mark: &str) -> (r: bool)
    ensures
        r == begins(t@, mark@),
{
    let m = to_chars(mark);
    matches_at(t, &m, 0)
}

fn ends_with(t: &Vec<char>, mark: &str) -> (r: bool)
    ensures
        r == ends(t@, mark@),
{
    let m = to_chars(mark);
    if m.len() > t.len() {
        return false;
    }
    matches_at(t, &m, t.len() - m.len())
}

fn style_line(line: &str) -> (r: StyledLine)
    ensures
        r.style == styled_line(line@).0,
        r.text@ == styled_line(line@).1,
{
    let t = to_chars(trim(line).as_str());
    let n = t.len();
    proof {
        reveal_strlit("# ");
        reveal_strlit("## ");
        reveal_strlit("### ");
        reveal_strlit("- ");
        reveal_strlit("* ");
        reveal_strlit("**");
        reveal_strlit("*");
        reveal_strlit("`");
        reveal_strlit("```");
    }
    if begins_with(&t, "# ") {
        assert(t@.subrange(2, n as int) =~= t@.skip(2));
        StyledLine { style: LineStyle::Heading1, text: from_chars(&t, 2, n) }
    } else if begins_with(&t, "## ") {
        assert(t@.subrange(3, n as int) =~= t@.skip(3));
        StyledLine { style: LineStyle::Heading2, text: from_chars(&t, 3, n) }
    } else if begins_with(&t, "### ") {
        assert(t@.subrange(4, n as int) =~= t@.skip(4));
        StyledLine { style: LineStyle::Heading3, text: from_chars(&t, 4, n) }
    } else if begins_with(&t, "- ") || begins_with(&t, "* ") {
        assert(t@.subrange(2, n as int) =~= t@.skip(2));
        StyledLine { style: LineStyle::ListItem, text: from_chars(&t, 2, n) }
    } else if begins_with(&t, "**") && ends_with(&t, "**") && n > 4 {
        StyledLine { style: LineStyle::Bold, text: from_chars(&t, 2, n - 2) }
    } else if begins_with(&t, "*") && ends_with(&t, "*") && n > 2 {
        StyledLine { style: LineStyle::Italic, text: from_chars(&t, 1, n - 1) }
    } else if begins_with(&t, "`") && ends_with(&t, "`") && n > 2 {
        StyledLine { style: LineStyle::Code, text: from_chars(&t, 1, n - 1) }
    } else if begins_with(&t, "```") {
        StyledLine { style: LineStyle::Fence, text: "───".to_string() }
    } else if n == 0 {
        StyledLine { style: LineStyle::Blank, text: String::new() }
    } else {
        StyledLine { style: LineStyle::Plain, text: line.to_string() }
    }
}

/// The Markdown of a message as the UI process shows it, line by line.
pub fn render_simple_markdown(text: &str) -> (r: Vec<StyledLine>)
    ensures
        r@.len() == lines_of(text@).len(),
        forall|i: int|
            0 <= i < r@.len() ==> (#[trigger] r@[i]).style == styled_line(lines_of(text@)[i]).0
                && r@[i].text@ == styled_line(lines_of(text@)[i]).1,
{
    let lines = split_lines(text);
    assert(views(lines@).len() == lines@.len());
    let mut out: Vec<StyledLine> = Vec::new();
    let mut i: usize = 0;
    while i < lines.len()
        invariant
            i <= lines.len(),
            views(lines@) == lines_of(text@),
            out@.len() == i,
            forall|k: int|
                0 <= k < i ==> (#[trigger] out@[k]).style == styled_line(lines_of(text@)[k]).0
                    && out@[k].text@ == styled_line(lines_of(text@)[k]).1,
        decreases lines.len() - i,
    {
        assert(lines@[i as int]@ == views(lines@)[i as int]);
        out.push(style_line(lines[i].as_str()));
        i += 1;
    }
    out
}

/// The number that was typed for the threshold, or 1000 where what was
/// typed is no number of 32 bits. A plus sign may stand before the digits.
pub open spec fn threshold_of(input: Seq<char>) -> u32 {
    let digits = if input.len() > 0 && input[0] == '+' {
        input.skip(1)
    } else {
        input
    };
    match numeral_value(digits) {
        Some(n) => if n <= u32::MAX {
            n as u32
        } else {
            1000
        },
        None => 1000,
    }
}

/// Reads the threshold that was typed.
pub fn read_threshold(input: &str) -> (r: u32)
    ensures
        r == threshold_of(input@),
{
    let v = to_chars(input);
    let digits = if v.len() > 0 && v[0] == '+' {
        assert(v@.subrange(1, v.len() as int) =~= input@.skip(1));
        from_chars(&v, 1, v.len())
    } else {
        input.to_string()
    };
    match parse_u32(digits.as_str()) {
        Some(n) => n,
        None => 1000,
    }
}

/// The line of the summary for one tool.
pub open spec fn tool_line(name: Seq<char>, enabled: bool) -> Seq<char> {
    "   "@ + name + " - "@ + (if enabled {
        "✅ 启用"@
    } else {
        "⏸️  禁用"@
    })
}

/// The lines of the summary that tell of the reply settings.
pub open spec fn reply_lines(enabled: bool, threshold: u32) -> Seq<Seq<char>> {
    if enabled {
        seq!["   ✅ 自动继续回复已启用"@, "   📏 阈值: "@ + decimal(threshold as nat) + " 字符"@]
    } else {
        seq!["   ⏸️  自动继续回复已禁用"@]
    }
}

/// The summary of a configuration after the wizard: the tools, then the reply
/// settings.
pub open spec fn configuration_summary(config: &AppConfig) -> Seq<Seq<char>> {
    seq!["🔧 MCP 工具:"@] + Seq::new(
        config.mcp_config.tools@.len(),
        |i: int| tool_line(config.mcp_config.tools@[i].0, config.mcp_config.tools@[i].1),
    ) + seq![Seq::<char>::empty(), "💬 回复设置:"@] + reply_lines(
        config.reply_config.enable_continue_reply,
        config.reply_config.auto_continue_threshold,
    )
}

/// The lines of the summary of a configuration.
pub fn display_configuration_summary(config: &AppConfig) -> (r: Vec<String>)
    ensures
        views(r@) == configuration_summary(config),
{
    let names = config.mcp_config.tools.keys();
    let ghost tools = config.mcp_config.tools@;
    let mut out: Vec<String> = Vec::new();
    out.push("🔧 MCP 工具:".to_string());
    let mut i: usize = 0;
    while i < names.len()
        invariant
            i <= names.len(),
            tools == config.mcp_config.tools@,
            crate::config::distinct_names(tools),
            names@.len() == tools.len(),
            forall|k: int| 0 <= k < names@.len() ==> (#[trigger] names@[k])@ == tools[k].0,
            out@.len() == i + 1,
            out@[0]@ == "🔧 MCP 工具:"@,
            forall|k: int|
                0 <= k < i ==> (#[trigger] out@[k + 1])@ == tool_line(tools[k].0, tools[k].1),
        decreases names.len() - i,
    {
        let enabled = config.mcp_config.is_tool_enabled(names[i].as_str());
        proof {
            crate::config::lemma_value_at(tools, i as int);
        }
        let mut line = "   ".to_string();
        line.append(names[i].as_str());
        line.append(" - ");
        if enabled {
            line.append("✅ 启用");
        } else {
            line.append("⏸️  禁用");
        }
        out.push(line);
        i += 1;
    }
    let ghost head = views(out@);
    out.push(String::new());
    out.push("💬 回复设置:".to_string());
    if config.reply_config.enable_continue_reply {
        out.push("   ✅ 自动继续回复已启用".to_string());
        let mut line = "   📏 阈值: ".to_string();
        push_decimal(&mut line, config.reply_config.auto_continue_threshold as u64);
        line.append(" 字符");
        out.push(line);
    } else {
        out.push("   ⏸️  自动继续回复已禁用".to_string());
    }
    proof {
        let want = configuration_summary(config);
        let got = views(out@);
        assert(got.len() == want.len());
        assert forall|j: int| 0 <= j < got.len() implies got[j] == want[j] by {
            if 1 <= j && j < tools.len() + 1 {
                assert(out@[(j - 1) + 1]@ == tool_line(tools[j - 1].0, tools[j - 1].1));
            }
        }
        assert(got =~= want);
    }
    out
}

} // verus!
