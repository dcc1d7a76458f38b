//! The configuration model: what the servers and the launcher read, with the
//! defaults that fill a missing setting.

use crate::text::{contains, decimal, join, joined, push_decimal, str_contains, str_eq, views};
use vstd::prelude::*;

verus! {

/// The version that a fresh configuration carries.
pub const VERSION: &'static str = "0.2.12";

/// The value stored for `key`: that of the first entry with that name.
pub open spec fn value_of(entries: Seq<(Seq<char>, bool)>, key: Seq<char>) -> Option<bool>
    decreases entries.len(),
{
    if entries.len() == 0 {
        None
    } else if entries[0].0 == key {
        Some(entries[0].1)
    } else {
        value_of(entries.drop_first(), key)
    }
}

/// The names of the entries whose flag is set, in order.
pub open spec fn enabled_names(entries: Seq<(Seq<char>, bool)>) -> Seq<Seq<char>>
    decreases entries.len(),
{
    if entries.len() == 0 {
        Seq::empty()
    } else if entries.last().1 {
        enabled_names(entries.drop_last()).push(entries.last().0)
    } else {
        enabled_names(entries.drop_last())
    }
}

/// No name occurs twice.
pub open spec fn distinct_names(entries: Seq<(Seq<char>, bool)>) -> bool {
    forall|i: int, j: int|
        0 <= i < j < entries.len() ==> (#[trigger] entries[i]).0 != (#[trigger] entries[j]).0
}

/// Whether an entry of the name `name` has its flag set.
pub open spec fn names_enabled(entries: Seq<(Seq<char>, bool)>, name: Seq<char>) -> bool {
    exists|i: int| 0 <= i < entries.len() && (#[trigger] entries[i]).0 == name && entries[i].1
}

/// Where no name occurs twice among the entries, none occurs twice among the
/// enabled names, and each of them is the name of an entry whose flag is set.
pub proof fn lemma_enabled_distinct(entries: Seq<(Seq<char>, bool)>)
    requires
        distinct_names(entries),
    ensures
        enabled_names(entries).no_duplicates(),
        forall|k: int|
            0 <= k < enabled_names(entries).len() ==> names_enabled(
                entries,
                #[trigger] enabled_names(entries)[k],
            ),
    decreases entries.len(),
{
    if entries.len() > 0 {
        let front = entries.drop_last();
        let names = enabled_names(entries);
        assert forall|i: int, j: int| 0 <= i < j < front.len() implies (#[trigger] front[i]).0 != (
        #[trigger] front[j]).0 by {
            assert(front[i] == entries[i] && front[j] == entries[j]);
        }
        lemma_enabled_distinct(front);
        assert forall|k: int| 0 <= k < names.len() implies names_enabled(
            entries,
            #[trigger] names[k],
        ) by {
            if k < enabled_names(front).len() {
                assert(names_enabled(front, enabled_names(front)[k]));
                let i = choose|i: int|
                    0 <= i < front.len() && (#[trigger] front[i]).0 == enabled_names(front)[k]
                        && front[i].1;
                assert(entries[i] == front[i]);
            } else {
                assert(entries[entries.len() - 1] == entries.last());
            }
        }
        if entries.last().1 {
            assert forall|a: int, b: int| 0 <= a < b < names.len() implies names[a] != names[b] by {
                if b == names.len() - 1 {
                    assert(names_enabled(front, enabled_names(front)[a]));
                    let i = choose|i: int|
                        0 <= i < front.len() && (#[trigger] front[i]).0 == enabled_names(front)[a]
                            && front[i].1;
                    assert(entries[i] == front[i]);
                    assert(entries[i].0 != entries[entries.len() - 1].0);
                }
            }
        }
    }
}

/// The position of the entry named `key`, if there is one.
pub open spec fn position_of(entries: Seq<(Seq<char>, bool)>, key: Seq<char>) -> Option<int>
    decreases entries.len(),
{
    if entries.len() == 0 {
        None
    } else if entries.last().0 == key && position_of(entries.drop_last(), key) is None {
        Some(entries.len() - 1)
    } else {
        position_of(entries.drop_last(), key)
    }
}

/// What [`ToolMap::insert`] leaves: the entry named `key` holds `value`, at its
/// old place if the name was there, else at the end.
pub open spec fn with_entry(entries: Seq<(Seq<char>, bool)>, key: Seq<char>, value: bool) -> Seq<
    (Seq<char>, bool),
> {
    match position_of(entries, key) {
        Some(i) => entries.update(i, (key, value)),
        None => entries.push((key, value)),
    }
}

/// [`position_of`] gives the first entry of the name, or `None` where no
/// entry has it.
pub proof fn lemma_position_of(entries: Seq<(Seq<char>, bool)>, key: Seq<char>)
    ensures
        match position_of(entries, key) {
            Some(i) => 0 <= i < entries.len() && entries[i].0 == key && forall|j: int|
                0 <= j < i ==> (#[trigger] entries[j]).0 != key,
            None => forall|j: int| 0 <= j < entries.len() ==> (#[trigger] entries[j]).0 != key,
        },
    decreases entries.len(),
{
    if entries.len() > 0 {
        lemma_position_of(entries.drop_last(), key);
        assert forall|j: int| 0 <= j < entries.len() - 1 implies entries.drop_last()[j]
            == entries[j] by {}
        match position_of(entries.drop_last(), key) {
            Some(i) => {
                assert(forall|j: int| 0 <= j < i ==> entries[j] == entries.drop_last()[j]);
            },
            None => {
                assert(forall|j: int|
                    0 <= j < entries.len() - 1 ==> entries[j] == entries.drop_last()[j]);
            },
        }
    }
}

/// The value stored for a name is that of the entry at its position.
pub proof fn lemma_value_of(entries: Seq<(Seq<char>, bool)>, key: Seq<char>)
    ensures
        value_of(entries, key) == match position_of(entries, key) {
            Some(i) => Some(entries[i].1),
            None => None,
        },
    decreases entries.len(),
{
    lemma_position_of(entries, key);
    if entries.len() > 0 {
        if entries[0].0 == key {
            assert(position_of(entries, key) == Some(0int));
        } else {
            let rest = entries.drop_first();
            lemma_value_of(rest, key);
            lemma_position_of(rest, key);
            match position_of(rest, key) {
                Some(i) => {
                    assert(rest[i] == entries[i + 1]);
                    assert forall|j: int| 0 <= j < i + 1 implies (#[trigger] entries[j]).0
                        != key by {
                        if j > 0 {
                            assert(rest[j - 1] == entries[j]);
                        }
                    }
                    assert(position_of(entries, key) == Some(i + 1));
                },
                None => {
                    assert forall|j: int| 0 <= j < entries.len() implies (#[trigger] entries[j]).0
                        != key by {
                        if j > 0 {
                            assert(rest[j - 1] == entries[j]);
                        }
                    }
                },
            }
        }
    }
}

/// The enabled state of the tools, by name. A name occurs once; the entries
/// keep the order in which their names first came.
#[derive(Debug)]
pub struct ToolMap {
    entries: Vec<(String, bool)>,
}

impl View for ToolMap {
    type V = Seq<(Seq<char>, bool)>;

    closed spec fn view(&self) -> Seq<(Seq<char>, bool)> {
        Seq::new(self.entries@.len(), |i: int| (self.entries@[i].0@, self.entries@[i].1))
    }
}

/// Among distinct names, each entry is the one that its name finds.
pub proof fn lemma_value_at(tools: Seq<(Seq<char>, bool)>, i: int)
    requires
        distinct_names(tools),
        0 <= i < tools.len(),
    ensures
        value_of(tools, tools[i].0) == Some(tools[i].1),
{
    lemma_value_of(tools, tools[i].0);
    lemma_position_of(tools, tools[i].0);
    let p = position_of(tools, tools[i].0);
    if p is Some {
        let at = p->0;
        if at < i {
            assert(tools[at].0 != tools[i].0);
        } else if at > i {
            assert(tools[i].0 != tools[at].0);
        }
    } else {
        assert(tools[i].0 == tools[i].0);
    }
}

impl Clone for ToolMap {
    fn clone(&self) -> (r: ToolMap)
        ensures
            r@ == self@,
    {
        proof {
            use_type_invariant(self);
        }
        let mut fresh: Vec<(String, bool)> = Vec::new();
        let mut i: usize = 0;
        while i < self.entries.len()
            invariant
                i <= self.entries.len(),
                fresh@.len() == i,
                forall|k: int|
                    0 <= k < i ==> (#[trigger] fresh@[k].0)@ == self@[k].0 && fresh@[k].1
                        == self@[k].1,
            decreases self.entries.len() - i,
        {
            fresh.push((self.entries[i].0.clone(), self.entries[i].1));
            i += 1;
        }
        proof {
            let after = Seq::new(fresh@.len(), |i: int| (fresh@[i].0@, fresh@[i].1));
            assert(after =~= self@);
        }
        ToolMap { entries: fresh }
    }
}

impl ToolMap {
    #[verifier::type_invariant]
    spec fn well_formed(&self) -> bool {
        distinct_names(self@)
    }

    /// The empty map.
    pub fn new() -> (m: ToolMap)
        ensures
            m@ == Seq::<(Seq<char>, bool)>::empty(),
    {
        ToolMap { entries: Vec::new() }
    }

    /// The number of names.
    pub fn len(&self) -> (n: usize)
        ensures
            n == self@.len(),
    {
        self.entries.len()
    }

    fn find(&self, key: &str) -> (r: Option<usize>)
        ensures
            match r {
                Some(i) => position_of(self@, key@) == Some(i as int) && i < self.entries.len(),
                None => position_of(self@, key@) is None,
            },
    {
        proof {
            use_type_invariant(self);
            lemma_position_of(self@, key@);
        }
        let mut i: usize = 0;
        while i < self.entries.len()
            invariant
                i <= self.entries.len(),
                forall|j: int| 0 <= j < i ==> (#[trigger] self@[j]).0 != key@,
            decreases self.entries.len() - i,
        {
            if str_eq(self.entries[i].0.as_str(), key) {
                proof {
                    lemma_position_of(self@, key@);
                    assert(self@[i as int].0 == key@);
                }
                return Some(i);
            }
            i += 1;
        }
        proof {
            lemma_position_of(self@, key@);
            if position_of(self@, key@) is Some {
                let at = position_of(self@, key@)->0;
                assert(self@[at].0 == key@);
            }
        }
        None
    }

    /// The state stored for `key`.
    pub fn get(&self, key: &str) -> (r: Option<bool>)
        ensures
            r == value_of(self@, key@),
    {
        proof {
            lemma_value_of(self@, key@);
        }
        match self.find(key) {
            Some(i) => Some(self.entries[i].1),
            None => None,
        }
    }

    /// Whether `key` is a name of the map.
    pub fn contains_key(&self, key: &str) -> (r: bool)
        ensures
            r == value_of(self@, key@).is_some(),
    {
        self.get(key).is_some()
    }

    /// Stores `value` for `key` and hands back what was stored before.
    pub fn insert(&mut self, key: String, value: bool) -> (r: Option<bool>)
        ensures
            r == value_of(old(self)@, key@),
            final(self)@ == with_entry(old(self)@, key@, value),
            distinct_names(final(self)@),
            value_of(final(self)@, key@) == Some(value),
            forall|other: Seq<char>|
                other != key@ ==> value_of(final(self)@, other) == value_of(old(self)@, other),
    {
        proof {
            use_type_invariant(&*self);
            lemma_value_of(self@, key@);
            lemma_position_of(self@, key@);
        }
        let ghost before = self@;
        let found = self.find(key.as_str());
        let mut fresh: Vec<(String, bool)> = Vec::new();
        let mut i: usize = 0;
        while i < self.entries.len()
            invariant
                i <= self.entries.len(),
                self@ == before,
                fresh@.len() == i,
                forall|k: int|
                    0 <= k < i ==> (#[trigger] fresh@[k].0)@ == with_entry(before, key@, value)[k].0
                        && fresh@[k].1 == with_entry(before, key@, value)[k].1,
                match found {
                    Some(at) => position_of(before, key@) == Some(at as int) && at
                        < self.entries.len(),
                    None => position_of(before, key@) is None,
                },
            decreases self.entries.len() - i,
        {
            let keep = match found {
                Some(at) => at != i,
                None => true,
            };
            proof {
                lemma_position_of(before, key@);
                let goal = with_entry(before, key@, value);
                if keep {
                    assert(goal[i as int] == before[i as int]);
                } else {
                    assert(goal[i as int] == (key@, value));
                }
            }
            if keep {
                fresh.push((self.entries[i].0.clone(), self.entries[i].1));
            } else {
                fresh.push((key.clone(), value));
            }
            i += 1;
        }
        let r = match found {
            Some(at) => Some(self.entries[at].1),
            None => {
                fresh.push((key, value));
                None
            },
        };
        proof {
            let after = Seq::new(fresh@.len(), |i: int| (fresh@[i].0@, fresh@[i].1));
            assert(after =~= with_entry(before, key@, value));
            lemma_with_entry(before, key@, value);
        }
        *self = ToolMap { entries: fresh };
        r
    }

    /// The names, in order.
    pub fn keys(&self) -> (r: Vec<String>)
        ensures
            r@.len() == self@.len(),
            forall|i: int| 0 <= i < r@.len() ==> (#[trigger] r@[i])@ == self@[i].0,
            distinct_names(self@),
    {
        proof {
            use_type_invariant(self);
        }
        let mut out: Vec<String> = Vec::new();
        let mut i: usize = 0;
        while i < self.entries.len()
            invariant
                i <= self.entries.len(),
                out@.len() == i,
                forall|k: int| 0 <= k < i ==> (#[trigger] out@[k])@ == self@[k].0,
            decreases self.entries.len() - i,
        {
            out.push(self.entries[i].0.clone());
            i += 1;
        }
        out
    }

    /// The names whose state is `true`, in order; none occurs twice.
    pub fn enabled(&self) -> (r: Vec<String>)
        ensures
            views(r@) == enabled_names(self@),
            views(r@).no_duplicates(),
    {
        proof {
            use_type_invariant(self);
            lemma_enabled_distinct(self@);
        }
        let mut out: Vec<String> = Vec::new();
        let mut i: usize = 0;
        while i < self.entries.len()
            invariant
                i <= self.entries.len(),
                views(out@) == enabled_names(self@.take(i as int)),
            decreases self.entries.len() - i,
        {
            proof {
                assert(self@.take(i + 1).drop_last() == self@.take(i as int));
                assert(self@.take(i + 1).last() == self@[i as int]);
            }
            if self.entries[i].1 {
                let ghost before = out@;
                out.push(self.entries[i].0.clone());
                assert(views(out@) =~= views(before).push(self@[i as int].0));
            }
            i += 1;
        }
        assert(self@.take(self.entries.len() as int) == self@);
        out
    }
}

/// Storing a value keeps the names distinct, stores the value, and leaves
/// every other name as it was.
pub proof fn lemma_with_entry(entries: Seq<(Seq<char>, bool)>, key: Seq<char>, value: bool)
    requires
        distinct_names(entries),
    ensures
        distinct_names(with_entry(entries, key, value)),
        value_of(with_entry(entries, key, value), key) == Some(value),
        forall|other: Seq<char>|
            other != key ==> value_of(with_entry(entries, key, value), other) == value_of(
                entries,
                other,
            ),
{
    let after = with_entry(entries, key, value);
    lemma_position_of(entries, key);
    lemma_value_of(after, key);
    lemma_position_of(after, key);
    match position_of(entries, key) {
        Some(i) => {
            assert(after[i] == (key, value));
        },
        None => {
            assert(after[entries.len() as int] == (key, value));
        },
    }
    assert forall|other: Seq<char>| other != key implies value_of(after, other) == value_of(
        entries,
        other,
    ) by {
        lemma_value_of(after, other);
        lemma_value_of(entries, other);
        lemma_position_of(after, other);
        lemma_position_of(entries, other);
        match position_of(entries, other) {
            Some(i) => {
                assert(after[i] == entries[i]);
                match position_of(after, other) {
                    Some(k) => {
                        if k < i {
                            assert(after[k].0 == other);
                            assert(entries[k].0 == other);
                        } else if k > i {
                            assert(after[i].0 == other);
                        }
                    },
                    None => {
                        assert(after[i].0 == other);
                    },
                }
            },
            None => {
                match position_of(after, other) {
                    Some(k) => {
                        assert(after[k].0 == other);
                        if k < entries.len() {
                            assert(entries[k].0 == other);
                        }
                    },
                    None => {},
                }
            },
        }
    }
}


/// How a reply that grows long is continued.
#[derive(Debug, Clone)]
pub struct ReplyConfig {
    pub enable_continue_reply: bool,
    /// In characters.
    pub auto_continue_threshold: u32,
    pub continue_prompt: String,
}

/// Which tools the server offers.
#[derive(Debug, Clone)]
pub struct McpConfig {
    pub tools: ToolMap,
}

/// The settings of the Telegram channel.
#[derive(Debug, Clone)]
pub struct TelegramConfig {
    pub enabled: bool,
    pub bot_token: String,
    pub chat_id: String,
    pub hide_frontend_popup: bool,
    pub api_base_url: String,
}

/// The settings of the terminal launcher.
#[derive(Debug, Clone)]
pub struct TerminalConfig {
    pub enabled: bool,
    /// `None` lets the launcher detect one.
    pub preferred_terminal: Option<String>,
    pub fallback_to_cli: bool,
    pub window_title: String,
    /// How long an answer is waited for.
    pub timeout_seconds: u32,
}

/// The whole configuration.
#[derive(Debug, Clone)]
pub struct AppConfig {
    pub reply_config: ReplyConfig,
    pub mcp_config: McpConfig,
    pub terminal_config: TerminalConfig,
    pub version: String,
}

/// The version of a fresh configuration.
pub fn default_version() -> (r: String)
    ensures
        r@ == VERSION@,
{
    VERSION.to_string()
}

/// Replies are continued unless the configuration says otherwise.
pub fn default_enable_continue_reply() -> (r: bool)
    ensures
        r,
{
    true
}

/// A reply is continued once it has 1000 characters.
pub fn default_auto_continue_threshold() -> (r: u32)
    ensures
        r == 1000,
{
    1000
}

/// The prompt that asks to go on.
pub fn default_continue_prompt() -> (r: String)
    ensures
        r@ == "请按照最佳实践继续"@,
{
    "请按照最佳实践继续".to_string()
}

/// The reply settings of a fresh configuration.
pub fn default_reply_config() -> (r: ReplyConfig)
    ensures
        r.enable_continue_reply,
        r.auto_continue_threshold == 1000,
        r.continue_prompt@ == "请按照最佳实践继续"@,
{
    ReplyConfig {
        enable_continue_reply: default_enable_continue_reply(),
        auto_continue_threshold: default_auto_continue_threshold(),
        continue_prompt: default_continue_prompt(),
    }
}

/// Both tools, enabled.
pub fn default_mcp_tools() -> (r: ToolMap)
    ensures
        r@ == seq![("zhi"@, true), ("ji"@, true)],
{
    let mut tools = ToolMap::new();
    tools.insert("zhi".to_string(), true);
    tools.insert("ji".to_string(), true);
    proof {
        reveal_strlit("zhi");
        reveal_strlit("ji");
        let first = seq![("zhi"@, true)];
        assert(position_of(Seq::<(Seq<char>, bool)>::empty(), "zhi"@) is None);
        assert(Seq::<(Seq<char>, bool)>::empty().push(("zhi"@, true)) =~= first);
        assert(first.drop_last() =~= Seq::<(Seq<char>, bool)>::empty());
        assert(position_of(first.drop_last(), "ji"@) is None);
        assert("zhi"@.len() == 3 && "ji"@.len() == 2);
        assert(first.last().0 != "ji"@);
        assert(position_of(first, "ji"@) is None);
        assert(first.push(("ji"@, true)) =~= seq![("zhi"@, true), ("ji"@, true)]);
    }
    tools
}

/// The tools of a fresh configuration.
pub fn default_mcp_config() -> (r: McpConfig)
    ensures
        r.tools@ == seq![("zhi"@, true), ("ji"@, true)],
{
    McpConfig { tools: default_mcp_tools() }
}

/// The Telegram channel is off unless it is set up.
pub fn default_telegram_enabled() -> (r: bool)
    ensures
        !r,
{
    false
}

/// No token.
pub fn default_telegram_bot_token() -> (r: String)
    ensures
        r@ == Seq::<char>::empty(),
{
    String::new()
}

/// No chat.
pub fn default_telegram_chat_id() -> (r: String)
    ensures
        r@ == Seq::<char>::empty(),
{
    String::new()
}

/// The popup is shown beside the Telegram channel.
pub fn default_telegram_hide_frontend_popup() -> (r: bool)
    ensures
        !r,
{
    false
}

/// The address of the Telegram API.
pub fn default_telegram_api_base_url() -> (r: String)
    ensures
        r@ == "https://api.telegram.org/bot"@,
{
    "https://api.telegram.org/bot".to_string()
}

/// The Telegram settings of a fresh configuration.
pub fn default_telegram_config() -> (r: TelegramConfig)
    ensures
        !r.enabled,
        r.bot_token@ == Seq::<char>::empty(),
        r.chat_id@ == Seq::<char>::empty(),
        !r.hide_frontend_popup,
        r.api_base_url@ == "https://api.telegram.org/bot"@,
{
    TelegramConfig {
        enabled: default_telegram_enabled(),
        bot_token: default_telegram_bot_token(),
        chat_id: default_telegram_chat_id(),
        hide_frontend_popup: default_telegram_hide_frontend_popup(),
        api_base_url: default_telegram_api_base_url(),
    }
}

/// Terminal mode is on unless the configuration says otherwise.
pub fn default_terminal_enabled() -> (r: bool)
    ensures
        r,
{
    true
}

/// No preference: the launcher detects a terminal.
pub fn default_preferred_terminal() -> (r: Option<String>)
    ensures
        r is None,
{
    None
}

/// A failed launch falls back to the command line.
pub fn default_fallback_to_cli() -> (r: bool)
    ensures
        r,
{
    true
}

/// The title of the terminal window.
pub fn default_terminal_window_title() -> (r: String)
    ensures
        r@ == "寸止 CLI 交互"@,
{
    "寸止 CLI 交互".to_string()
}

/// Five minutes.
pub fn default_terminal_timeout() -> (r: u32)
    ensures
        r == 300,
{
    300
}

/// The terminal settings of a fresh configuration.
pub fn default_terminal_config() -> (r: TerminalConfig)
    ensures
        r.enabled,
        r.preferred_terminal is None,
        r.fallback_to_cli,
        r.window_title@ == "寸止 CLI 交互"@,
        r.timeout_seconds == 300,
{
    TerminalConfig {
        enabled: default_terminal_enabled(),
        preferred_terminal: default_preferred_terminal(),
        fallback_to_cli: default_fallback_to_cli(),
        window_title: default_terminal_window_title(),
        timeout_seconds: default_terminal_timeout(),
    }
}

impl Default for AppConfig {
    fn default() -> (r: AppConfig)
        ensures
            r.reply_config.enable_continue_reply,
            r.reply_config.auto_continue_threshold == 1000,
            r.reply_config.continue_prompt@ == "请按照最佳实践继续"@,
            r.mcp_config.tools@ == seq![("zhi"@, true), ("ji"@, true)],
            r.terminal_config.enabled,
            r.terminal_config.preferred_terminal is None,
            r.terminal_config.fallback_to_cli,
            r.terminal_config.window_title@ == "寸止 CLI 交互"@,
            r.terminal_config.timeout_seconds == 300,
            r.version@ == VERSION@,
    {
        AppConfig {
            reply_config: default_reply_config(),
            mcp_config: default_mcp_config(),
            terminal_config: default_terminal_config(),
            version: default_version(),
        }
    }
}

/// The line of the summary that tells how replies are continued.
pub open spec fn continue_line(reply: &ReplyConfig) -> Seq<char> {
    if reply.enable_continue_reply {
        "自动继续回复: 已启用 (阈值: "@ + decimal(reply.auto_continue_threshold as nat) + " 字符)"@
    } else {
        "自动继续回复: 已禁用"@
    }
}

/// The three lines of [`AppConfig::get_summary`].
pub open spec fn summary_text(config: &AppConfig) -> Seq<char> {
    "配置版本: "@ + config.version@ + "\n"@ + "启用的 MCP 工具: "@ + joined(
        enabled_names(config.mcp_config.tools@),
        ", "@,
    ) + "\n"@ + continue_line(&config.reply_config)
}

impl AppConfig {
    /// A configuration is valid unless its threshold is 0.
    pub fn validate(&self) -> (r: Result<(), String>)
        ensures
            r is Ok <==> self.reply_config.auto_continue_threshold != 0,
            r matches Err(e) ==> e@ == "自动继续阈值不能为 0"@,
    {
        if self.reply_config.auto_continue_threshold == 0 {
            return Err("自动继续阈值不能为 0".to_string());
        }
        Ok(())
    }

    /// The version, the enabled tools and the continue setting, one per line.
    pub fn get_summary(&self) -> (r: String)
        ensures
            r@ == summary_text(self),
    {
        let mut r = "配置版本: ".to_string();
        r.append(self.version.as_str());
        r.append("\n");
        r.append("启用的 MCP 工具: ");
        let enabled = self.mcp_config.get_enabled_tools();
        let listed = join(&enabled, ", ");
        r.append(listed.as_str());
        r.append("\n");
        if self.reply_config.enable_continue_reply {
            let mut line = "自动继续回复: 已启用 (阈值: ".to_string();
            push_decimal(&mut line, self.reply_config.auto_continue_threshold as u64);
            line.append(" 字符)");
            r.append(line.as_str());
        } else {
            r.append("自动继续回复: 已禁用");
        }
        r
    }
}

impl TelegramConfig {
    /// A disabled channel is valid; an enabled one needs a token with a colon
    /// and a chat.
    pub fn is_valid(&self) -> (r: bool)
        ensures
            r == (!self.enabled || (self.bot_token@.len() > 0 && self.chat_id@.len() > 0
                && contains(self.bot_token@, seq![':']))),
    {
        if !self.enabled {
            return true;
        }
        proof {
            reveal_strlit(":");
            assert(":"@ =~= seq![':']);
        }
        !self.bot_token.as_str().is_empty() && !self.chat_id.as_str().is_empty() && str_contains(
            self.bot_token.as_str(),
            ":",
        )
    }

    /// The address of an API method: base, token, a slash, the method.
    pub fn get_api_url(&self, method: &str) -> (r: String)
        ensures
            r@ == self.api_base_url@ + self.bot_token@ + "/"@ + method@,
    {
        let mut r = self.api_base_url.clone();
        r.append(self.bot_token.as_str());
        r.append("/");
        r.append(method);
        r
    }
}

impl McpConfig {
    /// Whether `tool_name` is enabled; an unknown tool is not.
    pub fn is_tool_enabled(&self, tool_name: &str) -> (r: bool)
        ensures
            r == (value_of(self.tools@, tool_name@) == Some(true)),
    {
        match self.tools.get(tool_name) {
            Some(enabled) => enabled,
            None => false,
        }
    }

    /// Stores the state of `tool_name`.
    pub fn set_tool_enabled(&mut self, tool_name: &str, enabled: bool)
        ensures
            final(self).tools@ == with_entry(old(self).tools@, tool_name@, enabled),
            value_of(final(self).tools@, tool_name@) == Some(enabled),
            forall|other: Seq<char>|
                other != tool_name@ ==> value_of(final(self).tools@, other) == value_of(
                    old(self).tools@,
                    other,
                ),
    {
        self.tools.insert(tool_name.to_string(), enabled);
    }

    /// The names of the enabled tools, in the order of the map; none occurs
    /// twice.
    pub fn get_enabled_tools(&self) -> (r: Vec<String>)
        ensures
            views(r@) == enabled_names(self.tools@),
            views(r@).no_duplicates(),
    {
        self.tools.enabled()
    }
}

} // verus!
