//! The configuration file: how a configuration is read from JSON, with the
//! defaults for what is missing, and how it is written.

use crate::config::{
    default_mcp_tools, default_reply_config, default_terminal_config, with_entry, AppConfig,
    McpConfig, ReplyConfig, TerminalConfig, ToolMap, VERSION,
};
use crate::json::{
    entries_model, entry, lemma_object_view, object1, object3, object4, optional_string, parse,
    parse_outcome, render_pretty, rendered_pretty, text_or_null, value_built, Json, JsonModel,
};
use crate::text::{decimal, decimal_string, to_chars};
use vstd::prelude::*;

verus! {

/// The value of a decimal digit.
pub open spec fn digit_value(c: char) -> Option<nat> {
    if c == '0' {
        Some(0nat)
    } else if c == '1' {
        Some(1nat)
    } else if c == '2' {
        Some(2nat)
    } else if c == '3' {
        Some(3nat)
    } else if c == '4' {
        Some(4nat)
    } else if c == '5' {
        Some(5nat)
    } else if c == '6' {
        Some(6nat)
    } else if c == '7' {
        Some(7nat)
    } else if c == '8' {
        Some(8nat)
    } else if c == '9' {
        Some(9nat)
    } else {
        None
    }
}

/// The number that a text of decimal digits stands for; `None` for the empty
/// text and for a text that holds anything else.
pub open spec fn numeral_value(s: Seq<char>) -> Option<nat>
    decreases s.len(),
{
    if s.len() == 0 {
        None
    } else {
        match digit_value(s.last()) {
            None => None,
            Some(d) => if s.len() == 1 {
                Some(d)
            } else {
                match numeral_value(s.drop_last()) {
                    Some(n) => Some(10 * n + d),
                    None => None,
                }
            },
        }
    }
}

/// The number of a JSON numeral that is no larger than `limit`.
pub open spec fn bounded_number(s: Seq<char>, limit: nat) -> Option<nat> {
    match numeral_value(s) {
        Some(n) => if n <= limit {
            Some(n)
        } else {
            None
        },
        None => None,
    }
}

fn digit_of(c: char) -> (r: Option<u64>)
    ensures
        match r {
            Some(d) => digit_value(c) == Some(d as nat) && d < 10,
            None => digit_value(c) is None,
        },
{
    if c == '0' {
        Some(0)
    } else if c == '1' {
        Some(1)
    } else if c == '2' {
        Some(2)
    } else if c == '3' {
        Some(3)
    } else if c == '4' {
        Some(4)
    } else if c == '5' {
        Some(5)
    } else if c == '6' {
        Some(6)
    } else if c == '7' {
        Some(7)
    } else if c == '8' {
        Some(8)
    } else if c == '9' {
        Some(9)
    } else {
        None
    }
}

proof fn lemma_numeral_prefix(s: Seq<char>, k: int)
    requires
        0 < k <= s.len(),
        numeral_value(s.take(k)) is None,
    ensures
        numeral_value(s) is None,
    decreases s.len() - k,
{
    if k < s.len() {
        assert(s.take(k + 1).drop_last() =~= s.take(k));
        lemma_numeral_prefix(s, k + 1);
    } else {
        assert(s.take(k) =~= s);
    }
}

proof fn lemma_numeral_grows(s: Seq<char>, k: int)
    requires
        0 < k <= s.len(),
        numeral_value(s.take(k)) is Some,
    ensures
        numeral_value(s) is Some ==> numeral_value(s)->0 >= numeral_value(s.take(k))->0,
    decreases s.len() - k,
{
    if k < s.len() {
        assert(s.take(k + 1).drop_last() =~= s.take(k));
        if numeral_value(s.take(k + 1)) is Some {
            lemma_numeral_grows(s, k + 1);
        } else {
            lemma_numeral_prefix(s, k + 1);
        }
    } else {
        assert(s.take(k) =~= s);
    }
}

/// Reads a text of decimal digits as a number of 32 bits.
pub fn parse_u32(text: &str) -> (r: Option<u32>)
    ensures
        match r {
            Some(n) => bounded_number(text@, u32::MAX as nat) == Some(n as nat),
            None => bounded_number(text@, u32::MAX as nat) is None,
        },
{
    let v = to_chars(text);
    if v.len() == 0 {
        return None;
    }
    let mut n: u64 = 0;
    let mut i: usize = 0;
    while i < v.len()
        invariant
            i <= v.len(),
            v@ == text@,
            v@.len() > 0,
            n <= u32::MAX,
            i > 0 ==> numeral_value(v@.take(i as int)) == Some(n as nat),
            i == 0 ==> n == 0,
        decreases v.len() - i,
    {
        proof {
            assert(v@.take(i + 1).drop_last() =~= v@.take(i as int));
            assert(v@.take(i + 1).last() == v@[i as int]);
        }
        match digit_of(v[i]) {
            None => {
                proof {
                    assert(numeral_value(v@.take(i + 1)) is None);
                    lemma_numeral_prefix(v@, i + 1);
                }
                return None;
            },
            Some(d) => {
                let next = 10 * n + d;
                assert(numeral_value(v@.take(i + 1)) == Some(next as nat));
                if next > u32::MAX as u64 {
                    proof {
                        lemma_numeral_grows(v@, i + 1);
                    }
                    return None;
                }
                n = next;
            },
        }
        i += 1;
    }
    assert(v@.take(v.len() as int) =~= v@);
    Some(n as u32)
}

/// The view of a [`ReplyConfig`].
pub struct ReplyView {
    pub enable_continue_reply: bool,
    pub auto_continue_threshold: u32,
    pub continue_prompt: Seq<char>,
}

/// The view of a [`TerminalConfig`].
pub struct TerminalView {
    pub enabled: bool,
    pub preferred_terminal: Option<Seq<char>>,
    pub fallback_to_cli: bool,
    pub window_title: Seq<char>,
    pub timeout_seconds: u32,
}

/// The view of an [`AppConfig`].
pub struct ConfigView {
    pub reply_config: ReplyView,
    pub tools: Seq<(Seq<char>, bool)>,
    pub terminal_config: TerminalView,
    pub version: Seq<char>,
}

/// The view of a configuration.
pub open spec fn config_view(config: &AppConfig) -> ConfigView {
    ConfigView {
        reply_config: reply_view(&config.reply_config),
        tools: config.mcp_config.tools@,
        terminal_config: terminal_view(&config.terminal_config),
        version: config.version@,
    }
}

/// The view of the reply settings.
pub open spec fn reply_view(reply: &ReplyConfig) -> ReplyView {
    ReplyView {
        enable_continue_reply: reply.enable_continue_reply,
        auto_continue_threshold: reply.auto_continue_threshold,
        continue_prompt: reply.continue_prompt@,
    }
}

/// The view of the terminal settings.
pub open spec fn terminal_view(terminal: &TerminalConfig) -> TerminalView {
    TerminalView {
        enabled: terminal.enabled,
        preferred_terminal: match terminal.preferred_terminal {
            Some(t) => Some(t@),
            None => None,
        },
        fallback_to_cli: terminal.fallback_to_cli,
        window_title: terminal.window_title@,
        timeout_seconds: terminal.timeout_seconds,
    }
}

/// The message for a setting of the wrong kind.
pub open spec fn setting_fault(key: Seq<char>, expected: Seq<char>) -> Seq<char> {
    "invalid type for `"@ + key + "`, expected "@ + expected
}

/// The flag of the setting `key`, or `default` where it is missing.
pub open spec fn flag_setting(object: JsonModel, key: Seq<char>, default: bool) -> Result<
    bool,
    Seq<char>,
> {
    match object.field(key) {
        None => Ok(default),
        Some(JsonModel::Bool(b)) => Ok(b),
        Some(_) => Err(setting_fault(key, "a boolean"@)),
    }
}

/// The text of the setting `key`, or `default` where it is missing.
pub open spec fn text_setting(object: JsonModel, key: Seq<char>, default: Seq<char>) -> Result<
    Seq<char>,
    Seq<char>,
> {
    match object.field(key) {
        None => Ok(default),
        Some(JsonModel::Str(s)) => Ok(s),
        Some(_) => Err(setting_fault(key, "a string"@)),
    }
}

/// The text of the setting `key`, which may be `null`; nothing where it is
/// missing.
pub open spec fn optional_text_setting(object: JsonModel, key: Seq<char>) -> Result<
    Option<Seq<char>>,
    Seq<char>,
> {
    match object.field(key) {
        None => Ok(None),
        Some(JsonModel::Null) => Ok(None),
        Some(JsonModel::Str(s)) => Ok(Some(s)),
        Some(_) => Err(setting_fault(key, "a string or null"@)),
    }
}

/// The number of the setting `key`, or `default` where it is missing.
pub open spec fn number_setting(object: JsonModel, key: Seq<char>, default: u32) -> Result<
    u32,
    Seq<char>,
> {
    match object.field(key) {
        None => Ok(default),
        Some(JsonModel::Number(n)) => match bounded_number(n, u32::MAX as nat) {
            Some(v) => Ok(v as u32),
            None => Err(setting_fault(key, "a number of 32 bits"@)),
        },
        Some(_) => Err(setting_fault(key, "a number of 32 bits"@)),
    }
}

/// The part of the configuration under `key`, which must be an object where
/// it is there.
pub open spec fn section(object: JsonModel, key: Seq<char>) -> Result<Option<JsonModel>, Seq<char>> {
    match object.field(key) {
        None => Ok(None),
        Some(JsonModel::Object(entries)) => Ok(Some(JsonModel::Object(entries))),
        Some(_) => Err(setting_fault(key, "an object"@)),
    }
}

/// The reply settings of a part; a setting that is missing has its default.
pub open spec fn reply_of(part: JsonModel) -> Result<ReplyView, Seq<char>> {
    match flag_setting(part, "enable_continue_reply"@, true) {
        Err(e) => Err(e),
        Ok(enable_continue_reply) => match number_setting(part, "auto_continue_threshold"@, 1000) {
            Err(e) => Err(e),
            Ok(auto_continue_threshold) => match text_setting(
                part,
                "continue_prompt"@,
                "请按照最佳实践继续"@,
            ) {
                Err(e) => Err(e),
                Ok(continue_prompt) => Ok(
                    ReplyView { enable_continue_reply, auto_continue_threshold, continue_prompt },
                ),
            },
        },
    }
}

/// The terminal settings of a part; a setting that is missing has its
/// default.
pub open spec fn terminal_of(part: JsonModel) -> Result<TerminalView, Seq<char>> {
    match flag_setting(part, "enabled"@, true) {
        Err(e) => Err(e),
        Ok(enabled) => match optional_text_setting(part, "preferred_terminal"@) {
            Err(e) => Err(e),
            Ok(preferred_terminal) => match flag_setting(part, "fallback_to_cli"@, true) {
                Err(e) => Err(e),
                Ok(fallback_to_cli) => match text_setting(
                    part,
                    "window_title"@,
                    "寸止 CLI 交互"@,
                ) {
                    Err(e) => Err(e),
                    Ok(window_title) => match number_setting(part, "timeout_seconds"@, 300) {
                        Err(e) => Err(e),
                        Ok(timeout_seconds) => Ok(
                            TerminalView {
                                enabled,
                                preferred_terminal,
                                fallback_to_cli,
                                window_title,
                                timeout_seconds,
                            },
                        ),
                    },
                },
            },
        },
    }
}

/// The tool states that the entries of an object give: each entry in turn
/// stores its flag under its name. An entry that is no flag is a fault.
pub open spec fn tools_of(entries: Seq<(Seq<char>, JsonModel)>) -> Result<
    Seq<(Seq<char>, bool)>,
    Seq<char>,
>
    decreases entries.len(),
{
    if entries.len() == 0 {
        Ok(Seq::empty())
    } else {
        match tools_of(entries.drop_last()) {
            Err(e) => Err(e),
            Ok(tools) => match entries.last().1 {
                JsonModel::Bool(b) => Ok(with_entry(tools, entries.last().0, b)),
                _ => Err(setting_fault(entries.last().0, "a boolean"@)),
            },
        }
    }
}

/// The default tool states.
pub open spec fn default_tools() -> Seq<(Seq<char>, bool)> {
    seq![("zhi"@, true), ("ji"@, true)]
}

/// The tool states of the part `mcp_config`.
pub open spec fn mcp_tools_of(part: JsonModel) -> Result<Seq<(Seq<char>, bool)>, Seq<char>> {
    match part.field("tools"@) {
        None => Ok(default_tools()),
        Some(JsonModel::Object(entries)) => tools_of(entries),
        Some(_) => Err(setting_fault("tools"@, "an object"@)),
    }
}

/// The default reply settings.
pub open spec fn default_reply() -> ReplyView {
    ReplyView {
        enable_continue_reply: true,
        auto_continue_threshold: 1000,
        continue_prompt: "请按照最佳实践继续"@,
    }
}

/// The default terminal settings.
pub open spec fn default_terminal() -> TerminalView {
    TerminalView {
        enabled: true,
        preferred_terminal: None,
        fallback_to_cli: true,
        window_title: "寸止 CLI 交互"@,
        timeout_seconds: 300,
    }
}

/// The configuration that a JSON value holds. The value must be an object;
/// each part and each setting that is missing has its default. The parts are
/// read in the order: reply settings, tools, terminal settings, version.
pub open spec fn config_of(value: JsonModel) -> Result<ConfigView, Seq<char>> {
    if !(value is Object) {
        Err("invalid type: expected an object"@)
    } else {
        match section(value, "reply_config"@) {
            Err(e) => Err(e),
            Ok(reply_part) => match (match reply_part {
                Some(part) => reply_of(part),
                None => Ok(default_reply()),
            }) {
                Err(e) => Err(e),
                Ok(reply_config) => match section(value, "mcp_config"@) {
                    Err(e) => Err(e),
                    Ok(mcp_part) => match (match mcp_part {
                        Some(part) => mcp_tools_of(part),
                        None => Ok(default_tools()),
                    }) {
                        Err(e) => Err(e),
                        Ok(tools) => match section(value, "terminal_config"@) {
                            Err(e) => Err(e),
                            Ok(terminal_part) => match (match terminal_part {
                                Some(part) => terminal_of(part),
                                None => Ok(default_terminal()),
                            }) {
                                Err(e) => Err(e),
                                Ok(terminal_config) => match text_setting(
                                    value,
                                    "version"@,
                                    VERSION@,
                                ) {
                                    Err(e) => Err(e),
                                    Ok(version) => Ok(
                                        ConfigView { reply_config, tools, terminal_config, version },
                                    ),
                                },
                            },
                        },
                    },
                },
            },
        }
    }
}

fn setting_fault_message(key: &str, expected: &str) -> (r: String)
    ensures
        r@ == setting_fault(key@, expected@),
{
    let mut r = "invalid type for `".to_string();
    r.append(key);
    r.append("`, expected ");
    r.append(expected);
    r
}

fn read_flag(object: &Json, key: &str, default: bool) -> (r: Result<bool, String>)
    ensures
        match r {
            Ok(b) => flag_setting(object@, key@, default) == Ok::<bool, Seq<char>>(b),
            Err(e) => flag_setting(object@, key@, default) == Err::<bool, Seq<char>>(e@),
        },
{
    match object.get(key) {
        None => Ok(default),
        Some(j) => match j.as_bool() {
            Some(b) => Ok(b),
            None => Err(setting_fault_message(key, "a boolean")),
        },
    }
}

fn read_text(object: &Json, key: &str, default: &str) -> (r: Result<String, String>)
    ensures
        match r {
            Ok(s) => text_setting(object@, key@, default@) == Ok::<Seq<char>, Seq<char>>(s@),
            Err(e) => text_setting(object@, key@, default@) == Err::<Seq<char>, Seq<char>>(e@),
        },
{
    match object.get(key) {
        None => Ok(default.to_string()),
        Some(j) => match j.as_str() {
            Some(s) => Ok(s.to_string()),
            None => Err(setting_fault_message(key, "a string")),
        },
    }
}

fn read_optional_text(object: &Json, key: &str) -> (r: Result<Option<String>, String>)
    ensures
        match r {
            Ok(s) => optional_text_setting(object@, key@) == Ok::<Option<Seq<char>>, Seq<char>>(
                match s {
                    Some(t) => Some(t@),
                    None => None,
                },
            ),
            Err(e) => optional_text_setting(object@, key@) == Err::<
                Option<Seq<char>>,
                Seq<char>,
            >(e@),
        },
{
    match object.get(key) {
        None => Ok(None),
        Some(j) => {
            if j.is_null() {
                Ok(None)
            } else {
                match j.as_str() {
                    Some(s) => Ok(Some(s.to_string())),
                    None => Err(setting_fault_message(key, "a string or null")),
                }
            }
        },
    }
}

fn read_number(object: &Json, key: &str, default: u32) -> (r: Result<u32, String>)
    ensures
        match r {
            Ok(n) => number_setting(object@, key@, default) == Ok::<u32, Seq<char>>(n),
            Err(e) => number_setting(object@, key@, default) == Err::<u32, Seq<char>>(e@),
        },
{
    match object.get(key) {
        None => Ok(default),
        Some(j) => match j {
            Json::Number(text) => match parse_u32(text.as_str()) {
                Some(n) => Ok(n),
                None => Err(setting_fault_message(key, "a number of 32 bits")),
            },
            _ => Err(setting_fault_message(key, "a number of 32 bits")),
        },
    }
}

fn read_section<'a>(object: &'a Json, key: &str) -> (r: Result<Option<&'a Json>, String>)
    ensures
        match r {
            Ok(part) => section(object@, key@) == Ok::<Option<JsonModel>, Seq<char>>(
                match part {
                    Some(p) => Some(p@),
                    None => None,
                },
            ),
            Err(e) => section(object@, key@) == Err::<Option<JsonModel>, Seq<char>>(e@),
        },
{
    match object.get(key) {
        None => Ok(None),
        Some(j) => {
            if j.is_object() {
                Ok(Some(j))
            } else {
                Err(setting_fault_message(key, "an object"))
            }
        },
    }
}

fn read_reply(part: &Json) -> (r: Result<ReplyConfig, String>)
    ensures
        match r {
            Ok(c) => reply_of(part@) == Ok::<ReplyView, Seq<char>>(reply_view(&c)),
            Err(e) => reply_of(part@) == Err::<ReplyView, Seq<char>>(e@),
        },
{
    let enable_continue_reply = match read_flag(part, "enable_continue_reply", true) {
        Ok(b) => b,
        Err(e) => {
            return Err(e);
        },
    };
    let auto_continue_threshold = match read_number(part, "auto_continue_threshold", 1000) {
        Ok(n) => n,
        Err(e) => {
            return Err(e);
        },
    };
    let continue_prompt = match read_text(part, "continue_prompt", "请按照最佳实践继续") {
        Ok(s) => s,
        Err(e) => {
            return Err(e);
        },
    };
    Ok(ReplyConfig { enable_continue_reply, auto_continue_threshold, continue_prompt })
}

fn read_terminal(part: &Json) -> (r: Result<TerminalConfig, String>)
    ensures
        match r {
            Ok(c) => terminal_of(part@) == Ok::<TerminalView, Seq<char>>(terminal_view(&c)),
            Err(e) => terminal_of(part@) == Err::<TerminalView, Seq<char>>(e@),
        },
{
    let enabled = match read_flag(part, "enabled", true) {
        Ok(b) => b,
        Err(e) => {
            return Err(e);
        },
    };
    let preferred_terminal = match read_optional_text(part, "preferred_terminal") {
        Ok(s) => s,
        Err(e) => {
            return Err(e);
        },
    };
    let fallback_to_cli = match read_flag(part, "fallback_to_cli", true) {
        Ok(b) => b,
        Err(e) => {
            return Err(e);
        },
    };
    let window_title = match read_text(part, "window_title", "寸止 CLI 交互") {
        Ok(s) => s,
        Err(e) => {
            return Err(e);
        },
    };
    let timeout_seconds = match read_number(part, "timeout_seconds", 300) {
        Ok(n) => n,
        Err(e) => {
            return Err(e);
        },
    };
    Ok(TerminalConfig { enabled, preferred_terminal, fallback_to_cli, window_title, timeout_seconds })
}

fn read_tools(part: &Json) -> (r: Result<ToolMap, String>)
    ensures
        match r {
            Ok(t) => mcp_tools_of(part@) == Ok::<Seq<(Seq<char>, bool)>, Seq<char>>(t@),
            Err(e) => mcp_tools_of(part@) == Err::<Seq<(Seq<char>, bool)>, Seq<char>>(e@),
        },
{
    match part.get("tools") {
        None => Ok(default_mcp_tools()),
        Some(j) => match j {
            Json::Object(entries) => {
                proof {
                    lemma_object_view(*entries);
                }
                let ghost all = entries_model(entries@);
                let mut tools = ToolMap::new();
                let mut i: usize = 0;
                assert(all.take(0) =~= Seq::<(Seq<char>, JsonModel)>::empty());
                while i < entries.len()
                    invariant
                        i <= entries.len(),
                        all == entries_model(entries@),
                        part@.field("tools"@) == Some(JsonModel::Object(all)),
                        tools_of(all.take(i as int)) == Ok::<Seq<(Seq<char>, bool)>, Seq<char>>(
                            tools@,
                        ),
                    decreases entries.len() - i,
                {
                    proof {
                        assert(all.take(i + 1).drop_last() =~= all.take(i as int));
                        assert(all.take(i + 1).last() == all[i as int]);
                    }
                    match entries[i].1.as_bool() {
                        Some(b) => {
                            tools.insert(entries[i].0.clone(), b);
                        },
                        None => {
                            proof {
                                lemma_tools_fault(all, i + 1);
                            }
                            return Err(
                                setting_fault_message(entries[i].0.as_str(), "a boolean"),
                            );
                        },
                    }
                    i += 1;
                }
                assert(all.take(entries.len() as int) =~= all);
                Ok(tools)
            },
            _ => Err(setting_fault_message("tools", "an object")),
        },
    }
}

proof fn lemma_tools_fault(entries: Seq<(Seq<char>, JsonModel)>, k: int)
    requires
        0 <= k <= entries.len(),
        tools_of(entries.take(k)) is Err,
    ensures
        tools_of(entries) == tools_of(entries.take(k)),
    decreases entries.len() - k,
{
    if k < entries.len() {
        assert(entries.take(k + 1).drop_last() =~= entries.take(k));
        lemma_tools_fault(entries, k + 1);
    } else {
        assert(entries.take(k) =~= entries);
    }
}

impl AppConfig {
    /// Reads a configuration from a JSON value.
    pub fn from_json(value: &Json) -> (r: Result<AppConfig, String>)
        ensures
            match r {
                Ok(c) => config_of(value@) == Ok::<ConfigView, Seq<char>>(config_view(&c)),
                Err(e) => config_of(value@) == Err::<ConfigView, Seq<char>>(e@),
            },
    {
        if !value.is_object() {
            return Err("invalid type: expected an object".to_string());
        }
        let reply_config = match read_section(value, "reply_config") {
            Err(e) => {
                return Err(e);
            },
            Ok(Some(part)) => match read_reply(part) {
                Ok(c) => c,
                Err(e) => {
                    return Err(e);
                },
            },
            Ok(None) => default_reply_config(),
        };
        let tools = match read_section(value, "mcp_config") {
            Err(e) => {
                return Err(e);
            },
            Ok(Some(part)) => match read_tools(part) {
                Ok(t) => t,
                Err(e) => {
                    return Err(e);
                },
            },
            Ok(None) => default_mcp_tools(),
        };
        let terminal_config = match read_section(value, "terminal_config") {
            Err(e) => {
                return Err(e);
            },
            Ok(Some(part)) => match read_terminal(part) {
                Ok(c) => c,
                Err(e) => {
                    return Err(e);
                },
            },
            Ok(None) => default_terminal_config(),
        };
        let version = match read_text(value, "version", VERSION) {
            Ok(s) => s,
            Err(e) => {
                return Err(e);
            },
        };
        Ok(AppConfig { reply_config, mcp_config: McpConfig { tools }, terminal_config, version })
    }
}

/// What loading the configuration file comes to.
#[derive(Debug, Clone)]
pub enum ConfigLoad {
    /// The file holds this configuration.
    Loaded(AppConfig),
    /// There is no file: this default configuration is to be written.
    Created(AppConfig),
}

/// The configuration that the text of a configuration file holds, or why the
/// file is refused: it must be JSON, hold a configuration, and the
/// configuration must be valid.
pub open spec fn loaded_config(parsed: Result<JsonModel, Seq<char>>) -> Result<ConfigView, Seq<char>> {
    match parsed {
        Err(e) => Err("配置文件格式错误: "@ + e),
        Ok(value) => match config_of(value) {
            Err(e) => Err("配置文件格式错误: "@ + e),
            Ok(config) => if config.reply_config.auto_continue_threshold == 0 {
                Err("自动继续阈值不能为 0"@)
            } else {
                Ok(config)
            },
        },
    }
}

/// Reads a parsed configuration file.
pub fn read_config(parsed: Result<Json, String>) -> (r: Result<AppConfig, String>)
    ensures
        match r {
            Ok(c) => loaded_config(
                match parsed {
                    Ok(j) => Ok(j@),
                    Err(e) => Err(e@),
                },
            ) == Ok::<ConfigView, Seq<char>>(config_view(&c)),
            Err(m) => loaded_config(
                match parsed {
                    Ok(j) => Ok(j@),
                    Err(e) => Err(e@),
                },
            ) == Err::<ConfigView, Seq<char>>(m@),
        },
{
    match parsed {
        Err(e) => {
            let mut m = "配置文件格式错误: ".to_string();
            m.append(e.as_str());
            Err(m)
        },
        Ok(value) => match AppConfig::from_json(&value) {
            Err(e) => {
                let mut m = "配置文件格式错误: ".to_string();
                m.append(e.as_str());
                Err(m)
            },
            Ok(config) => match config.validate() {
                Ok(_) => Ok(config),
                Err(e) => Err(e),
            },
        },
    }
}

/// Loads the configuration from the content of its file; `None` where there
/// is no file, and the default configuration is to be written.
pub fn load_standalone_config(content: Option<&str>) -> (r: Result<ConfigLoad, String>)
    ensures
        match content {
            None => r is Ok && r->Ok_0 is Created,
            Some(text) => match r {
                Ok(load) => load is Loaded && loaded_config(parse_outcome(text@)) == Ok::<
                    ConfigView,
                    Seq<char>,
                >(config_view(&load->Loaded_0)),
                Err(m) => loaded_config(parse_outcome(text@)) == Err::<ConfigView, Seq<char>>(m@),
            },
        },
{
    match content {
        None => Ok(ConfigLoad::Created(AppConfig::default())),
        Some(text) => match read_config(parse(text)) {
            Ok(config) => Ok(ConfigLoad::Loaded(config)),
            Err(m) => Err(m),
        },
    }
}

/// [`load_standalone_config`].
pub fn load_config(content: Option<&str>) -> (r: Result<ConfigLoad, String>)
    ensures
        match content {
            None => r is Ok && r->Ok_0 is Created,
            Some(text) => match r {
                Ok(load) => load is Loaded && loaded_config(parse_outcome(text@)) == Ok::<
                    ConfigView,
                    Seq<char>,
                >(config_view(&load->Loaded_0)),
                Err(m) => loaded_config(parse_outcome(text@)) == Err::<ConfigView, Seq<char>>(m@),
            },
        },
{
    load_standalone_config(content)
}

/// The tool states as a JSON object.
pub open spec fn tools_model(tools: Seq<(Seq<char>, bool)>) -> JsonModel {
    JsonModel::Object(Seq::new(tools.len(), |i: int| (tools[i].0, JsonModel::Bool(tools[i].1))))
}

/// A number as a JSON value.
pub open spec fn number_model(n: nat) -> JsonModel {
    JsonModel::Number(decimal(n))
}

/// A configuration as a JSON object.
pub open spec fn config_model(config: ConfigView) -> JsonModel {
    JsonModel::Object(
        seq![
            (
                "reply_config"@,
                JsonModel::Object(
                    seq![
                        (
                            "enable_continue_reply"@,
                            JsonModel::Bool(config.reply_config.enable_continue_reply),
                        ),
                        (
                            "auto_continue_threshold"@,
                            number_model(config.reply_config.auto_continue_threshold as nat),
                        ),
                        ("continue_prompt"@, JsonModel::Str(config.reply_config.continue_prompt)),
                    ],
                ),
            ),
            ("mcp_config"@, JsonModel::Object(seq![("tools"@, tools_model(config.tools))])),
            (
                "terminal_config"@,
                JsonModel::Object(
                    seq![
                        ("enabled"@, JsonModel::Bool(config.terminal_config.enabled)),
                        (
                            "preferred_terminal"@,
                            text_or_null(config.terminal_config.preferred_terminal),
                        ),
                        (
                            "fallback_to_cli"@,
                            JsonModel::Bool(config.terminal_config.fallback_to_cli),
                        ),
                        ("window_title"@, JsonModel::Str(config.terminal_config.window_title)),
                        (
                            "timeout_seconds"@,
                            number_model(config.terminal_config.timeout_seconds as nat),
                        ),
                    ],
                ),
            ),
            ("version"@, JsonModel::Str(config.version)),
        ],
    )
}

fn number_json(n: u32) -> (j: Json)
    ensures
        j@ == number_model(n as nat),
{
    Json::Number(decimal_string(n as u64))
}

impl AppConfig {
    /// The configuration as a JSON value.
    pub fn to_json(&self) -> (j: Json)
        ensures
            j@ == config_model(config_view(self)),
    {
        let names = self.mcp_config.tools.keys();
        let mut listed: Vec<(String, Json)> = Vec::new();
        let mut i: usize = 0;
        while i < names.len()
            invariant
                i <= names.len(),
                crate::config::distinct_names(self.mcp_config.tools@),
                names@.len() == self.mcp_config.tools@.len(),
                forall|k: int|
                    0 <= k < names@.len() ==> (#[trigger] names@[k])@
                        == self.mcp_config.tools@[k].0,
                listed@.len() == i,
                forall|k: int|
                    0 <= k < i ==> (#[trigger] listed@[k]).0@ == self.mcp_config.tools@[k].0
                        && listed@[k].1@ == JsonModel::Bool(self.mcp_config.tools@[k].1),
            decreases names.len() - i,
        {
            let enabled = self.mcp_config.is_tool_enabled(names[i].as_str());
            proof {
                crate::config::lemma_value_at(self.mcp_config.tools@, i as int);
            }
            listed.push((names[i].clone(), Json::Bool(enabled)));
            i += 1;
        }
        proof {
            let tools = self.mcp_config.tools@;
            assert(entries_model(listed@) =~= Seq::new(
                tools.len(),
                |i: int| (tools[i].0, JsonModel::Bool(tools[i].1)),
            ));
        }
        let reply = object3(
            entry("enable_continue_reply", Json::Bool(self.reply_config.enable_continue_reply)),
            entry("auto_continue_threshold", number_json(self.reply_config.auto_continue_threshold)),
            entry("continue_prompt", Json::Str(self.reply_config.continue_prompt.clone())),
        );
        let mcp = object1(entry("tools", Json::object(listed)));
        let terminal_entries = vec![
            entry("enabled", Json::Bool(self.terminal_config.enabled)),
            entry("preferred_terminal", optional_string(&self.terminal_config.preferred_terminal)),
            entry("fallback_to_cli", Json::Bool(self.terminal_config.fallback_to_cli)),
            entry("window_title", Json::Str(self.terminal_config.window_title.clone())),
            entry("timeout_seconds", number_json(self.terminal_config.timeout_seconds)),
        ];
        assert(entries_model(terminal_entries@) =~= seq![
            ("enabled"@, JsonModel::Bool(self.terminal_config.enabled)),
            ("preferred_terminal"@, text_or_null(terminal_view(&self.terminal_config).preferred_terminal)),
            ("fallback_to_cli"@, JsonModel::Bool(self.terminal_config.fallback_to_cli)),
            ("window_title"@, JsonModel::Str(self.terminal_config.window_title@)),
            ("timeout_seconds"@, number_model(self.terminal_config.timeout_seconds as nat)),
        ]);
        let terminal = Json::object(terminal_entries);
        object4(
            entry("reply_config", reply),
            entry("mcp_config", mcp),
            entry("terminal_config", terminal),
            entry("version", Json::Str(self.version.clone())),
        )
    }
}

/// The text of the configuration file for a configuration; a configuration
/// that is not valid is not written.
pub fn save_standalone_config(config: &AppConfig) -> (r: Result<String, String>)
    ensures
        match r {
            Ok(text) => config.reply_config.auto_continue_threshold != 0 && text@
                == rendered_pretty(value_built(config_model(config_view(config)))),
            Err(e) => config.reply_config.auto_continue_threshold == 0 && e@
                == "自动继续阈值不能为 0"@,
        },
{
    match config.validate() {
        Err(e) => Err(e),
        Ok(_) => Ok(render_pretty(&config.to_json())),
    }
}

/// [`save_standalone_config`].
pub fn save_config(config: &AppConfig) -> (r: Result<String, String>)
    ensures
        match r {
            Ok(text) => config.reply_config.auto_continue_threshold != 0 && text@
                == rendered_pretty(value_built(config_model(config_view(config)))),
            Err(e) => config.reply_config.auto_continue_threshold == 0 && e@
                == "自动继续阈值不能为 0"@,
        },
{
    save_standalone_config(config)
}

/// The name of the directory that holds the configuration, inside the user's
/// configuration directory.
pub const CONFIG_DIRECTORY: &'static str = "cunzhi";

/// The name of the configuration file.
pub const CONFIG_FILE: &'static str = "config.json";

/// The ending that takes the place of `json` in the name of the backup.
pub const BACKUP_EXTENSION: &'static str = "json.backup";

/// Whether there is a configuration file: its path could be made out, and a
/// file is there.
pub fn config_exists(path_known: bool, file_found: bool) -> (r: bool)
    ensures
        r == (path_known && file_found),
{
    path_known && file_found
}

/// Whether the configuration can be backed up: only where its file exists.
pub fn backup_config(file_found: bool) -> (r: Result<(), String>)
    ensures
        r is Ok <==> file_found,
        r matches Err(e) ==> e@ == "配置文件不存在，无法备份"@,
{
    if file_found {
        Ok(())
    } else {
        Err("配置文件不存在，无法备份".to_string())
    }
}

/// Whether the configuration can be restored: only where its backup exists.
pub fn restore_from_backup(backup_found: bool) -> (r: Result<(), String>)
    ensures
        r is Ok <==> backup_found,
        r matches Err(e) ==> e@ == "备份文件不存在"@,
{
    if backup_found {
        Ok(())
    } else {
        Err("备份文件不存在".to_string())
    }
}

/// The place of the configuration file, given the user's configuration
/// directory: the directory's name and the file's name to append to it.
pub fn get_standalone_config_path(config_dir: Option<&str>) -> (r: Result<
    (String, String, String),
    String,
>)
    ensures
        match config_dir {
            Some(dir) => r is Ok && r->Ok_0.0@ == dir@ && r->Ok_0.1@ == CONFIG_DIRECTORY@
                && r->Ok_0.2@ == CONFIG_FILE@,
            None => r is Err && r->Err_0@ == "无法获取配置目录"@,
        },
{
    match config_dir {
        Some(dir) => Ok((dir.to_string(), CONFIG_DIRECTORY.to_string(), CONFIG_FILE.to_string())),
        None => Err("无法获取配置目录".to_string()),
    }
}

} // verus!
