//! The configuration that tells an MCP client how to start this server.

use crate::json::{entries_model, entry, lemma_object_view, object1, object3, Json, JsonModel};
use crate::text::{str_eq, views};
use vstd::prelude::*;

verus! {

/// The name under which the server is entered in a client's configuration.
pub const SERVER_NAME: &'static str = "cunzhi-cli";

/// The member of a client's configuration that holds its servers.
pub const SERVERS_KEY: &'static str = "mcpServers";

/// How a client starts a server.
#[derive(Debug, Clone)]
pub struct McpServerConfig {
    pub command: String,
    pub args: Vec<String>,
    /// The variables that the server is started with, in order.
    pub env: Option<Vec<(String, String)>>,
}

/// The servers of a client, by name and in order.
#[derive(Debug, Clone)]
pub struct McpClientConfig {
    pub mcp_servers: Vec<(String, McpServerConfig)>,
}

/// The places of the clients' configuration files inside the user's
/// configuration directory, as directory and file name, in order.
pub open spec fn client_config_places() -> Seq<(Seq<char>, Seq<char>)> {
    seq![
        ("augment"@, "mcp_config.json"@),
        ("mcp"@, "config.json"@),
    ]
}

/// The name of the clients' configuration file in the current directory.
pub const LOCAL_CONFIG_FILE: &'static str = "mcp_config.json";

/// The entry of this server as JSON: the command, its one argument, and the
/// variable that sets the log level.
pub open spec fn server_model(command: Seq<char>) -> JsonModel {
    JsonModel::Object(
        seq![
            ("command"@, JsonModel::Str(command)),
            ("args"@, JsonModel::Array(seq![JsonModel::Str("mcp-server"@)])),
            ("env"@, JsonModel::Object(seq![("RUST_LOG"@, JsonModel::Str("info"@))])),
        ],
    )
}

impl McpClientConfig {
    /// The configuration that enters this server, started from the executable
    /// at `exe_path`.
    pub fn new_cunzhi_config(exe_path: &str) -> (r: McpClientConfig)
        ensures
            r.mcp_servers@.len() == 1,
            r.mcp_servers@[0].0@ == SERVER_NAME@,
            r.mcp_servers@[0].1.command@ == exe_path@,
            views(r.mcp_servers@[0].1.args@) == seq!["mcp-server"@],
            r.mcp_servers@[0].1.env is Some,
            r.mcp_servers@[0].1.env->0@.len() == 1,
            r.mcp_servers@[0].1.env->0@[0].0@ == "RUST_LOG"@,
            r.mcp_servers@[0].1.env->0@[0].1@ == "info"@,
    {
        let args = vec!["mcp-server".to_string()];
        assert(views(args@) =~= seq!["mcp-server"@]);
        let env = vec![("RUST_LOG".to_string(), "info".to_string())];
        let server = McpServerConfig { command: exe_path.to_string(), args, env: Some(env) };
        McpClientConfig { mcp_servers: vec![(SERVER_NAME.to_string(), server)] }
    }

    /// The places of the clients' configuration files inside the user's
    /// configuration directory.
    pub fn config_places() -> (r: Vec<(String, String)>)
        ensures
            r@.len() == 2,
            forall|i: int|
                0 <= i < 2 ==> (#[trigger] r@[i]).0@ == client_config_places()[i].0 && r@[i].1@
                    == client_config_places()[i].1,
    {
        vec![
            ("augment".to_string(), "mcp_config.json".to_string()),
            ("mcp".to_string(), "config.json".to_string()),
        ]
    }

    /// The entry of this server, started from the executable at `exe_path`,
    /// as JSON.
    pub fn server_entry(exe_path: &str) -> (j: Json)
        ensures
            j@ == server_model(exe_path@),
    {
        object3(
            entry("command", Json::string(exe_path)),
            entry("args", crate::json::string_list1("mcp-server")),
            entry("env", object1(entry("RUST_LOG", Json::string("info")))),
        )
    }
}


/// The position of the first entry named `key`.
pub open spec fn member_position(entries: Seq<(Seq<char>, JsonModel)>, key: Seq<char>) -> Option<
    int,
>
    decreases entries.len(),
{
    if entries.len() == 0 {
        None
    } else if entries.last().0 == key && member_position(entries.drop_last(), key) is None {
        Some(entries.len() - 1)
    } else {
        member_position(entries.drop_last(), key)
    }
}

/// The entries with `value` under `key`: in the place of the first entry of
/// that name, or at the end where there is none.
pub open spec fn with_member(
    entries: Seq<(Seq<char>, JsonModel)>,
    key: Seq<char>,
    value: JsonModel,
) -> Seq<(Seq<char>, JsonModel)> {
    match member_position(entries, key) {
        Some(i) => entries.update(i, (key, value)),
        None => entries.push((key, value)),
    }
}

/// The entries of an object; none for anything else.
pub open spec fn entries_of(value: JsonModel) -> Seq<(Seq<char>, JsonModel)> {
    match value {
        JsonModel::Object(entries) => entries,
        _ => Seq::empty(),
    }
}

/// A client's configuration with this server entered: what the configuration
/// held stays, but that its servers are an object now, and `entry` stands in
/// it under the server's name.
pub open spec fn merged(existing: JsonModel, server: JsonModel) -> JsonModel {
    let base = entries_of(existing);
    let servers = entries_of(existing.member(SERVERS_KEY@));
    JsonModel::Object(
        with_member(
            base,
            SERVERS_KEY@,
            JsonModel::Object(with_member(servers, SERVER_NAME@, server)),
        ),
    )
}

/// [`member_position`] gives the first entry of the name, or `None` where
/// no entry has it.
pub proof fn lemma_member_position(entries: Seq<(Seq<char>, JsonModel)>, key: Seq<char>)
    ensures
        match member_position(entries, key) {
            Some(i) => 0 <= i < entries.len() && entries[i].0 == key && forall|j: int|
                0 <= j < i ==> (#[trigger] entries[j]).0 != key,
            None => forall|j: int| 0 <= j < entries.len() ==> (#[trigger] entries[j]).0 != key,
        },
    decreases entries.len(),
{
    if entries.len() > 0 {
        lemma_member_position(entries.drop_last(), key);
        match member_position(entries.drop_last(), key) {
            Some(i) => {
                assert(forall|j: int| 0 <= j < i ==> entries[j] == entries.drop_last()[j]);
            },
            None => {
                assert(forall|j: int|
                    0 <= j < entries.len() - 1 ==> entries[j] == entries.drop_last()[j]);
            },
        }
    }
}

fn put_member(entries: &Vec<(String, Json)>, key: &str, value: Json) -> (r: Vec<(String, Json)>)
    ensures
        entries_model(r@) == with_member(entries_model(entries@), key@, value@),
{
    let ghost all = entries_model(entries@);
    let ghost goal = with_member(all, key@, value@);
    proof {
        lemma_member_position(all, key@);
    }
    let mut at: Option<usize> = None;
    let mut k: usize = 0;
    while k < entries.len() && at.is_none()
        invariant
            k <= entries.len(),
            all == entries_model(entries@),
            at is None ==> forall|j: int| 0 <= j < k ==> (#[trigger] all[j]).0 != key@,
            at matches Some(i) ==> i < entries.len() && all[i as int].0 == key@ && forall|j: int|
                0 <= j < i ==> (#[trigger] all[j]).0 != key@,
        decreases entries.len() - k,
    {
        if str_eq(entries[k].0.as_str(), key) {
            assert(all[k as int].0 == key@);
            at = Some(k);
        }
        k += 1;
    }
    proof {
        match member_position(all, key@) {
            Some(p) => {
                assert(all[p].0 == key@);
                match at {
                    Some(i) => {
                        if p < i {
                            assert(all[p].0 != key@);
                        } else if i < p {
                            assert(all[i as int].0 != key@);
                        }
                    },
                    None => {
                        assert(all[p].0 != key@);
                    },
                }
            },
            None => {
                match at {
                    Some(i) => {
                        assert(all[i as int].0 != key@);
                    },
                    None => {},
                }
            },
        }
    }
    let mut out: Vec<(String, Json)> = Vec::new();
    let mut i: usize = 0;
    while i < entries.len()
        invariant
            i <= entries.len(),
            all == entries_model(entries@),
            goal == with_member(all, key@, value@),
            match at {
                Some(p) => member_position(all, key@) == Some(p as int) && p < entries.len(),
                None => member_position(all, key@) is None,
            },
            out@.len() == i,
            forall|j: int|
                0 <= j < i ==> (#[trigger] out@[j]).0@ == goal[j].0 && out@[j].1@ == goal[j].1,
        decreases entries.len() - i,
    {
        let replace = match at {
            Some(p) => p == i,
            None => false,
        };
        if replace {
            out.push((key.to_string(), value.clone()));
        } else {
            assert(goal[i as int] == all[i as int]);
            out.push((entries[i].0.clone(), entries[i].1.clone()));
        }
        i += 1;
    }
    if at.is_none() {
        out.push((key.to_string(), value));
    }
    assert(entries_model(out@) =~= goal);
    out
}

fn entries_copy(value: Option<&Json>) -> (r: Vec<(String, Json)>)
    ensures
        entries_model(r@) == entries_of(
            match value {
                Some(j) => j@,
                None => JsonModel::Null,
            },
        ),
{
    match value {
        Some(Json::Object(entries)) => {
            proof {
                lemma_object_view(*entries);
            }
            let mut out: Vec<(String, Json)> = Vec::new();
            let mut i: usize = 0;
            while i < entries.len()
                invariant
                    i <= entries.len(),
                    out@.len() == i,
                    forall|j: int|
                        0 <= j < i ==> (#[trigger] out@[j]).0@ == entries@[j].0@ && out@[j].1@
                            == entries@[j].1@,
                decreases entries.len() - i,
            {
                out.push((entries[i].0.clone(), entries[i].1.clone()));
                i += 1;
            }
            assert(entries_model(out@) =~= entries_model(entries@));
            out
        },
        _ => {
            let out: Vec<(String, Json)> = Vec::new();
            assert(entries_model(out@) =~= Seq::<(Seq<char>, JsonModel)>::empty());
            out
        },
    }
}

/// Enters this server into a client's configuration.
pub fn merge_config(existing: &Json, server: Json) -> (j: Json)
    ensures
        j@ == merged(existing@, server@),
{
    let base = entries_copy(Some(existing));
    let servers = entries_copy(existing.get(SERVERS_KEY));
    let entered = put_member(&servers, SERVER_NAME, server);
    let all = put_member(&base, SERVERS_KEY, Json::object(entered));
    Json::object(all)
}

} // verus!
