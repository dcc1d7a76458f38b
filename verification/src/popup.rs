//! The UI process: where its executable is looked for, how it is invoked, and
//! what its exit says.

use crate::text::{trim, trimmed, views};
use vstd::prelude::*;

verus! {

/// The name of the UI executable.
pub const UI_COMMAND: &'static str = "cunzhi-ui";

/// The places where the UI executable is looked for, in order.
#[derive(Debug, Clone, Copy, PartialEq, Eq, Structural)]
pub enum UiPlace {
    /// Beside the running executable.
    Local,
    /// On the search path.
    Global,
    /// In the project under development, run through `cargo`.
    Development,
}

/// The executable to run, and the arguments that come before those of the
/// request.
#[derive(Debug, Clone)]
pub struct UiCommand {
    pub program: String,
    pub leading_args: Vec<String>,
}

/// The view of a [`UiCommand`].
pub struct UiCommandView {
    pub program: Seq<char>,
    pub leading_args: Seq<Seq<char>>,
}

impl View for UiCommand {
    type V = UiCommandView;

    open spec fn view(&self) -> UiCommandView {
        UiCommandView { program: self.program@, leading_args: views(self.leading_args@) }
    }
}

/// How far the search for the UI executable has come.
#[derive(Debug, Clone)]
pub enum UiSearch {
    /// This place is to be probed next.
    Probe(UiPlace),
    /// The executable was found.
    Use(UiCommand),
    /// The executable is in none of the places.
    Missing(String),
}

/// The view of a [`UiSearch`].
pub enum UiSearchView {
    Probe(UiPlace),
    Use(UiCommandView),
    Missing(Seq<char>),
}

impl View for UiSearch {
    type V = UiSearchView;

    open spec fn view(&self) -> UiSearchView {
        match self {
            UiSearch::Probe(p) => UiSearchView::Probe(*p),
            UiSearch::Use(c) => UiSearchView::Use(c@),
            UiSearch::Missing(m) => UiSearchView::Missing(m@),
        }
    }
}

/// What is said where the UI executable is in none of the places.
pub const UI_MISSING: &'static str =
    "找不到cunzhi-ui命令。请确保：\n1. 已编译项目：cargo build --release\n2. 或已全局安装：cargo install --path .\n3. 或cunzhi-ui命令在同目录下";

/// The view of what the probe beside the executable found.
pub open spec fn local_view(local: Option<Option<String>>) -> Option<Option<Seq<char>>> {
    match local {
        Some(Some(p)) => Some(Some(p@)),
        Some(None) => Some(None),
        None => None,
    }
}

/// Where the search stands, given what is known: for each place, `None` as
/// long as it was not probed. The places are probed in order, and a later one
/// only once the earlier ones have failed.
pub open spec fn ui_search(
    local: Option<Option<Seq<char>>>,
    global: Option<bool>,
    development: Option<bool>,
) -> UiSearchView {
    match local {
        None => UiSearchView::Probe(UiPlace::Local),
        Some(Some(path)) => UiSearchView::Use(
            UiCommandView { program: path, leading_args: Seq::empty() },
        ),
        Some(None) => match global {
            None => UiSearchView::Probe(UiPlace::Global),
            Some(true) => UiSearchView::Use(
                UiCommandView { program: UI_COMMAND@, leading_args: Seq::empty() },
            ),
            Some(false) => match development {
                None => UiSearchView::Probe(UiPlace::Development),
                Some(true) => UiSearchView::Use(
                    UiCommandView {
                        program: "cargo"@,
                        leading_args: seq!["run"@, "--bin"@, UI_COMMAND@, "--"@],
                    },
                ),
                Some(false) => UiSearchView::Missing(UI_MISSING@),
            },
        },
    }
}

/// Looks for the UI executable with what is known so far.
pub fn find_ui_command(
    local: Option<Option<String>>,
    global: Option<bool>,
    development: Option<bool>,
) -> (r: UiSearch)
    ensures
        r@ == ui_search(local_view(local), global, development),
{
    match local {
        None => UiSearch::Probe(UiPlace::Local),
        Some(Some(path)) => {
            let leading_args: Vec<String> = Vec::new();
            assert(views(leading_args@) =~= Seq::<Seq<char>>::empty());
            UiSearch::Use(UiCommand { program: path, leading_args })
        },
        Some(None) => match global {
            None => UiSearch::Probe(UiPlace::Global),
            Some(true) => {
                let leading_args: Vec<String> = Vec::new();
                assert(views(leading_args@) =~= Seq::<Seq<char>>::empty());
                UiSearch::Use(UiCommand { program: UI_COMMAND.to_string(), leading_args })
            },
            Some(false) => match development {
                None => UiSearch::Probe(UiPlace::Development),
                Some(true) => {
                    let leading_args = vec![
                        "run".to_string(),
                        "--bin".to_string(),
                        UI_COMMAND.to_string(),
                        "--".to_string(),
                    ];
                    assert(views(leading_args@) =~= seq!["run"@, "--bin"@, UI_COMMAND@, "--"@]);
                    UiSearch::Use(UiCommand { program: "cargo".to_string(), leading_args })
                },
                Some(false) => UiSearch::Missing(UI_MISSING.to_string()),
            },
        },
    }
}

/// The name of the file that holds the request `id`.
pub open spec fn request_file(id: Seq<char>) -> Seq<char> {
    "mcp_request_"@ + id + ".json"@
}

/// The name of the temporary file that holds the request `id`.
pub fn request_file_name(id: &str) -> (r: String)
    ensures
        r@ == request_file(id@),
{
    let mut r = "mcp_request_".to_string();
    r.append(id);
    r.append(".json");
    r
}

/// The arguments of the UI process for the request in the file at `path`.
pub fn ui_arguments(command: &UiCommand, path: &str) -> (r: Vec<String>)
    ensures
        views(r@) == command@.leading_args + seq!["--mcp-request"@, path@],
{
    let mut r: Vec<String> = Vec::new();
    let mut i: usize = 0;
    while i < command.leading_args.len()
        invariant
            i <= command.leading_args.len(),
            r@.len() == i,
            forall|k: int| 0 <= k < i ==> (#[trigger] r@[k])@ == command.leading_args@[k]@,
        decreases command.leading_args.len() - i,
    {
        r.push(command.leading_args[i].clone());
        i += 1;
    }
    r.push("--mcp-request".to_string());
    r.push(path.to_string());
    assert(views(r@) =~= command@.leading_args + seq!["--mcp-request"@, path@]);
    r
}

/// What the exit of the UI process says: with status 0, its output, trimmed,
/// is the answer; else its error output is the diagnosis.
pub open spec fn ui_outcome(success: bool, stdout: Result<Seq<char>, Seq<char>>, stderr: Seq<char>)
    -> Result<Seq<char>, Seq<char>> {
    if success {
        match stdout {
            Ok(text) => Ok(trimmed(text)),
            Err(e) => Err(e),
        }
    } else {
        Err("UI进程失败: "@ + stderr)
    }
}

/// Reads the exit of the UI process. `stdout` is what it printed, or why that
/// is no text.
pub fn read_ui_exit(success: bool, stdout: Result<String, String>, stderr: &str) -> (r: Result<
    String,
    String,
>)
    ensures
        match r {
            Ok(t) => ui_outcome(
                success,
                match stdout {
                    Ok(s) => Ok(s@),
                    Err(e) => Err(e@),
                },
                stderr@,
            ) == Ok::<Seq<char>, Seq<char>>(t@),
            Err(m) => ui_outcome(
                success,
                match stdout {
                    Ok(s) => Ok(s@),
                    Err(e) => Err(e@),
                },
                stderr@,
            ) == Err::<Seq<char>, Seq<char>>(m@),
        },
{
    if success {
        match stdout {
            Ok(text) => Ok(trim(text.as_str())),
            Err(e) => Err(e),
        }
    } else {
        let mut m = "UI进程失败: ".to_string();
        m.append(stderr);
        Err(m)
    }
}

} // verus!
