//! Finding out whether a command exists on the host: which processes to run,
//! one after the other, and what their outcomes say.

use crate::terminal::Platform;
use crate::text::{contains, lowercase, str_contains, str_eq, to_lowercase, views};
use vstd::prelude::*;

verus! {

/// How a probing process ended.
#[derive(Debug, Clone)]
pub struct RunOutcome {
    /// The process exited with status 0.
    pub success: bool,
    /// The process wrote nothing to standard output.
    pub stdout_empty: bool,
    /// What the process wrote to standard error.
    pub stderr: String,
}

/// The view of a [`RunOutcome`].
pub struct RunView {
    pub success: bool,
    pub stdout_empty: bool,
    pub stderr: Seq<char>,
}

impl View for RunOutcome {
    type V = RunView;

    open spec fn view(&self) -> RunView {
        RunView { success: self.success, stdout_empty: self.stdout_empty, stderr: self.stderr@ }
    }
}

/// The view of the outcome of a run; `None` where the process could not be
/// started.
pub open spec fn outcome_view(outcome: Option<RunOutcome>) -> Option<RunView> {
    match outcome {
        Some(o) => Some(o@),
        None => None,
    }
}

/// Where a probe stands.
#[derive(Debug, Clone, Copy, PartialEq, Eq, Structural)]
pub enum ProbeStage {
    /// The lookup command (`which`, or `where` on Windows) is asked.
    Lookup,
    /// The command has a check of its own, which settles the matter.
    Special,
    /// The command is run with the version flag of this index.
    Version(u8),
    /// The command is run without arguments.
    Bare,
    /// The probe has ended: the command exists, or it does not.
    Done(bool),
}

/// A process to run.
#[derive(Debug, Clone)]
pub struct ProbeRun {
    pub program: String,
    pub args: Vec<String>,
}

/// What the driver of a probe does next.
#[derive(Debug, Clone)]
pub enum ProbeAction {
    /// Run this process and hand its outcome to [`CommandProbe::advance`].
    Run(ProbeRun),
    /// The probe has ended with this answer.
    Finish(bool),
}

/// The view of a [`ProbeAction`].
pub enum ProbeActionView {
    Run { program: Seq<char>, args: Seq<Seq<char>> },
    Finish(bool),
}

impl View for ProbeAction {
    type V = ProbeActionView;

    open spec fn view(&self) -> ProbeActionView {
        match self {
            ProbeAction::Run(run) => ProbeActionView::Run {
                program: run.program@,
                args: views(run.args@),
            },
            ProbeAction::Finish(b) => ProbeActionView::Finish(*b),
        }
    }
}

/// The flags that most commands answer with success.
pub open spec fn version_flag(index: u8) -> Seq<char> {
    if index == 0 {
        "--version"@
    } else if index == 1 {
        "-v"@
    } else if index == 2 {
        "--help"@
    } else {
        "-h"@
    }
}

/// The lookup command of a platform.
pub open spec fn lookup_command(platform: Platform) -> Seq<char> {
    if platform == Platform::Windows {
        "where"@
    } else {
        "which"@
    }
}

/// The lookup found the command: it succeeded and printed something.
pub open spec fn found_by_lookup(outcome: Option<RunView>) -> bool {
    outcome matches Some(run) && run.success && !run.stdout_empty
}

/// The process ran and succeeded.
pub open spec fn succeeded(outcome: Option<RunView>) -> bool {
    outcome matches Some(run) && run.success
}

/// The lower-cased error output says that there is no such command.
pub open spec fn reports_missing(lowered: Seq<char>) -> bool {
    contains(lowered, "not found"@) || contains(lowered, "not recognized"@) || contains(
        lowered,
        "no such file"@,
    )
}

/// A command that ran without arguments and failed exists all the same,
/// unless its error output says that there is no such command.
pub open spec fn rejected_but_present(outcome: Option<RunView>) -> bool {
    outcome matches Some(run) && !run.success && !reports_missing(lowercase(run.stderr))
}

/// The command has a check of its own on this platform.
pub open spec fn has_special_check(command: Seq<char>, platform: Platform) -> bool {
    (command == "osascript"@ && platform == Platform::MacOs) || (command == "wt"@ && platform
        == Platform::Windows)
}

/// The stage that follows `stage` once the run of `stage` ended with
/// `outcome`.
pub open spec fn next_stage(
    stage: ProbeStage,
    command: Seq<char>,
    platform: Platform,
    outcome: Option<RunView>,
) -> ProbeStage {
    match stage {
        ProbeStage::Lookup => if found_by_lookup(outcome) {
            ProbeStage::Done(true)
        } else if command == "cmd"@ && platform == Platform::Windows {
            ProbeStage::Done(true)
        } else if has_special_check(command, platform) {
            ProbeStage::Special
        } else {
            ProbeStage::Version(0)
        },
        ProbeStage::Special => ProbeStage::Done(succeeded(outcome)),
        ProbeStage::Version(index) => if succeeded(outcome) {
            ProbeStage::Done(true)
        } else if index < 3 {
            ProbeStage::Version((index + 1) as u8)
        } else {
            ProbeStage::Bare
        },
        ProbeStage::Bare => ProbeStage::Done(rejected_but_present(outcome)),
        ProbeStage::Done(answer) => ProbeStage::Done(answer),
    }
}

/// What the driver does at `stage`.
pub open spec fn action_at(stage: ProbeStage, command: Seq<char>, platform: Platform)
    -> ProbeActionView {
    match stage {
        ProbeStage::Lookup => ProbeActionView::Run {
            program: lookup_command(platform),
            args: seq![command],
        },
        ProbeStage::Special => if command == "osascript"@ {
            ProbeActionView::Run { program: "osascript"@, args: seq!["-e"@, "return 1"@] }
        } else {
            ProbeActionView::Run { program: "wt"@, args: seq!["--help"@] }
        },
        ProbeStage::Version(index) => ProbeActionView::Run {
            program: command,
            args: seq![version_flag(index)],
        },
        ProbeStage::Bare => ProbeActionView::Run { program: command, args: Seq::empty() },
        ProbeStage::Done(answer) => ProbeActionView::Finish(answer),
    }
}

/// How many runs a probe at `stage` can still ask for.
pub open spec fn runs_left(stage: ProbeStage) -> nat {
    match stage {
        ProbeStage::Lookup => 6,
        ProbeStage::Special => 1,
        ProbeStage::Version(index) => if index <= 3 {
            (5 - index) as nat
        } else {
            2
        },
        ProbeStage::Bare => 1,
        ProbeStage::Done(_) => 0,
    }
}

/// Whether the lower-cased error output of a command says that there is no
/// such command.
pub fn error_reports_missing(lowered: &str) -> (r: bool)
    ensures
        r == reports_missing(lowered@),
{
    str_contains(lowered, "not found") || str_contains(lowered, "not recognized") || str_contains(
        lowered,
        "no such file",
    )
}

/// The probe for one command.
#[derive(Debug, Clone)]
pub struct CommandProbe {
    command: String,
    platform: Platform,
    stage: ProbeStage,
}

impl CommandProbe {
    /// The command that is probed.
    pub closed spec fn command(&self) -> Seq<char> {
        self.command@
    }

    /// The platform that the probe runs on.
    pub closed spec fn platform(&self) -> Platform {
        self.platform
    }

    /// Where the probe stands.
    pub closed spec fn stage(&self) -> ProbeStage {
        self.stage
    }

    /// A probe for `command`, before its first run.
    pub fn new(command: &str, platform: Platform) -> (r: CommandProbe)
        ensures
            r.command() == command@,
            r.platform() == platform,
            r.stage() == ProbeStage::Lookup,
    {
        CommandProbe { command: command.to_string(), platform, stage: ProbeStage::Lookup }
    }

    /// Where the probe stands.
    pub fn current_stage(&self) -> (r: ProbeStage)
        ensures
            r == self.stage(),
    {
        self.stage
    }

    /// What the driver does next.
    pub fn action(&self) -> (r: ProbeAction)
        ensures
            r@ == action_at(self.stage(), self.command(), self.platform()),
    {
        match self.stage {
            ProbeStage::Lookup => {
                let program = if self.platform == Platform::Windows {
                    "where".to_string()
                } else {
                    "which".to_string()
                };
                let args = vec![self.command.clone()];
                assert(views(args@) =~= seq![self.command@]);
                ProbeAction::Run(ProbeRun { program, args })
            },
            ProbeStage::Special => {
                if str_eq(self.command.as_str(), "osascript") {
                    let args = vec!["-e".to_string(), "return 1".to_string()];
                    assert(views(args@) =~= seq!["-e"@, "return 1"@]);
                    ProbeAction::Run(ProbeRun { program: "osascript".to_string(), args })
                } else {
                    let args = vec!["--help".to_string()];
                    assert(views(args@) =~= seq!["--help"@]);
                    ProbeAction::Run(ProbeRun { program: "wt".to_string(), args })
                }
            },
            ProbeStage::Version(index) => {
                let flag = if index == 0 {
                    "--version".to_string()
                } else if index == 1 {
                    "-v".to_string()
                } else if index == 2 {
                    "--help".to_string()
                } else {
                    "-h".to_string()
                };
                let args = vec![flag];
                assert(views(args@) =~= seq![version_flag(index)]);
                ProbeAction::Run(ProbeRun { program: self.command.clone(), args })
            },
            ProbeStage::Bare => {
                let args: Vec<String> = Vec::new();
                assert(views(args@) =~= Seq::<Seq<char>>::empty());
                ProbeAction::Run(ProbeRun { program: self.command.clone(), args })
            },
            ProbeStage::Done(answer) => ProbeAction::Finish(answer),
        }
    }

    /// Takes the outcome of the run that [`Self::action`] asked for; `None`
    /// where the process could not be started. Each outcome brings the probe
    /// nearer to its end.
    pub fn advance(&mut self, outcome: Option<RunOutcome>)
        ensures
            final(self).command() == old(self).command(),
            final(self).platform() == old(self).platform(),
            final(self).stage() == next_stage(
                old(self).stage(),
                old(self).command(),
                old(self).platform(),
                outcome_view(outcome),
            ),
            !(old(self).stage() is Done) ==> runs_left(final(self).stage()) < runs_left(
                old(self).stage(),
            ),
    {
        let succeeded = match &outcome {
            Some(run) => run.success,
            None => false,
        };
        let next = match self.stage {
            ProbeStage::Lookup => {
                let found = match &outcome {
                    Some(run) => run.success && !run.stdout_empty,
                    None => false,
                };
                if found {
                    ProbeStage::Done(true)
                } else if str_eq(self.command.as_str(), "cmd") && self.platform
                    == Platform::Windows {
                    ProbeStage::Done(true)
                } else if (str_eq(self.command.as_str(), "osascript") && self.platform
                    == Platform::MacOs) || (str_eq(self.command.as_str(), "wt") && self.platform
                    == Platform::Windows) {
                    ProbeStage::Special
                } else {
                    ProbeStage::Version(0)
                }
            },
            ProbeStage::Special => ProbeStage::Done(succeeded),
            ProbeStage::Version(index) => {
                if succeeded {
                    ProbeStage::Done(true)
                } else if index < 3 {
                    ProbeStage::Version(index + 1)
                } else {
                    ProbeStage::Bare
                }
            },
            ProbeStage::Bare => {
                let present = match &outcome {
                    Some(run) => !run.success && !error_reports_missing(
                        to_lowercase(run.stderr.as_str()).as_str(),
                    ),
                    None => false,
                };
                ProbeStage::Done(present)
            },
            ProbeStage::Done(answer) => ProbeStage::Done(answer),
        };
        self.stage = next;
    }
}

/// The answer of a probe whose runs ended with `outcomes`, in order, or `None`
/// where the probe asks for more.
pub open spec fn probe_answer(
    stage: ProbeStage,
    command: Seq<char>,
    platform: Platform,
    outcomes: Seq<Option<RunView>>,
) -> Option<bool>
    decreases outcomes.len(),
{
    match stage {
        ProbeStage::Done(answer) => Some(answer),
        _ => if outcomes.len() == 0 {
            None
        } else {
            probe_answer(
                next_stage(stage, command, platform, outcomes[0]),
                command,
                platform,
                outcomes.drop_first(),
            )
        },
    }
}

/// A probe answers after six runs at most, whatever their outcomes.
pub proof fn lemma_probe_ends(
    stage: ProbeStage,
    command: Seq<char>,
    platform: Platform,
    outcomes: Seq<Option<RunView>>,
)
    requires
        outcomes.len() >= runs_left(stage),
    ensures
        probe_answer(stage, command, platform, outcomes) is Some,
    decreases outcomes.len(),
{
    if !(stage is Done) {
        lemma_probe_ends(
            next_stage(stage, command, platform, outcomes[0]),
            command,
            platform,
            outcomes.drop_first(),
        );
    }
}

/// A command that the lookup finds exists, whatever else is true of it.
pub proof fn lemma_lookup_settles(command: Seq<char>, platform: Platform, outcome: Option<RunView>)
    requires
        found_by_lookup(outcome),
    ensures
        probe_answer(ProbeStage::Lookup, command, platform, seq![outcome]) == Some(true),
{
    let rest = seq![outcome].drop_first();
    assert(seq![outcome][0] == outcome);
    assert(next_stage(ProbeStage::Lookup, command, platform, outcome) == ProbeStage::Done(true));
    assert(probe_answer(ProbeStage::Done(true), command, platform, rest) == Some(true));
}

} // verus!
