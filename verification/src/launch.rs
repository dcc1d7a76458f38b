//! Launch attempts: a terminal is spawned up to three times, with a fixed
//! pause between attempts, and a terminal that stays the spawned process must
//! survive its start.

use crate::terminal::{LaunchError, LaunchErrorView};
use vstd::prelude::*;

verus! {

/// How often a launch is attempted.
pub const MAX_ATTEMPTS: u32 = 3;

/// How long a spawned terminal is given before its state is read, in
/// milliseconds.
pub const STARTUP_WAIT_MILLIS: u64 = 500;

/// The pause between two attempts, in milliseconds.
pub const BACKOFF_MILLIS: u64 = 1000;

/// Where a launch stands.
#[derive(Debug, Clone, Copy, PartialEq, Eq, Structural)]
pub enum LaunchPhase {
    /// The terminal is to be spawned.
    Spawning,
    /// The terminal was spawned; its state is to be read.
    Checking,
    /// An attempt failed; the next one is due after the pause.
    Backoff,
    Succeeded,
    Failed,
}

/// What happened to the step that the driver was asked for.
#[derive(Debug, Clone)]
pub enum LaunchEvent {
    /// The process was spawned.
    Spawned,
    /// The process could not be spawned.
    SpawnFailed(String),
    /// The spawned process still runs.
    Running,
    /// The spawned process has exited.
    Exited { success: bool, status: String },
    /// The state of the spawned process could not be read.
    CheckFailed(String),
    /// The pause is over.
    Slept,
}

/// The view of a [`LaunchEvent`].
pub enum LaunchEventView {
    Spawned,
    SpawnFailed(Seq<char>),
    Running,
    Exited { success: bool, status: Seq<char> },
    CheckFailed(Seq<char>),
    Slept,
}

impl View for LaunchEvent {
    type V = LaunchEventView;

    open spec fn view(&self) -> LaunchEventView {
        match self {
            LaunchEvent::Spawned => LaunchEventView::Spawned,
            LaunchEvent::SpawnFailed(m) => LaunchEventView::SpawnFailed(m@),
            LaunchEvent::Running => LaunchEventView::Running,
            LaunchEvent::Exited { success, status } => LaunchEventView::Exited {
                success: *success,
                status: status@,
            },
            LaunchEvent::CheckFailed(m) => LaunchEventView::CheckFailed(m@),
            LaunchEvent::Slept => LaunchEventView::Slept,
        }
    }
}

/// What the driver does next.
#[derive(Debug)]
pub enum LaunchAction {
    /// Spawn the terminal; answer with `Spawned` or `SpawnFailed`.
    Spawn,
    /// Wait so many milliseconds, then read the state of the spawned process;
    /// answer with `Running`, `Exited` or `CheckFailed`.
    WaitAndCheck { millis: u64 },
    /// Sleep so many milliseconds; answer with `Slept`.
    Sleep { millis: u64 },
    /// The launch has ended.
    Done(Result<(), LaunchError>),
}

/// The view of a [`LaunchAction`].
pub enum LaunchActionView {
    Spawn,
    WaitAndCheck { millis: u64 },
    Sleep { millis: u64 },
    Done(Result<(), LaunchErrorView>),
}

impl View for LaunchAction {
    type V = LaunchActionView;

    open spec fn view(&self) -> LaunchActionView {
        match self {
            LaunchAction::Spawn => LaunchActionView::Spawn,
            LaunchAction::WaitAndCheck { millis } => LaunchActionView::WaitAndCheck {
                millis: *millis,
            },
            LaunchAction::Sleep { millis } => LaunchActionView::Sleep { millis: *millis },
            LaunchAction::Done(r) => LaunchActionView::Done(
                match r {
                    Ok(_) => Ok(()),
                    Err(e) => Err(e@),
                },
            ),
        }
    }
}

/// The state of a launch.
#[derive(Debug)]
pub struct LaunchRetry {
    attempt: u32,
    wait_for_startup: bool,
    phase: LaunchPhase,
    last_error: Option<LaunchError>,
}

/// The view of a [`LaunchRetry`].
pub struct LaunchState {
    /// The number of the attempt that is under way, from 1.
    pub attempt: u32,
    pub wait_for_startup: bool,
    pub phase: LaunchPhase,
    pub last_error: Option<LaunchErrorView>,
}

impl View for LaunchRetry {
    type V = LaunchState;

    closed spec fn view(&self) -> LaunchState {
        LaunchState {
            attempt: self.attempt,
            wait_for_startup: self.wait_for_startup,
            phase: self.phase,
            last_error: match self.last_error {
                Some(e) => Some(e@),
                None => None,
            },
        }
    }
}

/// The event answers the step that the phase asks for.
pub open spec fn fits(phase: LaunchPhase, event: LaunchEventView) -> bool {
    match phase {
        LaunchPhase::Spawning => event is Spawned || event is SpawnFailed,
        LaunchPhase::Checking => event is Running || event is Exited || event is CheckFailed,
        LaunchPhase::Backoff => event is Slept,
        _ => false,
    }
}

/// The state after an attempt failed with `error`: another attempt follows
/// the pause, unless this was the last.
pub open spec fn after_failure(state: LaunchState, error: LaunchErrorView) -> LaunchState {
    LaunchState {
        phase: if state.attempt < MAX_ATTEMPTS {
            LaunchPhase::Backoff
        } else {
            LaunchPhase::Failed
        },
        last_error: Some(error),
        ..state
    }
}

/// The state after `event`. An event that does not answer the step asked for
/// changes nothing.
pub open spec fn launch_next(state: LaunchState, event: LaunchEventView) -> LaunchState {
    match (state.phase, event) {
        (LaunchPhase::Spawning, LaunchEventView::Spawned) => LaunchState {
            phase: if state.wait_for_startup {
                LaunchPhase::Checking
            } else {
                LaunchPhase::Succeeded
            },
            ..state
        },
        (LaunchPhase::Spawning, LaunchEventView::SpawnFailed(m)) => after_failure(
            state,
            LaunchErrorView::SpawnFailed(m),
        ),
        (LaunchPhase::Checking, LaunchEventView::Running) => LaunchState {
            phase: LaunchPhase::Succeeded,
            ..state
        },
        (LaunchPhase::Checking, LaunchEventView::Exited { success, status }) => if success {
            LaunchState { phase: LaunchPhase::Succeeded, ..state }
        } else {
            after_failure(state, LaunchErrorView::AbnormalExit(status))
        },
        (LaunchPhase::Checking, LaunchEventView::CheckFailed(m)) => after_failure(
            state,
            LaunchErrorView::StatusCheckFailed(m),
        ),
        (LaunchPhase::Backoff, LaunchEventView::Slept) => if state.attempt < MAX_ATTEMPTS {
            LaunchState {
                phase: LaunchPhase::Spawning,
                attempt: (state.attempt + 1) as u32,
                ..state
            }
        } else {
            LaunchState { phase: LaunchPhase::Failed, ..state }
        },
        _ => state,
    }
}

/// What the driver does in a state.
pub open spec fn launch_action(state: LaunchState) -> LaunchActionView {
    match state.phase {
        LaunchPhase::Spawning => LaunchActionView::Spawn,
        LaunchPhase::Checking => LaunchActionView::WaitAndCheck { millis: STARTUP_WAIT_MILLIS },
        LaunchPhase::Backoff => LaunchActionView::Sleep { millis: BACKOFF_MILLIS },
        LaunchPhase::Succeeded => LaunchActionView::Done(Ok(())),
        LaunchPhase::Failed => LaunchActionView::Done(
            Err(
                match state.last_error {
                    Some(e) => e,
                    None => LaunchErrorView::Unknown,
                },
            ),
        ),
    }
}

/// The launch has ended.
pub open spec fn launch_ended(state: LaunchState) -> bool {
    state.phase == LaunchPhase::Succeeded || state.phase == LaunchPhase::Failed
}

/// The attempt under way is one of the three, and a pause is made only
/// where another attempt follows.
pub open spec fn launch_valid(state: LaunchState) -> bool {
    &&& 1 <= state.attempt <= MAX_ATTEMPTS
    &&& state.phase == LaunchPhase::Backoff ==> state.attempt < MAX_ATTEMPTS
}

/// How many steps a launch can still take.
pub open spec fn steps_left(state: LaunchState) -> nat {
    let later = if state.attempt <= MAX_ATTEMPTS {
        (3 * (MAX_ATTEMPTS - state.attempt)) as nat
    } else {
        0
    };
    match state.phase {
        LaunchPhase::Spawning => later + 3,
        LaunchPhase::Checking => later + 2,
        LaunchPhase::Backoff => later + 1,
        _ => 0,
    }
}

/// The state at the start of a launch.
pub open spec fn launch_start(wait_for_startup: bool) -> LaunchState {
    LaunchState { attempt: 1, wait_for_startup, phase: LaunchPhase::Spawning, last_error: None }
}

impl LaunchRetry {
    #[verifier::type_invariant]
    spec fn in_order(&self) -> bool {
        launch_valid(self@)
    }

    /// A launch before its first attempt.
    pub fn new(wait_for_startup: bool) -> (r: LaunchRetry)
        ensures
            r@ == launch_start(wait_for_startup),
            launch_valid(r@),
    {
        LaunchRetry { attempt: 1, wait_for_startup, phase: LaunchPhase::Spawning, last_error: None }
    }

    /// The number of the attempt under way: one of the three.
    pub fn attempt(&self) -> (r: u32)
        ensures
            r == self@.attempt,
            1 <= r <= MAX_ATTEMPTS,
            launch_valid(self@),
    {
        proof {
            use_type_invariant(self);
        }
        self.attempt
    }

    /// What the driver does next.
    pub fn action(&self) -> (r: LaunchAction)
        ensures
            r@ == launch_action(self@),
            launch_valid(self@),
    {
        proof {
            use_type_invariant(self);
        }
        match self.phase {
            LaunchPhase::Spawning => LaunchAction::Spawn,
            LaunchPhase::Checking => LaunchAction::WaitAndCheck { millis: STARTUP_WAIT_MILLIS },
            LaunchPhase::Backoff => LaunchAction::Sleep { millis: BACKOFF_MILLIS },
            LaunchPhase::Succeeded => LaunchAction::Done(Ok(())),
            LaunchPhase::Failed => LaunchAction::Done(
                Err(
                    match &self.last_error {
                        Some(e) => e.duplicate(),
                        None => LaunchError::Unknown,
                    },
                ),
            ),
        }
    }

    fn failed(&self, error: LaunchError) -> (r: LaunchRetry)
        ensures
            r@ == after_failure(self@, error@),
            launch_valid(r@),
    {
        proof {
            use_type_invariant(self);
        }
        LaunchRetry {
            attempt: self.attempt,
            wait_for_startup: self.wait_for_startup,
            phase: if self.attempt < MAX_ATTEMPTS {
                LaunchPhase::Backoff
            } else {
                LaunchPhase::Failed
            },
            last_error: Some(error),
        }
    }

    fn moved(&self, attempt: u32, phase: LaunchPhase) -> (r: LaunchRetry)
        requires
            launch_valid(LaunchState { attempt, phase, ..self@ }),
        ensures
            r@ == (LaunchState { attempt, phase, ..self@ }),
    {
        LaunchRetry {
            attempt,
            wait_for_startup: self.wait_for_startup,
            phase,
            last_error: match &self.last_error {
                Some(e) => Some(e.duplicate()),
                None => None,
            },
        }
    }

    /// Takes what happened to the step that [`Self::action`] asked for.
    pub fn advance(&mut self, event: LaunchEvent)
        ensures
            final(self)@ == launch_next(old(self)@, event@),
            launch_valid(final(self)@),
    {
        proof {
            use_type_invariant(&*self);
            lemma_launch_progress(self@, event@);
        }
        let attempt = self.attempt;
        match self.phase {
            LaunchPhase::Spawning => match event {
                LaunchEvent::Spawned => {
                    let phase = if self.wait_for_startup {
                        LaunchPhase::Checking
                    } else {
                        LaunchPhase::Succeeded
                    };
                    *self = self.moved(attempt, phase);
                },
                LaunchEvent::SpawnFailed(m) => {
                    *self = self.failed(LaunchError::SpawnFailed(m));
                },
                _ => {},
            },
            LaunchPhase::Checking => match event {
                LaunchEvent::Running => {
                    *self = self.moved(attempt, LaunchPhase::Succeeded);
                },
                LaunchEvent::Exited { success, status } => {
                    if success {
                        *self = self.moved(attempt, LaunchPhase::Succeeded);
                    } else {
                        *self = self.failed(LaunchError::AbnormalExit(status));
                    }
                },
                LaunchEvent::CheckFailed(m) => {
                    *self = self.failed(LaunchError::StatusCheckFailed(m));
                },
                _ => {},
            },
            LaunchPhase::Backoff => match event {
                LaunchEvent::Slept => {
                    *self = self.moved(attempt + 1, LaunchPhase::Spawning);
                },
                _ => {},
            },
            _ => {},
        }
    }
}

/// A launch stays within its three attempts, and each event that answers the
/// step asked for brings it nearer to its end.
pub proof fn lemma_launch_progress(state: LaunchState, event: LaunchEventView)
    requires
        launch_valid(state),
    ensures
        launch_valid(launch_next(state, event)),
        fits(state.phase, event) ==> steps_left(launch_next(state, event)) < steps_left(state),
        !fits(state.phase, event) ==> launch_next(state, event) == state,
        launch_next(state, event).attempt >= state.attempt,
{
}

/// The state after the events of `events`, in order.
pub open spec fn launch_run(state: LaunchState, events: Seq<LaunchEventView>) -> LaunchState
    decreases events.len(),
{
    if events.len() == 0 {
        state
    } else {
        launch_run(launch_next(state, events[0]), events.drop_first())
    }
}

/// Whatever happens, a launch never goes beyond its third attempt.
pub proof fn lemma_launch_bounded(wait_for_startup: bool, events: Seq<LaunchEventView>)
    ensures
        launch_valid(launch_run(launch_start(wait_for_startup), events)),
{
    lemma_run_valid(launch_start(wait_for_startup), events);
}

proof fn lemma_run_valid(state: LaunchState, events: Seq<LaunchEventView>)
    requires
        launch_valid(state),
    ensures
        launch_valid(launch_run(state, events)),
    decreases events.len(),
{
    if events.len() > 0 {
        lemma_launch_progress(state, events[0]);
        lemma_run_valid(launch_next(state, events[0]), events.drop_first());
    }
}

/// A launch fails only once its third attempt has failed, and then with the
/// error of that attempt.
pub proof fn lemma_launch_fails_last(state: LaunchState, event: LaunchEventView)
    requires
        launch_valid(state),
        !launch_ended(state),
        launch_next(state, event).phase == LaunchPhase::Failed,
    ensures
        state.attempt == MAX_ATTEMPTS,
        launch_next(state, event).last_error is Some,
        launch_action(launch_next(state, event)) == LaunchActionView::Done(
            Err(launch_next(state, event).last_error->0),
        ),
{
}

/// A launch that has ended stays as it is.
pub proof fn lemma_launch_final(state: LaunchState, event: LaunchEventView)
    requires
        launch_ended(state),
    ensures
        launch_next(state, event) == state,
{
}

} // verus!
