//! The response synchronizer: the wait for the answer that a terminal session
//! leaves in its response file, polled once a second until a timeout.

use crate::text::{decimal, push_decimal, trim, trimmed};
use crate::types::{McpError, McpErrorView};
use vstd::prelude::*;

verus! {

/// The pause between two polls, in seconds.
pub const POLL_SECONDS: u64 = 1;

/// After how many seconds of waiting a progress line is due.
pub const PROGRESS_EVERY: u32 = 30;

/// Which of the two files of a session are removed.
#[derive(Debug, Clone, Copy, PartialEq, Eq, Structural)]
pub struct Cleanup {
    /// The script that drove the session.
    pub script: bool,
    /// The file that holds the answer.
    pub response: bool,
}

/// What the driver of a wait does next.
#[derive(Debug, Clone)]
pub enum WaitAction {
    /// Read the response file and hand what it holds to
    /// [`ResponseWait::observe`].
    Poll,
    /// Sleep so many seconds, then call [`ResponseWait::slept`].
    Sleep { seconds: u64 },
    /// The answer is there: remove the files and hand the answer back.
    Accept { answer: String, cleanup: Cleanup },
    /// No answer came in time: remove the files and fail.
    TimedOut { error: McpError, cleanup: Cleanup },
}

/// The view of a [`WaitAction`].
pub enum WaitActionView {
    Poll,
    Sleep { seconds: u64 },
    Accept { answer: Seq<char>, cleanup: Cleanup },
    TimedOut { error: McpErrorView, cleanup: Cleanup },
}

impl View for WaitAction {
    type V = WaitActionView;

    open spec fn view(&self) -> WaitActionView {
        match self {
            WaitAction::Poll => WaitActionView::Poll,
            WaitAction::Sleep { seconds } => WaitActionView::Sleep { seconds: *seconds },
            WaitAction::Accept { answer, cleanup } => WaitActionView::Accept {
                answer: answer@,
                cleanup: *cleanup,
            },
            WaitAction::TimedOut { error, cleanup } => WaitActionView::TimedOut {
                error: error@,
                cleanup: *cleanup,
            },
        }
    }
}

/// A wait: how long it may last and how long it has lasted, in seconds.
#[derive(Debug, Clone, Copy, PartialEq, Eq, Structural)]
pub struct ResponseWait {
    pub timeout_seconds: u32,
    pub elapsed: u32,
}

/// The view of what a poll found: the content of the response file, or `None`
/// where there is no file to read.
pub open spec fn observed(content: Option<String>) -> Option<Seq<char>> {
    match content {
        Some(c) => Some(c@),
        None => None,
    }
}

/// A poll found the answer: the file is there and is not empty.
pub open spec fn answered(content: Option<Seq<char>>) -> bool {
    content matches Some(c) && c.len() > 0
}

/// The failure of a wait that ran out.
pub open spec fn timeout_error(timeout_seconds: u32) -> McpErrorView {
    McpErrorView::Timeout(
        "终端交互超时（"@ + decimal(timeout_seconds as nat) + "秒），未收到用户响应"@,
    )
}

/// What follows a poll: the answer, trimmed, with both files removed; or a
/// pause of one second.
pub open spec fn after_poll(content: Option<Seq<char>>) -> WaitActionView {
    match content {
        Some(c) => if c.len() > 0 {
            WaitActionView::Accept {
                answer: trimmed(c),
                cleanup: Cleanup { script: true, response: true },
            }
        } else {
            WaitActionView::Sleep { seconds: POLL_SECONDS }
        },
        None => WaitActionView::Sleep { seconds: POLL_SECONDS },
    }
}

/// What a wait that has lasted `elapsed` seconds does: another poll, or,
/// once the timeout is reached, the failure, with the script removed. A
/// response file that comes later is not collected.
pub open spec fn at_second(timeout_seconds: u32, elapsed: u32) -> WaitActionView {
    if elapsed < timeout_seconds {
        WaitActionView::Poll
    } else {
        WaitActionView::TimedOut {
            error: timeout_error(timeout_seconds),
            cleanup: Cleanup { script: true, response: false },
        }
    }
}

/// The progress line that is due after `elapsed` seconds, every thirty
/// seconds.
pub open spec fn progress_line(timeout_seconds: u32, elapsed: u32) -> Option<Seq<char>> {
    if elapsed > 0 && elapsed % PROGRESS_EVERY == 0 {
        Some(
            "等待用户在终端中完成交互... ("@ + decimal(elapsed as nat) + "/"@ + decimal(
                timeout_seconds as nat,
            ) + " 秒)"@,
        )
    } else {
        None
    }
}

impl ResponseWait {
    /// A wait of at most `timeout_seconds`, not yet begun.
    pub fn new(timeout_seconds: u32) -> (r: ResponseWait)
        ensures
            r == (ResponseWait { timeout_seconds, elapsed: 0 }),
    {
        ResponseWait { timeout_seconds, elapsed: 0 }
    }

    fn at_this_second(&self) -> (r: WaitAction)
        ensures
            r@ == at_second(self.timeout_seconds, self.elapsed),
    {
        if self.elapsed < self.timeout_seconds {
            WaitAction::Poll
        } else {
            let mut m = "终端交互超时（".to_string();
            push_decimal(&mut m, self.timeout_seconds as u64);
            m.append("秒），未收到用户响应");
            WaitAction::TimedOut {
                error: McpError::timeout(m),
                cleanup: Cleanup { script: true, response: false },
            }
        }
    }

    /// What the wait begins with.
    pub fn begin(&self) -> (r: WaitAction)
        ensures
            r@ == at_second(self.timeout_seconds, self.elapsed),
    {
        self.at_this_second()
    }

    /// Takes what a poll found. The first content that is not empty is the
    /// whole answer.
    pub fn observe(&self, content: Option<String>) -> (r: WaitAction)
        ensures
            r@ == after_poll(observed(content)),
    {
        match content {
            Some(c) => {
                if c.as_str().is_empty() {
                    WaitAction::Sleep { seconds: POLL_SECONDS }
                } else {
                    WaitAction::Accept {
                        answer: trim(c.as_str()),
                        cleanup: Cleanup { script: true, response: true },
                    }
                }
            },
            None => WaitAction::Sleep { seconds: POLL_SECONDS },
        }
    }

    /// Counts the second that was slept and says what follows, with the
    /// progress line where one is due. A wait that has run out stays as it is.
    pub fn slept(&mut self) -> (r: (Option<String>, WaitAction))
        ensures
            final(self).timeout_seconds == old(self).timeout_seconds,
            final(self).elapsed == if old(self).elapsed < old(self).timeout_seconds {
                (old(self).elapsed + 1) as u32
            } else {
                old(self).elapsed
            },
            old(self).elapsed < old(self).timeout_seconds ==> observed(r.0) == progress_line(
                final(self).timeout_seconds,
                final(self).elapsed,
            ),
            old(self).elapsed >= old(self).timeout_seconds ==> r.0 is None,
            r.1@ == at_second(final(self).timeout_seconds, final(self).elapsed),
    {
        if self.elapsed >= self.timeout_seconds {
            return (None, self.at_this_second());
        }
        self.elapsed = self.elapsed + 1;
        let progress = if self.elapsed % PROGRESS_EVERY == 0 {
            let mut line = "等待用户在终端中完成交互... (".to_string();
            push_decimal(&mut line, self.elapsed as u64);
            line.append("/");
            push_decimal(&mut line, self.timeout_seconds as u64);
            line.append(" 秒)");
            Some(line)
        } else {
            None
        };
        (progress, self.at_this_second())
    }
}

/// How many seconds a wait that never finds an answer sleeps from `elapsed`
/// on, before it fails.
pub open spec fn silent_seconds(timeout_seconds: u32, elapsed: u32) -> nat
    decreases timeout_seconds - elapsed,
{
    if elapsed < timeout_seconds {
        1 + silent_seconds(timeout_seconds, (elapsed + 1) as u32)
    } else {
        0
    }
}

/// A wait that never finds an answer polls once in each second of its
/// timeout, sleeps as many seconds as the timeout has, and then fails with
/// the timeout error and removes the script.
pub proof fn lemma_silent_wait(timeout_seconds: u32, elapsed: u32)
    requires
        elapsed <= timeout_seconds,
    ensures
        silent_seconds(timeout_seconds, elapsed) == timeout_seconds - elapsed,
        forall|s: u32| elapsed <= s < timeout_seconds ==> at_second(timeout_seconds, s) is Poll,
        at_second(timeout_seconds, timeout_seconds) == (WaitActionView::TimedOut {
            error: timeout_error(timeout_seconds),
            cleanup: Cleanup { script: true, response: false },
        }),
        after_poll(None) is Sleep,
        after_poll(Some(Seq::empty())) is Sleep,
    decreases timeout_seconds - elapsed,
{
    if elapsed < timeout_seconds {
        lemma_silent_wait(timeout_seconds, (elapsed + 1) as u32);
    }
}

/// An answer that is found is accepted whole and at once, and both files are
/// removed.
pub proof fn lemma_answer_accepted(content: Seq<char>)
    requires
        content.len() > 0,
    ensures
        after_poll(Some(content)) == (WaitActionView::Accept {
            answer: trimmed(content),
            cleanup: Cleanup { script: true, response: true },
        }),
{
}

} // verus!
