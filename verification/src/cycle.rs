//! The poll cycle as a state machine.
//!
//! The daemon alternates work on the outside world (running the settings
//! query, resolving paths, removing and creating the link, running the
//! reload command, sleeping) with decisions. The decisions live here:
//! [`Daemon::begin_cycle`] and [`Daemon::step`] say which [`Action`] comes
//! next and what is to be logged. The caller performs each action and hands
//! back what came of it as an [`Event`].

use vstd::prelude::*;
use crate::diagnostic::Diagnostic;
use crate::query::QueryError;
use crate::schedule::{maybe_sleep, next_tick, spec_maybe_sleep, POLL_INTERVAL_NANOS};
use crate::theme::Theme;
use crate::warning::WarningLimiter;

verus! {

/// The program that is told to reload its configuration.
pub const RELOAD_PROGRAM: &'static str = "tmux";

/// The command that makes it read a configuration file; the file's path
/// follows as the next argument.
pub const RELOAD_COMMAND: &'static str = "source-file";

/// What came of removing the active theme link.
#[derive(Debug, PartialEq, Eq)]
pub enum RemoveOutcome {
    /// The link was there and is gone.
    Removed,
    /// There was nothing to remove.
    Absent,
    /// The path exists and could not be removed.
    Failed { reason: String },
}

/// What came of creating the active theme link.
#[derive(Debug, PartialEq, Eq)]
pub enum LinkOutcome {
    Created,
    Failed { reason: String },
}

/// What came of running the reload command.
#[derive(Debug, PartialEq, Eq)]
pub enum ReloadOutcome {
    /// The command ran and returned `code`.
    Exited { code: i32 },
    /// The command was ended by a signal, so there is no exit code.
    Signaled,
    /// The command could not be started.
    LaunchFailed { reason: String },
}

/// What the daemon asks its caller to do next.
#[derive(Clone, Copy, Debug, PartialEq, Eq, Structural)]
pub enum Action {
    /// Run the settings query and interpret its outcome.
    SamplePreference,
    /// Resolve the active theme link and the file of `theme` to their
    /// canonical forms and compare them.
    Resolve { theme: Theme },
    /// Remove the active theme link if it exists.
    RemoveLink,
    /// Create the active theme link, pointing at the file of `theme`.
    CreateLink { theme: Theme },
    /// Run the reload command on the active theme link.
    Reload,
    /// The cycle is over: sleep for `sleep` nanoseconds, or not at all, and
    /// begin the next cycle.
    Rest { sleep: Option<u64> },
}

/// What came of the action that the daemon asked for.
#[derive(Debug, PartialEq, Eq)]
pub enum Event {
    /// Answers [`Action::SamplePreference`].
    Sampled(Result<Theme, QueryError>),
    /// Answers [`Action::Resolve`].
    Resolved { converged: bool },
    /// Answers [`Action::RemoveLink`].
    Removed(RemoveOutcome),
    /// Answers [`Action::CreateLink`].
    Linked(LinkOutcome),
    /// Answers [`Action::Reload`].
    Reloaded(ReloadOutcome),
}

/// Where in its cycle the daemon is: which answer it is waiting for.
#[derive(Clone, Copy, Debug, PartialEq, Eq, Structural)]
pub enum Phase {
    /// Between cycles.
    Idle,
    Sampling,
    Resolving { theme: Theme },
    Removing { theme: Theme },
    Linking { theme: Theme },
    Reloading,
}

/// The daemon's whole state.
#[derive(Clone, Copy, Debug, PartialEq, Eq, Structural)]
pub struct Daemon {
    pub phase: Phase,
    /// When the current cycle is due to give way to the next one.
    pub next_tick: u64,
    /// Limits the warnings about a link that could not be created.
    pub limiter: WarningLimiter,
}

/// One decision: what to do next, and what to log first.
#[derive(Debug, PartialEq, Eq)]
pub struct Step {
    pub action: Action,
    pub diagnostic: Option<Diagnostic>,
}

/// The theme that a tick works towards: the one that was read, or the
/// light one when the reading failed.
pub open spec fn theme_for_tick(reading: Result<Theme, QueryError>) -> Theme {
    match reading {
        Ok(theme) => theme,
        Err(_) => Theme::Light,
    }
}

/// What is logged about a reading: nothing when it succeeded, the error
/// when it failed.
pub open spec fn query_diagnostic(reading: Result<Theme, QueryError>) -> Option<Diagnostic> {
    match reading {
        Ok(_) => None,
        Err(error) => Some(Diagnostic::QueryFailed { error }),
    }
}

/// What is logged about a reload: nothing for exit code 0, a warning for
/// another exit code or a signal, an error when the command did not start.
pub open spec fn reload_diagnostic(outcome: ReloadOutcome) -> Option<Diagnostic> {
    match outcome {
        ReloadOutcome::Exited { code } => if code == 0 {
            None
        } else {
            Some(Diagnostic::ReloadExitCode { code })
        },
        ReloadOutcome::Signaled => Some(Diagnostic::ReloadSignaled),
        ReloadOutcome::LaunchFailed { reason } => Some(Diagnostic::ReloadLaunchFailed { reason }),
    }
}

/// Interprets the outcome of the reload command.
pub fn interpret_reload(outcome: ReloadOutcome) -> (diagnostic: Option<Diagnostic>)
    ensures
        diagnostic == reload_diagnostic(outcome),
{
    match outcome {
        ReloadOutcome::Exited { code } => if code == 0 {
            None
        } else {
            Some(Diagnostic::ReloadExitCode { code })
        },
        ReloadOutcome::Signaled => Some(Diagnostic::ReloadSignaled),
        ReloadOutcome::LaunchFailed { reason } => Some(Diagnostic::ReloadLaunchFailed { reason }),
    }
}

impl Daemon {
    /// The action whose answer the daemon is waiting for at `now`.
    pub open spec fn pending(&self, now: u64) -> Action {
        match self.phase {
            Phase::Idle => Action::Rest { sleep: spec_maybe_sleep(now, self.next_tick) },
            Phase::Sampling => Action::SamplePreference,
            Phase::Resolving { theme } => Action::Resolve { theme },
            Phase::Removing { .. } => Action::RemoveLink,
            Phase::Linking { theme } => Action::CreateLink { theme },
            Phase::Reloading => Action::Reload,
        }
    }

    /// The daemon as it begins a cycle at `now`.
    pub open spec fn spec_begin(&self, now: u64) -> Daemon {
        Daemon {
            phase: Phase::Sampling,
            next_tick: (now + POLL_INTERVAL_NANOS) as u64,
            limiter: self.limiter,
        }
    }

    /// The end of a cycle at `now`: the daemon goes idle and rests until the
    /// next tick.
    pub open spec fn finish(&self, now: u64, diagnostic: Option<Diagnostic>) -> (Daemon, Step) {
        (
            Daemon { phase: Phase::Idle, next_tick: self.next_tick, limiter: self.limiter },
            Step { action: Action::Rest { sleep: spec_maybe_sleep(now, self.next_tick) }, diagnostic },
        )
    }

    /// The move to `phase`, asking for `action`.
    pub open spec fn proceed(
        &self,
        phase: Phase,
        action: Action,
        diagnostic: Option<Diagnostic>,
    ) -> (Daemon, Step) {
        (Daemon { phase, next_tick: self.next_tick, limiter: self.limiter }, Step { action, diagnostic })
    }

    /// The daemon's reaction to `event`, observed at `now`.
    ///
    /// An event that does not answer the pending action changes nothing:
    /// the pending action is asked for again.
    pub open spec fn spec_step(&self, event: Event, now: u64) -> (Daemon, Step) {
        match (self.phase, event) {
            (Phase::Sampling, Event::Sampled(reading)) => {
                let theme = theme_for_tick(reading);
                self.proceed(
                    Phase::Resolving { theme },
                    Action::Resolve { theme },
                    query_diagnostic(reading),
                )
            },
            (Phase::Resolving { theme }, Event::Resolved { converged }) => if converged {
                self.finish(now, None)
            } else {
                self.proceed(Phase::Removing { theme }, Action::RemoveLink, None)
            },
            (Phase::Removing { theme }, Event::Removed(outcome)) => match outcome {
                RemoveOutcome::Failed { reason } => self.finish(
                    now,
                    Some(Diagnostic::UnlinkFailed { reason }),
                ),
                _ => self.proceed(Phase::Linking { theme }, Action::CreateLink { theme }, None),
            },
            (Phase::Linking { theme }, Event::Linked(outcome)) => match outcome {
                LinkOutcome::Created => self.proceed(Phase::Reloading, Action::Reload, None),
                LinkOutcome::Failed { reason } => (
                    Daemon {
                        phase: Phase::Reloading,
                        next_tick: self.next_tick,
                        limiter: self.limiter.after_failure(now),
                    },
                    Step {
                        action: Action::Reload,
                        diagnostic: if self.limiter.permits(now) {
                            Some(Diagnostic::SymlinkFailed { theme, reason })
                        } else {
                            None
                        },
                    },
                ),
            },
            (Phase::Reloading, Event::Reloaded(outcome)) => self.finish(
                now,
                reload_diagnostic(outcome),
            ),
            _ => (*self, Step { action: self.pending(now), diagnostic: None }),
        }
    }

    /// A daemon between cycles that has given no warning.
    pub fn new() -> (daemon: Daemon)
        ensures
            daemon.phase == Phase::Idle,
            daemon.next_tick == 0,
            daemon.limiter.last_warning is None,
    {
        Daemon { phase: Phase::Idle, next_tick: 0, limiter: WarningLimiter::new() }
    }

    /// Begins a cycle at `now`: fixes the next tick one interval from now
    /// and asks for the preference. A cycle that was under way is given up.
    pub fn begin_cycle(&mut self, now: u64) -> (action: Action)
        requires
            now + POLL_INTERVAL_NANOS <= u64::MAX,
        ensures
            *final(self) == old(self).spec_begin(now),
            action == Action::SamplePreference,
    {
        self.phase = Phase::Sampling;
        self.next_tick = next_tick(now);
        Action::SamplePreference
    }

    /// Ends the cycle at `now`.
    fn rest(&mut self, now: u64, diagnostic: Option<Diagnostic>) -> (step: Step)
        ensures
            (*final(self), step) == old(self).finish(now, diagnostic),
    {
        self.phase = Phase::Idle;
        Step { action: Action::Rest { sleep: maybe_sleep(now, self.next_tick) }, diagnostic }
    }

    /// The action whose answer the daemon is waiting for at `now`.
    pub fn pending_action(&self, now: u64) -> (action: Action)
        ensures
            action == self.pending(now),
    {
        match self.phase {
            Phase::Idle => Action::Rest { sleep: maybe_sleep(now, self.next_tick) },
            Phase::Sampling => Action::SamplePreference,
            Phase::Resolving { theme } => Action::Resolve { theme },
            Phase::Removing { .. } => Action::RemoveLink,
            Phase::Linking { theme } => Action::CreateLink { theme },
            Phase::Reloading => Action::Reload,
        }
    }

    /// Reacts to `event`, observed at `now`: moves the daemon on and says
    /// what to log and what to do next.
    pub fn step(&mut self, event: Event, now: u64) -> (step: Step)
        ensures
            (*final(self), step) == old(self).spec_step(event, now),
    {
        match (self.phase, event) {
            (Phase::Sampling, Event::Sampled(reading)) => {
                let (theme, diagnostic) = match reading {
                    Ok(theme) => (theme, None),
                    Err(error) => (Theme::Light, Some(Diagnostic::QueryFailed { error })),
                };
                self.phase = Phase::Resolving { theme };
                Step { action: Action::Resolve { theme }, diagnostic }
            },
            (Phase::Resolving { theme }, Event::Resolved { converged }) => {
                if converged {
                    self.rest(now, None)
                } else {
                    self.phase = Phase::Removing { theme };
                    Step { action: Action::RemoveLink, diagnostic: None }
                }
            },
            (Phase::Removing { theme }, Event::Removed(outcome)) => match outcome {
                RemoveOutcome::Failed { reason } => self.rest(
                    now,
                    Some(Diagnostic::UnlinkFailed { reason }),
                ),
                _ => {
                    self.phase = Phase::Linking { theme };
                    Step { action: Action::CreateLink { theme }, diagnostic: None }
                },
            },
            (Phase::Linking { theme }, Event::Linked(outcome)) => {
                self.phase = Phase::Reloading;
                let diagnostic = match outcome {
                    LinkOutcome::Created => None,
                    LinkOutcome::Failed { reason } => if self.limiter.note_failure(now) {
                        Some(Diagnostic::SymlinkFailed { theme, reason })
                    } else {
                        None
                    },
                };
                Step { action: Action::Reload, diagnostic }
            },
            (Phase::Reloading, Event::Reloaded(outcome)) => {
                let diagnostic = interpret_reload(outcome);
                self.rest(now, diagnostic)
            },
            _ => Step { action: self.pending_action(now), diagnostic: None },
        }
    }
}

} // verus!
