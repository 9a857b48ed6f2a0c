//! A model of the world around the daemon, for stating what a whole cycle
//! achieves.
//!
//! The model is ghost code. It holds what the file system knows of the
//! active theme link and how the outside commands answer, and it plays the
//! caller's part: it performs each action the daemon asks for and hands
//! back the event.

use vstd::prelude::*;
use crate::converge::resolve_alike;
use crate::cycle::{Action, Daemon, Event, LinkOutcome, ReloadOutcome, RemoveOutcome};
use crate::diagnostic::Diagnostic;
use crate::query::QueryError;
use crate::theme::Theme;

verus! {

/// What the active theme link is on disk.
pub enum LinkState {
    /// Nothing is at the link's path.
    Absent,
    /// A link is there, and what it points at does not resolve.
    Dangling,
    /// A link is there and resolves to the file of `theme`.
    Points { theme: Theme },
    /// Something is there that resolves to neither theme file.
    Elsewhere,
}

/// The world around the daemon during one cycle.
pub struct Host {
    /// The active theme link.
    pub link: LinkState,
    /// The canonical path of the light theme's file, which exists.
    pub light_path: Seq<u8>,
    /// The canonical path of the dark theme's file, which exists.
    pub dark_path: Seq<u8>,
    /// The canonical path that a link in state `Elsewhere` resolves to.
    pub other_path: Seq<u8>,
    /// What the settings query yields.
    pub reading: Result<Theme, QueryError>,
    /// Why an existing link cannot be removed, if it cannot.
    pub removal_refused: Option<String>,
    /// Why a link cannot be created at a free path, if it cannot.
    pub creation_refused: Option<String>,
    /// Why a link cannot be created at a path that is taken.
    pub path_taken: String,
    /// How the reload command ends.
    pub reload: ReloadOutcome,
}

/// A cycle as the model ran it.
pub struct Run {
    /// The daemon after the cycle.
    pub daemon: Daemon,
    /// The world after the cycle.
    pub host: Host,
    /// The actions that the daemon asked for, in order.
    pub actions: Seq<Action>,
    /// What the daemon logged, in order.
    pub diagnostics: Seq<Diagnostic>,
}

/// Whether `action` changes the file system.
pub open spec fn mutates(action: Action) -> bool {
    action is RemoveLink || action is CreateLink
}

/// The log lines of one step.
pub open spec fn logged(diagnostic: Option<Diagnostic>) -> Seq<Diagnostic> {
    match diagnostic {
        Some(d) => seq![d],
        None => seq![],
    }
}

impl Host {
    /// The three canonical paths are distinct.
    pub open spec fn well_formed(&self) -> bool {
        &&& self.light_path != self.dark_path
        &&& self.other_path != self.light_path
        &&& self.other_path != self.dark_path
    }

    /// The canonical path of the file of `theme`.
    pub open spec fn theme_path(&self, theme: Theme) -> Seq<u8> {
        match theme {
            Theme::Light => self.light_path,
            Theme::Dark => self.dark_path,
        }
    }

    /// What resolving the active theme link gives.
    pub open spec fn resolve_link(&self) -> Option<Seq<u8>> {
        match self.link {
            LinkState::Absent => None,
            LinkState::Dangling => None,
            LinkState::Points { theme } => Some(self.theme_path(theme)),
            LinkState::Elsewhere => Some(self.other_path),
        }
    }

    /// What resolving the file of `theme` gives.
    pub open spec fn resolve_theme(&self, theme: Theme) -> Option<Seq<u8>> {
        Some(self.theme_path(theme))
    }

    /// Whether the active theme link resolves to the file of `theme`.
    pub open spec fn converged_on(&self, theme: Theme) -> bool {
        resolve_alike(self.resolve_link(), self.resolve_theme(theme))
    }

    /// This world with the active theme link in state `link`.
    pub open spec fn with_link(&self, link: LinkState) -> Host {
        Host {
            link,
            light_path: self.light_path,
            dark_path: self.dark_path,
            other_path: self.other_path,
            reading: self.reading,
            removal_refused: self.removal_refused,
            creation_refused: self.creation_refused,
            path_taken: self.path_taken,
            reload: self.reload,
        }
    }

    /// The world after `action` was performed, and the event that reports
    /// it.
    pub open spec fn perform(&self, action: Action) -> (Host, Event)
        recommends
            !(action is Rest),
    {
        match action {
            Action::SamplePreference => (*self, Event::Sampled(self.reading)),
            Action::Resolve { theme } => (
                *self,
                Event::Resolved { converged: self.converged_on(theme) },
            ),
            Action::RemoveLink => match (self.link, self.removal_refused) {
                (LinkState::Absent, _) => (*self, Event::Removed(RemoveOutcome::Absent)),
                (_, Some(reason)) => (*self, Event::Removed(RemoveOutcome::Failed { reason })),
                (_, None) => (
                    self.with_link(LinkState::Absent),
                    Event::Removed(RemoveOutcome::Removed),
                ),
            },
            Action::CreateLink { theme } => match (self.link, self.creation_refused) {
                (LinkState::Absent, None) => (
                    self.with_link(LinkState::Points { theme }),
                    Event::Linked(LinkOutcome::Created),
                ),
                (LinkState::Absent, Some(reason)) => (
                    *self,
                    Event::Linked(LinkOutcome::Failed { reason }),
                ),
                (_, _) => (*self, Event::Linked(LinkOutcome::Failed { reason: self.path_taken })),
            },
            Action::Reload => (*self, Event::Reloaded(self.reload)),
            Action::Rest { .. } => (*self, Event::Resolved { converged: true }),
        }
    }
}

/// Plays the caller's part from `action` on until the daemon rests, for at
/// most `fuel` actions. The step that answers the action numbered `tick`
/// sees the clock at `clock(tick)`.
pub open spec fn drive(
    daemon: Daemon,
    host: Host,
    action: Action,
    clock: spec_fn(int) -> u64,
    tick: int,
    fuel: nat,
) -> Run
    decreases fuel,
{
    if action is Rest || fuel == 0 {
        Run { daemon, host, actions: seq![action], diagnostics: seq![] }
    } else {
        let (host_after, event) = host.perform(action);
        let (daemon_after, step) = daemon.spec_step(event, clock(tick));
        let rest = drive(daemon_after, host_after, step.action, clock, tick + 1, (fuel - 1) as nat);
        Run {
            daemon: rest.daemon,
            host: rest.host,
            actions: seq![action] + rest.actions,
            diagnostics: logged(step.diagnostic) + rest.diagnostics,
        }
    }
}

/// The most actions that a cycle asks for before it rests.
pub open spec fn cycle_length() -> nat {
    5
}

/// One whole cycle: the daemon begins at `clock(0)`, and the caller serves
/// it until it rests.
pub open spec fn run_cycle(daemon: Daemon, host: Host, clock: spec_fn(int) -> u64) -> Run {
    drive(daemon.spec_begin(clock(0)), host, Action::SamplePreference, clock, 1, cycle_length())
}

} // verus!
