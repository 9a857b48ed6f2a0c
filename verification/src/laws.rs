//! What holds of a whole cycle, whatever state it starts from.

use vstd::prelude::*;
use crate::cycle::{reload_diagnostic, theme_for_tick, Action, Daemon, Phase, ReloadOutcome};
use crate::diagnostic::{Diagnostic, Level};
use crate::model::{cycle_length, drive, mutates, run_cycle, Host, LinkState};
use crate::schedule::{spec_maybe_sleep, POLL_INTERVAL_NANOS};
use crate::text::decimal;

verus! {

/// Every cycle ends: within five actions the daemon rests, and it is then
/// idle. The rest lasts until one interval after the cycle began, or is
/// skipped when that instant has passed.
pub proof fn law_cycle_ends(daemon: Daemon, host: Host, clock: spec_fn(int) -> u64)
    requires
        clock(0) + POLL_INTERVAL_NANOS <= u64::MAX,
    ensures
        ({
            let run = run_cycle(daemon, host, clock);
            let asked = run.actions.len() - 1;
            &&& 2 <= asked <= cycle_length()
            &&& forall|i: int| 0 <= i < asked ==> !(#[trigger] run.actions[i] is Rest)
            &&& run.actions.last() == Action::Rest {
                sleep: spec_maybe_sleep(clock(asked), (clock(0) + POLL_INTERVAL_NANOS) as u64),
            }
            &&& run.daemon.phase == Phase::Idle
            &&& run.daemon.next_tick == clock(0) + POLL_INTERVAL_NANOS
        }),
{
    reveal_with_fuel(drive, 6);
}

/// Idempotence: if the active theme link already resolves to the file of
/// the theme that the tick works towards, the cycle only samples and
/// resolves. It asks for no change to the file system and for no reload,
/// and it leaves the world as it was.
pub proof fn law_idempotence(daemon: Daemon, host: Host, clock: spec_fn(int) -> u64)
    requires
        host.converged_on(theme_for_tick(host.reading)),
    ensures
        ({
            let run = run_cycle(daemon, host, clock);
            &&& run.host == host
            &&& run.actions.len() == 3
            &&& run.actions[0] == Action::SamplePreference
            &&& run.actions[1] == Action::Resolve { theme: theme_for_tick(host.reading) }
            &&& run.actions[2] is Rest
            &&& forall|i: int|
                0 <= i < run.actions.len() ==> !mutates(#[trigger] run.actions[i])
                    && !(run.actions[i] is Reload)
        }),
{
    reveal_with_fuel(drive, 6);
}

/// Convergence: whatever the active theme link is at the start (absent,
/// dangling, leading to the other theme, to the right one or elsewhere),
/// after one cycle in which removal and creation succeed it resolves to
/// the file of the theme that the tick works towards.
pub proof fn law_convergence(daemon: Daemon, host: Host, clock: spec_fn(int) -> u64)
    requires
        host.well_formed(),
        host.removal_refused is None,
        host.creation_refused is None,
    ensures
        ({
            let run = run_cycle(daemon, host, clock);
            let theme = theme_for_tick(host.reading);
            &&& run.host.converged_on(theme)
            &&& run.host.link == LinkState::Points { theme }
            &&& !host.converged_on(theme) ==> run.actions.contains(Action::Reload)
        }),
{
    reveal_with_fuel(drive, 6);
    let run = run_cycle(daemon, host, clock);
    let theme = theme_for_tick(host.reading);
    if !host.converged_on(theme) {
        assert(run.actions[4] == Action::Reload);
    }
}

/// A link that cannot be removed ends the cycle early: nothing is created,
/// nothing is reloaded, the world stays as it was, and the failure is the
/// last thing logged.
pub proof fn law_removal_failure_skips_retarget(
    daemon: Daemon,
    host: Host,
    clock: spec_fn(int) -> u64,
)
    requires
        !host.converged_on(theme_for_tick(host.reading)),
        host.link != LinkState::Absent,
        host.removal_refused is Some,
    ensures
        ({
            let run = run_cycle(daemon, host, clock);
            &&& run.host == host
            &&& run.actions.len() == 4
            &&& run.actions[2] == Action::RemoveLink
            &&& run.actions[3] is Rest
            &&& run.diagnostics.len() > 0
            &&& run.diagnostics.last() == Diagnostic::UnlinkFailed {
                reason: host.removal_refused->0,
            }
        }),
{
    reveal_with_fuel(drive, 6);
}

/// A link that cannot be created does not stop the reload: the reload
/// command is still run, on a link that is then absent.
pub proof fn law_reload_follows_failed_creation(
    daemon: Daemon,
    host: Host,
    clock: spec_fn(int) -> u64,
)
    requires
        !host.converged_on(theme_for_tick(host.reading)),
        host.removal_refused is None,
        host.creation_refused is Some,
    ensures
        ({
            let run = run_cycle(daemon, host, clock);
            &&& run.actions.len() == 6
            &&& run.actions[3] == Action::CreateLink { theme: theme_for_tick(host.reading) }
            &&& run.actions[4] == Action::Reload
            &&& run.host.link == LinkState::Absent
        }),
{
    reveal_with_fuel(drive, 6);
}

/// How the end of the reload command is reported: exit code 0 is not
/// reported; another exit code is one warning that ends in the code's
/// decimal numeral; an end by signal is one warning that says so; a command
/// that did not start is one error.
pub proof fn law_reload_report(outcome: ReloadOutcome)
    ensures
        match outcome {
            ReloadOutcome::Exited { code } => if code == 0 {
                reload_diagnostic(outcome) is None
            } else {
                &&& reload_diagnostic(outcome) matches Some(report)
                &&& report.spec_level() == Level::Warn
                &&& report.spec_message() == "failed with exit code: "@ + decimal(code as int)
            },
            ReloadOutcome::Signaled => {
                &&& reload_diagnostic(outcome) matches Some(report)
                &&& report.spec_level() == Level::Warn
                &&& report.spec_message() == "process terminated due to signal"@
            },
            ReloadOutcome::LaunchFailed { reason } => {
                &&& reload_diagnostic(outcome) matches Some(report)
                &&& report.spec_level() == Level::Error
                &&& report.spec_message() == "failed to execute tmux: "@ + reason@
            },
        },
{
}

} // verus!
