use tmux_knight::cycle::{
    Action, Daemon, Event, LinkOutcome, Phase, ReloadOutcome, RemoveOutcome,
};
use tmux_knight::diagnostic::Diagnostic;
use tmux_knight::query::{get_current_theme, QueryError, QueryOutcome};
use tmux_knight::schedule::POLL_INTERVAL_NANOS;
use tmux_knight::theme::Theme;

/// What the active theme link is in the pretend world.
#[derive(Clone, Copy, Debug, PartialEq, Eq)]
enum Link {
    Absent,
    Dangling,
    Points(Theme),
    Elsewhere,
}

/// A pretend world: it performs the daemon's actions in memory.
struct World {
    link: Link,
    stdout: Option<&'static str>,
    removal_refused: bool,
    creation_refused: bool,
    reload: fn() -> ReloadOutcome,
    clock: u64,
    mutations: usize,
    reloads: usize,
    log: Vec<Diagnostic>,
}

fn clean_exit() -> ReloadOutcome {
    ReloadOutcome::Exited { code: 0 }
}

fn exit_one() -> ReloadOutcome {
    ReloadOutcome::Exited { code: 1 }
}

impl World {
    fn new(link: Link, stdout: &'static str) -> World {
        World {
            link,
            stdout: Some(stdout),
            removal_refused: false,
            creation_refused: false,
            reload: clean_exit,
            clock: 0,
            mutations: 0,
            reloads: 0,
            log: Vec::new(),
        }
    }

    fn now(&mut self) -> u64 {
        self.clock += 1_000_000;
        self.clock
    }

    fn perform(&mut self, action: Action) -> Event {
        match action {
            Action::SamplePreference => Event::Sampled(get_current_theme(match self.stdout {
                Some(text) => QueryOutcome::Output { stdout: text.as_bytes().to_vec() },
                None => QueryOutcome::LaunchFailed,
            })),
            Action::Resolve { theme } => Event::Resolved { converged: self.link == Link::Points(theme) },
            Action::RemoveLink => Event::Removed(if self.link == Link::Absent {
                RemoveOutcome::Absent
            } else if self.removal_refused {
                RemoveOutcome::Failed { reason: "Permission denied (os error 13)".to_string() }
            } else {
                self.link = Link::Absent;
                self.mutations += 1;
                RemoveOutcome::Removed
            }),
            Action::CreateLink { theme } => Event::Linked(if self.link != Link::Absent {
                LinkOutcome::Failed { reason: "File exists (os error 17)".to_string() }
            } else if self.creation_refused {
                LinkOutcome::Failed { reason: "Read-only file system (os error 30)".to_string() }
            } else {
                self.link = Link::Points(theme);
                self.mutations += 1;
                LinkOutcome::Created
            }),
            Action::Reload => {
                self.reloads += 1;
                Event::Reloaded((self.reload)())
            }
            Action::Rest { .. } => unreachable!(),
        }
    }

    /// Runs one cycle and returns the actions asked for, the rest included.
    fn cycle(&mut self, daemon: &mut Daemon) -> Vec<Action> {
        let start = self.now();
        let mut action = daemon.begin_cycle(start);
        let mut actions = vec![action];
        while !matches!(action, Action::Rest { .. }) {
            let event = self.perform(action);
            let now = self.now();
            let step = daemon.step(event, now);
            self.log.extend(step.diagnostic);
            action = step.action;
            actions.push(action);
            assert!(actions.len() <= 6);
        }
        if let Action::Rest { sleep } = action {
            self.clock += sleep.unwrap_or(0);
        }
        actions
    }
}

#[test]
fn dark_preference_with_absent_link_creates_it_and_reloads() {
    let mut world = World::new(Link::Absent, "'prefer-dark'\n");
    let mut daemon = Daemon::new();
    let actions = world.cycle(&mut daemon);
    assert_eq!(
        actions,
        vec![
            Action::SamplePreference,
            Action::Resolve { theme: Theme::Dark },
            Action::RemoveLink,
            Action::CreateLink { theme: Theme::Dark },
            Action::Reload,
            Action::Rest { sleep: Some(POLL_INTERVAL_NANOS - 5_000_000) },
        ]
    );
    assert_eq!(world.link, Link::Points(Theme::Dark));
    assert_eq!(world.reloads, 1);
    assert_eq!(world.log, vec![]);
    assert_eq!(daemon.phase, Phase::Idle);
}

#[test]
fn light_preference_with_light_link_changes_nothing() {
    let mut world = World::new(Link::Points(Theme::Light), "'default'\n");
    let mut daemon = Daemon::new();
    let started = world.clock + 1_000_000;
    let actions = world.cycle(&mut daemon);
    assert_eq!(
        actions,
        vec![
            Action::SamplePreference,
            Action::Resolve { theme: Theme::Light },
            Action::Rest { sleep: Some(POLL_INTERVAL_NANOS - 2_000_000) },
        ]
    );
    assert_eq!(world.link, Link::Points(Theme::Light));
    assert_eq!(world.mutations, 0);
    assert_eq!(world.reloads, 0);
    assert_eq!(world.log, vec![]);
    assert_eq!(world.clock - started, POLL_INTERVAL_NANOS);
}

#[test]
fn every_starting_link_converges_in_one_cycle() {
    let starts = [
        Link::Absent,
        Link::Dangling,
        Link::Points(Theme::Light),
        Link::Points(Theme::Dark),
        Link::Elsewhere,
    ];
    for (stdout, theme) in [("'default'\n", Theme::Light), ("'prefer-dark'\n", Theme::Dark)] {
        for start in starts {
            let mut world = World::new(start, stdout);
            let mut daemon = Daemon::new();
            world.cycle(&mut daemon);
            assert_eq!(world.link, Link::Points(theme), "{:?} {:?}", start, theme);
            assert_eq!(world.reloads, if start == Link::Points(theme) { 0 } else { 1 });
            assert_eq!(world.log, vec![]);
        }
    }
}

#[test]
fn a_converged_link_stays_untouched_cycle_after_cycle() {
    let mut world = World::new(Link::Points(Theme::Light), "'prefer-dark'\n");
    let mut daemon = Daemon::new();
    world.cycle(&mut daemon);
    assert_eq!(world.mutations, 2);
    assert_eq!(world.reloads, 1);
    for _ in 0..5 {
        let actions = world.cycle(&mut daemon);
        assert_eq!(actions.len(), 3);
    }
    assert_eq!(world.link, Link::Points(Theme::Dark));
    assert_eq!(world.mutations, 2);
    assert_eq!(world.reloads, 1);
}

#[test]
fn cycles_keep_the_cadence() {
    let mut world = World::new(Link::Points(Theme::Light), "'default'\n");
    let mut daemon = Daemon::new();
    for tick in 0..4u64 {
        assert_eq!(world.clock, tick * (POLL_INTERVAL_NANOS + 1_000_000));
        world.cycle(&mut daemon);
    }
}

#[test]
fn a_preference_that_changes_is_followed() {
    let mut world = World::new(Link::Absent, "'default'\n");
    let mut daemon = Daemon::new();
    world.cycle(&mut daemon);
    assert_eq!(world.link, Link::Points(Theme::Light));
    world.stdout = Some("'prefer-dark'\n");
    world.cycle(&mut daemon);
    assert_eq!(world.link, Link::Points(Theme::Dark));
    world.stdout = Some("'default'\n");
    world.cycle(&mut daemon);
    assert_eq!(world.link, Link::Points(Theme::Light));
    assert_eq!(world.reloads, 3);
}

#[test]
fn a_query_that_fails_works_towards_light() {
    let mut world = World::new(Link::Points(Theme::Dark), "'prefer-dark'\n");
    world.stdout = None;
    let mut daemon = Daemon::new();
    world.cycle(&mut daemon);
    assert_eq!(world.link, Link::Points(Theme::Light));
    assert_eq!(world.log, vec![Diagnostic::QueryFailed { error: QueryError::LaunchFailed }]);

    let mut world = World::new(Link::Points(Theme::Dark), "unknown-value");
    let mut daemon = Daemon::new();
    world.cycle(&mut daemon);
    assert_eq!(world.link, Link::Points(Theme::Light));
    assert_eq!(
        world.log,
        vec![Diagnostic::QueryFailed {
            error: QueryError::UnknownValue { value: "unknown-value".to_string() }
        }]
    );
}

#[test]
fn a_link_that_cannot_be_removed_is_retried_every_tick() {
    let mut world = World::new(Link::Elsewhere, "'prefer-dark'\n");
    world.removal_refused = true;
    let mut daemon = Daemon::new();
    for tick in 1..=3usize {
        let actions = world.cycle(&mut daemon);
        assert_eq!(actions.len(), 4);
        assert_eq!(actions[2], Action::RemoveLink);
        assert!(matches!(actions[3], Action::Rest { sleep: Some(_) }));
        assert_eq!(world.log.len(), tick);
    }
    assert_eq!(world.link, Link::Elsewhere);
    assert_eq!(world.mutations, 0);
    assert_eq!(world.reloads, 0);
    world.removal_refused = false;
    world.cycle(&mut daemon);
    assert_eq!(world.link, Link::Points(Theme::Dark));
}

#[test]
fn repeated_creation_failures_warn_once_in_ten_minutes() {
    let mut world = World::new(Link::Points(Theme::Light), "'prefer-dark'\n");
    world.creation_refused = true;
    let mut daemon = Daemon::new();
    let mut cycles = 0;
    while world.clock < 600_000_000_000 {
        let actions = world.cycle(&mut daemon);
        assert_eq!(actions[4], Action::Reload);
        cycles += 1;
    }
    assert_eq!(world.reloads, cycles);
    assert_eq!(world.log.len(), 1);
    assert_eq!(
        world.log[0],
        Diagnostic::SymlinkFailed {
            theme: Theme::Dark,
            reason: "Read-only file system (os error 30)".to_string()
        }
    );
    world.cycle(&mut daemon);
    assert_eq!(world.log.len(), 2);
    world.cycle(&mut daemon);
    assert_eq!(world.log.len(), 2);
}

#[test]
fn a_reload_that_fails_is_reported_on_every_retarget() {
    let mut world = World::new(Link::Absent, "'default'\n");
    world.reload = exit_one;
    let mut daemon = Daemon::new();
    world.cycle(&mut daemon);
    world.stdout = Some("'prefer-dark'\n");
    world.cycle(&mut daemon);
    assert_eq!(
        world.log,
        vec![Diagnostic::ReloadExitCode { code: 1 }, Diagnostic::ReloadExitCode { code: 1 }]
    );
    assert_eq!(world.link, Link::Points(Theme::Dark));
}

#[test]
fn a_slow_cycle_is_followed_at_once() {
    let mut world = World::new(Link::Absent, "'default'\n");
    let mut daemon = Daemon::new();
    let start = world.now();
    let mut action = daemon.begin_cycle(start);
    let mut rounds = 0;
    while !matches!(action, Action::Rest { .. }) {
        let event = world.perform(action);
        world.clock += 1_000_000_000;
        action = daemon.step(event, world.clock).action;
        rounds += 1;
    }
    assert_eq!(rounds, 5);
    assert_eq!(action, Action::Rest { sleep: None });
}
