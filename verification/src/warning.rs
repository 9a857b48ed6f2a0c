//! Rate limiting of the warning about a link that could not be created.

use vstd::prelude::*;

verus! {

/// The shortest time between two warnings, in nanoseconds: ten minutes.
pub const WARNING_WINDOW_NANOS: u64 = 600_000_000_000;

/// The instant of the last warning, if there was one.
#[derive(Clone, Copy, Debug, PartialEq, Eq, Structural)]
pub struct WarningLimiter {
    pub last_warning: Option<u64>,
}

impl WarningLimiter {
    /// Whether a failure at `now` is reported: no warning was given yet, or
    /// the last one is at least ten minutes old.
    pub open spec fn permits(&self, now: u64) -> bool {
        self.last_warning matches Some(last) ==> now >= last + WARNING_WINDOW_NANOS
    }

    /// The limiter after a failure at `now`: a reported failure becomes the
    /// last warning, a silent one changes nothing.
    pub open spec fn after_failure(&self, now: u64) -> WarningLimiter {
        if self.permits(now) {
            WarningLimiter { last_warning: Some(now) }
        } else {
            *self
        }
    }

    /// A limiter that has given no warning.
    pub fn new() -> (limiter: WarningLimiter)
        ensures
            limiter.last_warning is None,
    {
        WarningLimiter { last_warning: None }
    }

    /// Records a failure at `now` and says whether it is to be reported.
    pub fn note_failure(&mut self, now: u64) -> (report: bool)
        ensures
            report == old(self).permits(now),
            *final(self) == old(self).after_failure(now),
    {
        let report = match self.last_warning {
            None => true,
            Some(last) => now >= last && now - last >= WARNING_WINDOW_NANOS,
        };
        if report {
            self.last_warning = Some(now);
        }
        report
    }
}

/// The limiter after failures at the instants `failures`, in order.
pub open spec fn limiter_after(limiter: WarningLimiter, failures: Seq<u64>) -> WarningLimiter
    decreases failures.len(),
{
    if failures.len() == 0 {
        limiter
    } else {
        limiter_after(limiter, failures.drop_last()).after_failure(failures.last())
    }
}

/// Whether, of failures at the instants `failures` that meet `limiter` in
/// order, the one at index `i` is reported.
pub open spec fn reported(limiter: WarningLimiter, failures: Seq<u64>, i: int) -> bool
    recommends
        0 <= i < failures.len(),
{
    limiter_after(limiter, failures.take(i)).permits(failures[i])
}

/// Whether the instants in `s` never go back.
pub open spec fn nondecreasing(s: Seq<u64>) -> bool {
    forall|i: int, j: int| 0 <= i <= j < s.len() ==> s[i] <= s[j]
}

/// A failure that comes at least ten minutes after the last warning, or
/// before any warning, is reported and becomes the last warning.
pub proof fn law_late_failure_is_reported(limiter: WarningLimiter, now: u64)
    requires
        limiter.last_warning matches Some(last) ==> now >= last + WARNING_WINDOW_NANOS,
    ensures
        limiter.permits(now),
        limiter.after_failure(now).last_warning == Some(now),
{
}

/// A failure that comes less than ten minutes after the last warning is
/// silent and leaves the limiter as it was.
pub proof fn law_early_failure_is_silent(limiter: WarningLimiter, now: u64)
    requires
        limiter.last_warning matches Some(last) && now < last + WARNING_WINDOW_NANOS,
    ensures
        !limiter.permits(now),
        limiter.after_failure(now) == limiter,
{
}

/// Of a run of failures that all come within ten minutes from the first,
/// only the first is reported, provided the limiter lets the first through.
pub proof fn law_burst_is_reported_once(limiter: WarningLimiter, failures: Seq<u64>)
    requires
        failures.len() > 0,
        limiter.permits(failures[0]),
        forall|i: int|
            0 <= i < failures.len() ==> failures[0] <= #[trigger] failures[i] < failures[0]
                + WARNING_WINDOW_NANOS,
    ensures
        reported(limiter, failures, 0),
        forall|i: int| 0 < i < failures.len() ==> !reported(limiter, failures, i),
        limiter_after(limiter, failures).last_warning == Some(failures[0]),
{
    assert(failures.take(0).len() == 0);
    assert forall|i: int| 0 < i < failures.len() implies !reported(limiter, failures, i) by {
        lemma_burst_keeps_first(limiter, failures, i);
    }
    lemma_burst_keeps_first(limiter, failures, failures.len() as int);
    assert(failures.take(failures.len() as int) =~= failures);
}

/// Whatever the failures, as long as the clock never goes back: any two
/// reported failures are at least ten minutes apart.
pub proof fn law_warnings_are_spaced(failures: Seq<u64>, i: int, j: int)
    requires
        nondecreasing(failures),
        0 <= i < j < failures.len(),
        reported(WarningLimiter { last_warning: None }, failures, i),
        reported(WarningLimiter { last_warning: None }, failures, j),
    ensures
        failures[j] - failures[i] >= WARNING_WINDOW_NANOS,
{
    lemma_report_is_remembered(failures, i, j);
}

/// During a burst the last warning stays the burst's first failure.
proof fn lemma_burst_keeps_first(limiter: WarningLimiter, failures: Seq<u64>, n: int)
    requires
        0 < n <= failures.len(),
        limiter.permits(failures[0]),
        forall|i: int|
            0 <= i < failures.len() ==> failures[0] <= #[trigger] failures[i] < failures[0]
                + WARNING_WINDOW_NANOS,
    ensures
        limiter_after(limiter, failures.take(n)).last_warning == Some(failures[0]),
    decreases n,
{
    let prefix = failures.take(n);
    assert(prefix.drop_last() =~= failures.take(n - 1));
    assert(prefix.last() == failures[n - 1]);
    if n == 1 {
        assert(limiter_after(limiter, failures.take(0)) == limiter);
    } else {
        lemma_burst_keeps_first(limiter, failures, n - 1);
    }
}

/// Once the failure at `i` was reported, the last warning is never older
/// than it.
proof fn lemma_report_is_remembered(failures: Seq<u64>, i: int, n: int)
    requires
        nondecreasing(failures),
        0 <= i < n <= failures.len(),
        reported(WarningLimiter { last_warning: None }, failures, i),
    ensures
        limiter_after(WarningLimiter { last_warning: None }, failures.take(n)).last_warning matches Some(
            last,
        ) && failures[i] <= last,
    decreases n,
{
    let prefix = failures.take(n);
    assert(prefix.drop_last() =~= failures.take(n - 1));
    assert(prefix.last() == failures[n - 1]);
    if n > i + 1 {
        lemma_report_is_remembered(failures, i, n - 1);
    }
}

} // verus!
