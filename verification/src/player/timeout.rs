//! Tick counting for states that end after a while.

use vstd::prelude::*;

verus! {

/// A tick counter that starts with its first update.
#[derive(Debug, Clone, Copy, PartialEq, Eq, Structural)]
pub struct Timeout {
    /// Ticks since the timeout started.
    pub current: u32,
    pub started: bool,
}

/// What one tick did to a timeout.
#[derive(Debug, Clone, Copy, PartialEq, Eq, Structural)]
pub enum Lifecycle {
    Started(Timeout),
    Ended,
    Updated(Timeout),
}

impl Timeout {
    pub open spec fn fresh() -> Timeout {
        Timeout { current: 0, started: false }
    }

    /// A timeout of at most `max` ticks that has counted correctly so far.
    pub open spec fn within(self, max: u32) -> bool {
        self.current <= max && (!self.started ==> self.current == 0)
    }

    /// How many updates the timeout takes to end, the one that ends it counted in.
    pub open spec fn updates_left(self, max: u32) -> int {
        if self.started {
            max + 1 - self.current
        } else {
            max + 2
        }
    }
}

impl Default for Timeout {
    fn default() -> (timeout: Timeout)
        ensures
            timeout == Timeout::fresh(),
    {
        Timeout { current: 0, started: false }
    }
}

/// The next moment in the life of a timeout of `max` ticks: it starts, counts one tick after the
/// other, and has ended once it has counted `max` of them.
pub open spec fn lifecycle(timeout: Timeout, max: u32) -> Lifecycle {
    if !timeout.started {
        Lifecycle::Started(Timeout { started: true, ..timeout })
    } else if timeout.current >= max {
        Lifecycle::Ended
    } else {
        Lifecycle::Updated(Timeout { current: (timeout.current + 1) as u32, ..timeout })
    }
}

/// Advances a timeout of `max` ticks by one tick.
pub fn next_timeout_lifecycle(timeout: Timeout, max: u32) -> (next: Lifecycle)
    ensures
        next == lifecycle(timeout, max),
{
    if !timeout.started {
        Lifecycle::Started(Timeout { started: true, current: timeout.current })
    } else if timeout.current >= max {
        Lifecycle::Ended
    } else {
        Lifecycle::Updated(Timeout { current: timeout.current + 1, started: timeout.started })
    }
}

/// A timeout that goes on stays within its bound and comes one update closer to its end; one that
/// ends was due.
pub proof fn law_timeout_progress(timeout: Timeout, max: u32)
    requires
        timeout.within(max),
    ensures
        match lifecycle(timeout, max) {
            Lifecycle::Started(next) | Lifecycle::Updated(next) => {
                &&& next.within(max)
                &&& next.started
                &&& next.updates_left(max) == timeout.updates_left(max) - 1
            },
            Lifecycle::Ended => timeout.updates_left(max) == 1,
        },
{
}

/// A timeout first starts, then counts one tick at a time, and is over once it has counted all of
/// them.
pub proof fn law_timeout_counts(timeout: Timeout, max: u32, next: Lifecycle)
    requires
        call_ensures(next_timeout_lifecycle, (timeout, max), next),
    ensures
        !timeout.started ==> (next matches Lifecycle::Started(t) && t.started && t.current
            == timeout.current),
        timeout.started && timeout.current < max ==> (next matches Lifecycle::Updated(t)
            && t.started && t.current == timeout.current + 1),
        timeout.started && timeout.current >= max ==> next is Ended,
{
}

/// One tick of a timeout, whoever asks for it.
pub proof fn law_lifecycle(timeout: Timeout, max: u32)
    ensures
        !timeout.started ==> (lifecycle(timeout, max) matches Lifecycle::Started(t) && t.started
            && t.current == timeout.current),
        timeout.started && timeout.current < max ==> (lifecycle(timeout, max) matches
            Lifecycle::Updated(t) && t.started && t.current == timeout.current + 1),
        timeout.started && timeout.current >= max ==> lifecycle(timeout, max) is Ended,
        !Timeout::fresh().started && Timeout::fresh().current == 0,
{
}

/// A new timeout has not started and has counted nothing.
pub proof fn law_new_timeout(timeout: Timeout)
    requires
        call_ensures(Timeout::default, (), timeout),
    ensures
        !timeout.started,
        timeout.current == 0,
{
}

} // verus!
