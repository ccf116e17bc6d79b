//! Admission control: the acceptor's decision on each pass of its loop, and
//! the discipline around the live-connection count (one increment per
//! admitted connection, one decrement per terminated one).
use vstd::prelude::*;

verus! {

/// What the acceptor does on one pass of its loop.
#[derive(PartialEq, Eq, Structural, Clone, Copy, Debug)]
pub enum AcceptorAction {
    /// Below capacity: accept one connection and hand it to a handler.
    Accept,
    /// At capacity: sleep for the configured delay, then check again.
    Backoff,
    /// Shutdown was requested: admit nothing more.
    Stop,
}

pub open spec fn acceptor_action(live: u32, max_clients: u32, shutdown: bool) -> AcceptorAction {
    if shutdown {
        AcceptorAction::Stop
    } else if live < max_clients {
        AcceptorAction::Accept
    } else {
        AcceptorAction::Backoff
    }
}

/// Decides one pass of the acceptor from the live count it read, the
/// admission ceiling and the shutdown flag.
pub fn acceptor_step(live: u32, max_clients: u32, shutdown: bool) -> (r: AcceptorAction)
    ensures
        r == acceptor_action(live, max_clients, shutdown),
{
    if shutdown {
        AcceptorAction::Stop
    } else if live < max_clients {
        AcceptorAction::Accept
    } else {
        AcceptorAction::Backoff
    }
}

/// A change of the live-connection count.
#[derive(PartialEq, Eq, Structural, Clone, Copy, Debug)]
pub enum CountEvent {
    /// A connection was admitted: the acceptor incremented the count.
    Admitted,
    /// A handler terminated: it decremented the count.
    Terminated,
}

pub open spec fn apply_event(live: int, event: CountEvent) -> int {
    match event {
        CountEvent::Admitted => live + 1,
        CountEvent::Terminated => live - 1,
    }
}

/// The count after `events`, starting from `start`.
pub open spec fn count_after(start: int, events: Seq<CountEvent>) -> int
    decreases events.len(),
{
    if events.len() == 0 {
        start
    } else {
        apply_event(count_after(start, events.drop_last()), events.last())
    }
}

/// How many of `events` match `kind`.
pub open spec fn occurrences(events: Seq<CountEvent>, kind: CountEvent) -> int
    decreases events.len(),
{
    if events.len() == 0 {
        0
    } else {
        occurrences(events.drop_last(), kind) + if events.last() == kind {
            1int
        } else {
            0int
        }
    }
}

/// No handler terminates before it was admitted: in every prefix there are
/// at least as many admissions as terminations.
pub open spec fn terminations_follow_admissions(events: Seq<CountEvent>) -> bool {
    forall|n: int|
        0 <= n <= events.len() ==> occurrences(#[trigger] events.take(n), CountEvent::Terminated)
            <= occurrences(events.take(n), CountEvent::Admitted)
}

/// The count after one event, as the atomic operation's previous value
/// `prev` gives it; `None` where the result would leave the range of `u32`.
pub fn count_after_event(prev: u32, event: CountEvent) -> (r: Option<u32>)
    ensures
        r matches Some(v) ==> v == apply_event(prev as int, event),
        r is None <==> !(0 <= apply_event(prev as int, event) <= u32::MAX),
{
    match event {
        CountEvent::Admitted => prev.checked_add(1),
        CountEvent::Terminated => prev.checked_sub(1),
    }
}

/// The live-connection count, kept by the admission discipline.
pub struct LiveCount {
    pub live: u32,
}

impl LiveCount {
    /// No connection is live at startup.
    pub fn new() -> (r: LiveCount)
        ensures
            r.live == 0,
    {
        LiveCount { live: 0 }
    }

    /// Records one event and returns the new count.
    pub fn record(&mut self, event: CountEvent) -> (r: u32)
        requires
            0 <= apply_event(old(self).live as int, event) <= u32::MAX,
        ensures
            final(self).live == apply_event(old(self).live as int, event),
            r == final(self).live,
    {
        match event {
            CountEvent::Admitted => self.live = self.live + 1,
            CountEvent::Terminated => self.live = self.live - 1,
        }
        self.live
    }
}

proof fn lemma_take_last(events: Seq<CountEvent>, n: int)
    requires
        0 < n <= events.len(),
    ensures
        events.take(n).drop_last() == events.take(n - 1),
        events.take(n).last() == events[n - 1],
{
    assert(events.take(n).drop_last() =~= events.take(n - 1));
}

/// After any sequence of admissions and terminations from startup, in which
/// no handler terminates before it was admitted, the live count equals the
/// number of admissions minus the number of terminations, and is never
/// negative.
pub proof fn lemma_count_balance(events: Seq<CountEvent>)
    requires
        terminations_follow_admissions(events),
    ensures
        count_after(0, events) == occurrences(events, CountEvent::Admitted) - occurrences(
            events,
            CountEvent::Terminated,
        ),
        forall|n: int| 0 <= n <= events.len() ==> count_after(0, #[trigger] events.take(n)) >= 0,
    decreases events.len(),
{
    assert(events.take(events.len() as int) =~= events);
    if events.len() > 0 {
        let init = events.drop_last();
        assert forall|n: int| 0 <= n <= init.len() implies occurrences(
            #[trigger] init.take(n),
            CountEvent::Terminated,
        ) <= occurrences(init.take(n), CountEvent::Admitted) by {
            assert(init.take(n) =~= events.take(n));
        }
        lemma_count_balance(init);
        assert forall|n: int| 0 <= n <= events.len() implies count_after(
            0,
            #[trigger] events.take(n),
        ) >= 0 by {
            if n < events.len() {
                assert(init.take(n) =~= events.take(n));
            }
        }
    }
}

/// The admission checks that the acceptor made before each admission in
/// `events`, with the count starting at `start`: `seen[i]` is the count it
/// read before admitting event `i`.
/// Only the acceptor increments the count, so by the time of the increment
/// the count can only have dropped below what the check read.
pub open spec fn admissions_gated(
    start: int,
    events: Seq<CountEvent>,
    seen: Seq<u32>,
    max_clients: u32,
) -> bool {
    &&& seen.len() == events.len()
    &&& forall|i: int|
        0 <= i < events.len() && #[trigger] events[i] == CountEvent::Admitted ==> {
            &&& acceptor_action(seen[i], max_clients, false) == AcceptorAction::Accept
            &&& count_after(start, events.take(i)) <= seen[i]
        }
}

/// With a ceiling of `max_clients`, a live count that starts at or below the
/// ceiling, and an acceptor that admits only after its check said `Accept`,
/// the live count never rises above the ceiling.
pub proof fn lemma_admission_bound(
    start: int,
    events: Seq<CountEvent>,
    seen: Seq<u32>,
    max_clients: u32,
)
    requires
        start <= max_clients,
        admissions_gated(start, events, seen, max_clients),
    ensures
        forall|n: int|
            0 <= n <= events.len() ==> count_after(start, #[trigger] events.take(n))
                <= max_clients,
    decreases events.len(),
{
    assert(events.take(events.len() as int) =~= events);
    if events.len() > 0 {
        let k = events.len() - 1;
        let init = events.drop_last();
        let init_seen = seen.drop_last();
        assert forall|i: int|
            0 <= i < init.len() && #[trigger] init[i] == CountEvent::Admitted implies {
            &&& acceptor_action(init_seen[i], max_clients, false) == AcceptorAction::Accept
            &&& count_after(start, init.take(i)) <= init_seen[i]
        } by {
            assert(events[i] == CountEvent::Admitted);
            assert(init.take(i) =~= events.take(i));
        }
        lemma_admission_bound(start, init, init_seen, max_clients);
        lemma_take_last(events, events.len() as int);
        assert(init.take(k) =~= init);
        if events[k] == CountEvent::Admitted {
            assert(acceptor_action(seen[k], max_clients, false) == AcceptorAction::Accept);
        }
        assert forall|n: int| 0 <= n <= events.len() implies count_after(
            start,
            #[trigger] events.take(n),
        ) <= max_clients by {
            if n < events.len() {
                assert(init.take(n) =~= events.take(n));
            }
        }
    }
}

} // verus!
