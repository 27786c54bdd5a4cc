//! Runs of the accept loop: what holds of every sequence of events.

use super::server::{Action, Event, Phase, ServeView};
use vstd::prelude::*;

verus! {

/// One thing that happens while a server runs: an event of the accept loop,
/// or a worker finishing the handler of a connection.
pub enum Happening {
    Loop(Event),
    Handler(u64, Result<(), String>),
}

impl ServeView {
    /// Whether `event` answers what the loop is waiting for.
    pub open spec fn expects(self, event: Event) -> bool {
        match (self.phase, event) {
            (Phase::Binding, Event::Bound) => true,
            (Phase::Binding, Event::BindFailed(_)) => true,
            (Phase::StartingPool, Event::PoolReady) => true,
            (Phase::StartingPool, Event::PoolFailed(_)) => true,
            (Phase::Accepting, Event::Accepted(_)) => true,
            (Phase::Accepting, Event::AcceptFailed(_)) => true,
            (Phase::Accepting, Event::ListenerClosed) => true,
            (Phase::Dispatching(_), Event::Spawned) => true,
            (Phase::Dispatching(_), Event::SpawnFailed(_)) => true,
            _ => false,
        }
    }

    /// Whether each of `events`, in turn, answers what the loop is waiting for.
    pub open spec fn in_step(self, events: Seq<Event>) -> bool
        decreases events.len(),
    {
        events.len() == 0 || (self.expects(events[0]) && self.next(events[0]).0.in_step(
            events.drop_first(),
        ))
    }

    /// The state after all of `events`.
    pub open spec fn run(self, events: Seq<Event>) -> ServeView
        decreases events.len(),
    {
        if events.len() == 0 {
            self
        } else {
            self.next(events[0]).0.run(events.drop_first())
        }
    }

    /// The connections handed to the pool along `events`, in order.
    pub open spec fn dispatched(self, events: Seq<Event>) -> Seq<u64>
        decreases events.len(),
    {
        if events.len() == 0 {
            Seq::empty()
        } else {
            let (after, action) = self.next(events[0]);
            let rest = after.dispatched(events.drop_first());
            match action {
                Action::Dispatch(conn) => seq![conn] + rest,
                _ => rest,
            }
        }
    }

    /// The sizes of the pools asked for along `events`, in order.
    pub open spec fn pools(self, events: Seq<Event>) -> Seq<usize>
        decreases events.len(),
    {
        if events.len() == 0 {
            Seq::empty()
        } else {
            let (after, action) = self.next(events[0]);
            let rest = after.pools(events.drop_first());
            match action {
                Action::CreatePool(size) => seq![size] + rest,
                _ => rest,
            }
        }
    }

    /// The state after all of `happenings`: a finished handler leaves it alone.
    pub open spec fn live(self, happenings: Seq<Happening>) -> ServeView
        decreases happenings.len(),
    {
        if happenings.len() == 0 {
            self
        } else {
            match happenings[0] {
                Happening::Loop(event) => self.next(event).0.live(happenings.drop_first()),
                Happening::Handler(_, _) => self.live(happenings.drop_first()),
            }
        }
    }
}

/// The connections that `events` report as accepted, in order.
pub open spec fn accepted(events: Seq<Event>) -> Seq<u64>
    decreases events.len(),
{
    if events.len() == 0 {
        Seq::empty()
    } else {
        let rest = accepted(events.drop_first());
        match events[0] {
            Event::Accepted(conn) => seq![conn] + rest,
            _ => rest,
        }
    }
}

/// The events of the accept loop among `happenings`, in order.
pub open spec fn loop_events(happenings: Seq<Happening>) -> Seq<Event>
    decreases happenings.len(),
{
    if happenings.len() == 0 {
        Seq::empty()
    } else {
        let rest = loop_events(happenings.drop_first());
        match happenings[0] {
            Happening::Loop(event) => seq![event] + rest,
            Happening::Handler(_, _) => rest,
        }
    }
}

/// Every accepted connection is handed to the pool exactly once, in the
/// order of arrival, and nothing else is: as long as each event answers what
/// the loop asked for, the connections dispatched are the connections
/// accepted.
pub proof fn accepted_connections_are_dispatched_once(start: ServeView, events: Seq<Event>)
    requires
        start.in_step(events),
    ensures
        start.dispatched(events) == accepted(events),
    decreases events.len(),
{
    if events.len() > 0 {
        accepted_connections_are_dispatched_once(start.next(events[0]).0, events.drop_first());
    }
}

/// The pool's size is fixed: no run of the loop changes the configured
/// number of workers, a pool is asked for at most once from the start, and
/// then with exactly that number.
pub proof fn pool_size_is_fixed(start: ServeView, events: Seq<Event>)
    ensures
        start.run(events).pool_size == start.pool_size,
        start.pools(events).len() <= 1,
        start.phase != Phase::Binding ==> start.pools(events).len() == 0,
        forall|i: int|
            0 <= i < start.pools(events).len() ==> #[trigger] start.pools(events)[i]
                == start.pool_size as usize,
    decreases events.len(),
{
    if events.len() > 0 {
        pool_size_is_fixed(start.next(events[0]).0, events.drop_first());
    }
}

/// The loop ends exactly when it says so: an event brings it to its end if
/// and only if the action for that event is to leave with an outcome, and
/// an event that does not belong to the phase changes nothing.
pub proof fn loop_ends_when_it_says_so(state: ServeView, event: Event)
    ensures
        state.next(event).1 is Finish <==> state.phase != Phase::Terminated && state.next(
            event,
        ).0.phase == Phase::Terminated,
        !state.expects(event) <==> state.next(event).1 == Action::Ignore,
        !state.expects(event) ==> state.next(event).0 == state,
{
}

/// Once the loop has ended it stays ended and asks for nothing more.
pub proof fn terminated_is_final(start: ServeView, events: Seq<Event>)
    requires
        start.phase == Phase::Terminated,
    ensures
        start.run(events) == start,
        start.dispatched(events).len() == 0,
    decreases events.len(),
{
    if events.len() > 0 {
        terminated_is_final(start.next(events[0]).0, events.drop_first());
    }
}

/// A handler's outcome never reaches the accept loop: whatever handlers
/// finish with, and whenever, the loop ends up where its own events alone
/// take it, so a failed connection does not keep later ones from being
/// accepted and dispatched.
pub proof fn handler_outcomes_do_not_reach_the_loop(start: ServeView, happenings: Seq<Happening>)
    ensures
        start.live(happenings) == start.run(loop_events(happenings)),
    decreases happenings.len(),
{
    if happenings.len() > 0 {
        let rest = happenings.drop_first();
        match happenings[0] {
            Happening::Loop(event) => {
                handler_outcomes_do_not_reach_the_loop(start.next(event).0, rest);
                assert((seq![event] + loop_events(rest)).drop_first() =~= loop_events(rest));
            },
            Happening::Handler(_, _) => {
                handler_outcomes_do_not_reach_the_loop(start, rest);
            },
        }
    }
}

/// While the loop waits for a connection, a failed handler changes nothing
/// and the next connection is dispatched.
pub proof fn accepting_survives_handler_failure(
    start: ServeView,
    failed: u64,
    why: String,
    conn: u64,
)
    requires
        start.phase == Phase::Accepting,
    ensures
        start.live(seq![Happening::Handler(failed, Err(why))]) == start,
        start.live(seq![Happening::Handler(failed, Err(why)), Happening::Loop(Event::Accepted(conn))]).phase
            == Phase::Dispatching(conn),
        start.next(Event::Accepted(conn)).1 == Action::Dispatch(conn),
{
    let one = seq![Happening::Handler(failed, Err(why))];
    let two = seq![Happening::Handler(failed, Err(why)), Happening::Loop(Event::Accepted(conn))];
    assert(one.drop_first() =~= Seq::<Happening>::empty());
    assert(start.live(one.drop_first()) == start);
    let tail = two.drop_first();
    assert(tail =~= seq![Happening::Loop(Event::Accepted(conn))]);
    assert(tail.drop_first() =~= Seq::<Happening>::empty());
    let after = start.next(Event::Accepted(conn)).0;
    assert(after.live(tail.drop_first()) == after);
    assert(start.live(tail) == after);
}

} // verus!
