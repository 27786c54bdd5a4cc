//! Server configuration and the accept loop, as a machine that is fed what
//! happened on the socket and the worker pool and answers what to do next.
//!
//! The loop only ever waits for the listener and for the pool to take a
//! task, never for a handler. There is no timeout and no cancellation: a
//! handler that does not return keeps its worker, and enough of them exhaust
//! the pool.

use std::sync::Arc;
use vstd::prelude::*;
use vstd::string::StringExecFns;

verus! {

/// Why `serve` gave up.
#[derive(Debug, PartialEq, Eq)]
pub enum ServeError {
    /// The bind target resolved to no socket address.
    InvalidAddress,
    /// No connection handler was configured.
    HandlerNotSet,
    /// The listening socket could not be bound.
    Bind(String),
    /// The worker pool could not be created.
    Pool(String),
    /// The listener failed while waiting for a connection.
    Accept(String),
    /// The worker pool refused a task.
    Spawn(String),
}

/// Where the accept loop stands.
#[derive(Debug, Clone, Copy, PartialEq, Eq, Structural)]
pub enum Phase {
    /// Waiting for the listening socket to be bound.
    Binding,
    /// Waiting for the worker pool to come up.
    StartingPool,
    /// Waiting for the next connection.
    Accepting,
    /// Waiting for the pool to take the task of the given connection.
    Dispatching(u64),
    /// The loop has ended; nothing more will be asked for.
    Terminated,
}

/// What happened outside since the last action was handed out.
#[derive(Debug, PartialEq, Eq)]
pub enum Event {
    Bound,
    BindFailed(String),
    PoolReady,
    PoolFailed(String),
    /// A connection was accepted; the number is the caller's token for it.
    Accepted(u64),
    AcceptFailed(String),
    /// The listener will yield no further connection.
    ListenerClosed,
    /// The pool took the task.
    Spawned,
    SpawnFailed(String),
}

/// What the embedding program has to do next.
#[derive(Debug, PartialEq, Eq)]
pub enum Action {
    /// Create a worker pool with this many workers.
    CreatePool(usize),
    /// Wait for the next connection.
    Accept,
    /// Hand the pool one task: the handler applied to this connection.
    Dispatch(u64),
    /// Leave `serve` with this outcome.
    Finish(Result<(), ServeError>),
    /// The event does not belong to the current phase; it was dropped.
    Ignore,
}

/// The accept loop's state.
pub struct Serve {
    phase: Phase,
    pool_size: usize,
}

/// The accept loop's state as contracts see it.
pub struct ServeView {
    pub phase: Phase,
    pub pool_size: nat,
}

impl ServeView {
    /// The state after `event`, and the action that goes with it.
    pub open spec fn next(self, event: Event) -> (ServeView, Action) {
        match (self.phase, event) {
            (Phase::Binding, Event::Bound) => (
                ServeView { phase: Phase::StartingPool, ..self },
                Action::CreatePool(self.pool_size as usize),
            ),
            (Phase::Binding, Event::BindFailed(why)) => (
                ServeView { phase: Phase::Terminated, ..self },
                Action::Finish(Err(ServeError::Bind(why))),
            ),
            (Phase::StartingPool, Event::PoolReady) => (
                ServeView { phase: Phase::Accepting, ..self },
                Action::Accept,
            ),
            (Phase::StartingPool, Event::PoolFailed(why)) => (
                ServeView { phase: Phase::Terminated, ..self },
                Action::Finish(Err(ServeError::Pool(why))),
            ),
            (Phase::Accepting, Event::Accepted(conn)) => (
                ServeView { phase: Phase::Dispatching(conn), ..self },
                Action::Dispatch(conn),
            ),
            (Phase::Accepting, Event::AcceptFailed(why)) => (
                ServeView { phase: Phase::Terminated, ..self },
                Action::Finish(Err(ServeError::Accept(why))),
            ),
            (Phase::Accepting, Event::ListenerClosed) => (
                ServeView { phase: Phase::Terminated, ..self },
                Action::Finish(Ok(())),
            ),
            (Phase::Dispatching(_), Event::Spawned) => (
                ServeView { phase: Phase::Accepting, ..self },
                Action::Accept,
            ),
            (Phase::Dispatching(_), Event::SpawnFailed(why)) => (
                ServeView { phase: Phase::Terminated, ..self },
                Action::Finish(Err(ServeError::Spawn(why))),
            ),
            _ => (self, Action::Ignore),
        }
    }
}

impl View for Serve {
    type V = ServeView;

    closed spec fn view(&self) -> ServeView {
        ServeView { phase: self.phase, pool_size: self.pool_size as nat }
    }
}

impl Serve {
    /// A pool has at least one worker.
    #[verifier::type_invariant]
    spec fn well_formed(&self) -> bool {
        self.pool_size >= 1
    }

    /// The current phase.
    pub fn phase(&self) -> (p: Phase)
        ensures
            p == self@.phase,
    {
        self.phase
    }

    /// The number of workers the pool is created with.
    pub fn pool_size(&self) -> (n: usize)
        ensures
            n == self@.pool_size,
            n >= 1,
    {
        proof {
            use_type_invariant(self);
        }
        self.pool_size
    }

    /// Whether the loop has ended.
    pub fn is_terminated(&self) -> (b: bool)
        ensures
            b == (self@.phase == Phase::Terminated),
    {
        match self.phase {
            Phase::Terminated => true,
            _ => false,
        }
    }

    /// Takes one event and answers with the next action.
    pub fn step(&mut self, event: Event) -> (action: Action)
        ensures
            (final(self)@, action) == old(self)@.next(event),
            action matches Action::CreatePool(size) ==> size >= 1,
    {
        proof {
            use_type_invariant(&*self);
        }
        match (self.phase, event) {
            (Phase::Binding, Event::Bound) => {
                self.phase = Phase::StartingPool;
                Action::CreatePool(self.pool_size)
            },
            (Phase::Binding, Event::BindFailed(why)) => {
                self.phase = Phase::Terminated;
                Action::Finish(Err(ServeError::Bind(why)))
            },
            (Phase::StartingPool, Event::PoolReady) => {
                self.phase = Phase::Accepting;
                Action::Accept
            },
            (Phase::StartingPool, Event::PoolFailed(why)) => {
                self.phase = Phase::Terminated;
                Action::Finish(Err(ServeError::Pool(why)))
            },
            (Phase::Accepting, Event::Accepted(conn)) => {
                self.phase = Phase::Dispatching(conn);
                Action::Dispatch(conn)
            },
            (Phase::Accepting, Event::AcceptFailed(why)) => {
                self.phase = Phase::Terminated;
                Action::Finish(Err(ServeError::Accept(why)))
            },
            (Phase::Accepting, Event::ListenerClosed) => {
                self.phase = Phase::Terminated;
                Action::Finish(Ok(()))
            },
            (Phase::Dispatching(_), Event::Spawned) => {
                self.phase = Phase::Accepting;
                Action::Accept
            },
            (Phase::Dispatching(_), Event::SpawnFailed(why)) => {
                self.phase = Phase::Terminated;
                Action::Finish(Err(ServeError::Spawn(why)))
            },
            _ => Action::Ignore,
        }
    }
}

/// What a worker leaves behind for a connection whose handler failed.
#[derive(Debug, PartialEq, Eq)]
pub struct Report {
    /// The caller's token of the connection.
    pub conn: u64,
    /// The line for the log.
    pub message: String,
}

/// What a worker does once the handler of connection `conn` has finished:
/// nothing after a success; after a failure, one report that names the
/// connection and gives the handler's reason. The outcome goes nowhere else.
pub fn task_outcome(conn: u64, outcome: Result<(), String>) -> (report: Option<Report>)
    ensures
        match outcome {
            Ok(()) => report.is_none(),
            Err(why) => report matches Some(r) && r.conn == conn && r.message@
                == "connect handler error: "@ + why@,
        },
{
    match outcome {
        Ok(()) => None,
        Err(why) => {
            let message = String::from_str("connect handler error: ").concat(why.as_str());
            Some(Report { conn, message })
        },
    }
}

/// The number of logical CPUs that `num_cpus::get` reports for this process.
/// Its documentation promises at least one; nothing else is claimed, since
/// the count depends on the machine.
#[verifier::external_body]
fn available_cpus() -> (n: usize)
    ensures
        n >= 1,
{
    num_cpus::get()
}

/// A server before it serves: the size of its worker pool and, once
/// configured, the handler that every connection is given to.
pub struct NetServer<H> {
    pool_size: usize,
    connect_handler: Option<Arc<H>>,
}

/// A configured server bound for one address: the accept loop in its first
/// phase, the handler that the workers share, and the address to bind.
pub struct Listening<H> {
    pub loop_state: Serve,
    pub handler: Arc<H>,
    pub address: String,
}

impl<H> NetServer<H> {
    /// The configured number of workers.
    pub closed spec fn spec_pool_size(&self) -> nat {
        self.pool_size as nat
    }

    /// The configured handler, if any.
    pub closed spec fn spec_handler(&self) -> Option<Arc<H>> {
        self.connect_handler
    }

    /// A server has at least one worker.
    #[verifier::type_invariant]
    spec fn well_formed(&self) -> bool {
        self.pool_size >= 1
    }

    /// A server with one worker per logical CPU and no handler.
    pub fn new() -> (server: Self)
        ensures
            server.spec_pool_size() >= 1,
            server.spec_handler().is_none(),
    {
        NetServer { pool_size: available_cpus(), connect_handler: None }
    }

    /// The same server with `size` workers.
    pub fn pool_size(self, size: usize) -> (server: Self)
        requires
            size >= 1,
        ensures
            server.spec_pool_size() == size,
            server.spec_handler() == self.spec_handler(),
    {
        NetServer { pool_size: size, connect_handler: self.connect_handler }
    }

    /// The same server with `h` as its handler, replacing an earlier one.
    pub fn connect_handler(self, h: H) -> (server: Self)
        ensures
            server.spec_pool_size() == self.spec_pool_size(),
            server.spec_handler() matches Some(shared) && *shared == h,
    {
        proof {
            use_type_invariant(&self);
        }
        NetServer { pool_size: self.pool_size, connect_handler: Some(Arc::new(h)) }
    }

    /// The number of workers the pool will have.
    pub fn workers(&self) -> (n: usize)
        ensures
            n == self.spec_pool_size(),
            n >= 1,
    {
        proof {
            use_type_invariant(self);
        }
        self.pool_size
    }

    /// Whether a handler has been configured.
    pub fn has_handler(&self) -> (b: bool)
        ensures
            b == self.spec_handler().is_some(),
    {
        self.connect_handler.is_some()
    }

    /// Starts serving on the first of the socket addresses that the bind
    /// target resolved to.
    ///
    /// Fails with `InvalidAddress` when there is none, and otherwise with
    /// `HandlerNotSet` when no handler was configured; in both cases nothing
    /// has been asked of the outside, so no socket is bound. On success the
    /// accept loop waits for the bind of `resolved[0]`.
    pub fn serve(self, resolved: Vec<String>) -> (start: Result<Listening<H>, ServeError>)
        ensures
            resolved.len() == 0 ==> start == Err::<Listening<H>, ServeError>(
                ServeError::InvalidAddress,
            ),
            resolved.len() > 0 && self.spec_handler().is_none() ==> start == Err::<
                Listening<H>,
                ServeError,
            >(ServeError::HandlerNotSet),
            resolved.len() > 0 && self.spec_handler().is_some() ==> start.is_ok(),
            start matches Ok(l) ==> {
                &&& self.spec_pool_size() >= 1
                &&& l.loop_state@ == (ServeView {
                    phase: Phase::Binding,
                    pool_size: self.spec_pool_size(),
                })
                &&& Some(l.handler) == self.spec_handler()
                &&& l.address == resolved[0]
            },
    {
        proof {
            use_type_invariant(&self);
        }
        let mut resolved = resolved;
        if resolved.len() == 0 {
            return Err(ServeError::InvalidAddress);
        }
        match self.connect_handler {
            None => Err(ServeError::HandlerNotSet),
            Some(handler) => {
                let address = resolved.swap_remove(0);
                Ok(
                    Listening {
                        loop_state: Serve { phase: Phase::Binding, pool_size: self.pool_size },
                        handler,
                        address,
                    },
                )
            },
        }
    }
}

} // verus!
