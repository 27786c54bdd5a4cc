use lusion::net::{
    task_outcome, Action, Event, NetServer, Phase, Report, Serve, ServeError,
};

fn echo(_conn: u64) -> Result<(), String> {
    Ok(())
}

fn started(pool_size: usize) -> Serve {
    let server = NetServer::new().pool_size(pool_size).connect_handler(echo);
    match server.serve(vec!["127.0.0.1:0".to_owned()]) {
        Ok(listening) => listening.loop_state,
        Err(e) => panic!("a configured server starts: {:?}", e),
    }
}

fn accepting(pool_size: usize) -> Serve {
    let mut serve = started(pool_size);
    assert_eq!(serve.step(Event::Bound), Action::CreatePool(pool_size));
    assert_eq!(serve.step(Event::PoolReady), Action::Accept);
    serve
}

#[test]
fn new_server_has_one_worker_per_cpu_and_no_handler() {
    let server: NetServer<fn(u64) -> Result<(), String>> = NetServer::new();
    assert!(server.workers() >= 1);
    assert_eq!(server.workers(), num_cpus::get());
    assert!(!server.has_handler());
}

#[test]
fn connect_handler_keeps_the_pool_size() {
    let server = NetServer::new().pool_size(3).connect_handler(echo);
    assert!(server.has_handler());
    assert_eq!(server.workers(), 3);
}

#[test]
fn serve_without_handler_fails_before_any_bind() {
    let server: NetServer<fn(u64) -> Result<(), String>> = NetServer::new();
    let outcome = server.serve(vec!["0.0.0.0:0".to_owned()]);
    assert!(matches!(outcome, Err(ServeError::HandlerNotSet)));
}

#[test]
fn serve_without_address_is_invalid_address() {
    let configured = NetServer::new().connect_handler(echo);
    assert!(matches!(
        configured.serve(Vec::new()),
        Err(ServeError::InvalidAddress)
    ));
    let bare: NetServer<fn(u64) -> Result<(), String>> = NetServer::new();
    assert!(matches!(
        bare.serve(Vec::new()),
        Err(ServeError::InvalidAddress)
    ));
}

#[test]
fn serve_binds_the_first_resolved_address() {
    let server = NetServer::new().pool_size(2).connect_handler(echo);
    let listening = server
        .serve(vec!["10.0.0.1:80".to_owned(), "10.0.0.2:80".to_owned()])
        .expect("a configured server starts");
    assert_eq!(listening.address, "10.0.0.1:80");
    assert_eq!(listening.loop_state.phase(), Phase::Binding);
    assert_eq!(listening.loop_state.pool_size(), 2);
    assert_eq!((listening.handler)(7), Ok(()));
}

#[test]
fn bind_failure_is_fatal() {
    let mut serve = started(2);
    assert_eq!(
        serve.step(Event::BindFailed("address in use".to_owned())),
        Action::Finish(Err(ServeError::Bind("address in use".to_owned())))
    );
    assert!(serve.is_terminated());
    assert_eq!(serve.step(Event::Bound), Action::Ignore);
}

#[test]
fn pool_failure_is_fatal() {
    let mut serve = started(2);
    assert_eq!(serve.step(Event::Bound), Action::CreatePool(2));
    assert_eq!(serve.phase(), Phase::StartingPool);
    assert_eq!(
        serve.step(Event::PoolFailed("no threads".to_owned())),
        Action::Finish(Err(ServeError::Pool("no threads".to_owned())))
    );
    assert_eq!(serve.phase(), Phase::Terminated);
}

#[test]
fn each_accepted_connection_is_dispatched_once() {
    let mut serve = accepting(4);
    let mut dispatched = Vec::new();
    for conn in 0..6u64 {
        assert_eq!(serve.phase(), Phase::Accepting);
        match serve.step(Event::Accepted(conn)) {
            Action::Dispatch(c) => dispatched.push(c),
            other => panic!("expected a dispatch, got {:?}", other),
        }
        assert_eq!(serve.phase(), Phase::Dispatching(conn));
        assert_eq!(serve.step(Event::Spawned), Action::Accept);
    }
    assert_eq!(dispatched, vec![0, 1, 2, 3, 4, 5]);
}

#[test]
fn pool_of_one_still_accepts_every_connection() {
    let mut serve = accepting(1);
    assert_eq!(serve.step(Event::Accepted(1)), Action::Dispatch(1));
    assert_eq!(serve.step(Event::Spawned), Action::Accept);
    assert_eq!(serve.step(Event::Accepted(2)), Action::Dispatch(2));
    assert_eq!(serve.step(Event::Spawned), Action::Accept);
    assert_eq!(serve.pool_size(), 1);
    assert_eq!(serve.phase(), Phase::Accepting);
}

#[test]
fn accept_failure_is_fatal() {
    let mut serve = accepting(2);
    assert_eq!(
        serve.step(Event::AcceptFailed("too many open files".to_owned())),
        Action::Finish(Err(ServeError::Accept("too many open files".to_owned())))
    );
    assert!(serve.is_terminated());
    assert_eq!(serve.step(Event::Accepted(9)), Action::Ignore);
}

#[test]
fn spawn_failure_is_fatal() {
    let mut serve = accepting(2);
    assert_eq!(serve.step(Event::Accepted(3)), Action::Dispatch(3));
    assert_eq!(
        serve.step(Event::SpawnFailed("shutdown".to_owned())),
        Action::Finish(Err(ServeError::Spawn("shutdown".to_owned())))
    );
    assert!(serve.is_terminated());
}

#[test]
fn closed_listener_ends_the_loop_without_error() {
    let mut serve = accepting(2);
    assert_eq!(serve.step(Event::ListenerClosed), Action::Finish(Ok(())));
    assert!(serve.is_terminated());
}

#[test]
fn events_out_of_turn_are_dropped() {
    let mut serve = started(2);
    assert_eq!(serve.step(Event::Accepted(1)), Action::Ignore);
    assert_eq!(serve.step(Event::Spawned), Action::Ignore);
    assert_eq!(serve.step(Event::PoolReady), Action::Ignore);
    assert_eq!(serve.phase(), Phase::Binding);
    let mut serve = accepting(2);
    assert_eq!(serve.step(Event::Accepted(1)), Action::Dispatch(1));
    assert_eq!(serve.step(Event::Accepted(2)), Action::Ignore);
    assert_eq!(serve.phase(), Phase::Dispatching(1));
}

#[test]
fn handler_error_is_reported_and_the_loop_goes_on() {
    let mut serve = accepting(2);
    assert_eq!(serve.step(Event::Accepted(1)), Action::Dispatch(1));
    assert_eq!(serve.step(Event::Spawned), Action::Accept);
    let report = task_outcome(1, Err("connection reset".to_owned()));
    assert_eq!(
        report,
        Some(Report {
            conn: 1,
            message: "connect handler error: connection reset".to_owned(),
        })
    );
    assert_eq!(serve.phase(), Phase::Accepting);
    assert_eq!(serve.step(Event::Accepted(2)), Action::Dispatch(2));
    assert_eq!(serve.step(Event::Spawned), Action::Accept);
    assert_eq!(task_outcome(2, Ok(())), None);
}
