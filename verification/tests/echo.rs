use futures::executor::{block_on, ThreadPool};
use futures::future::{join, join3, join_all, RemoteHandle};
use futures::io::{AsyncReadExt, AsyncWriteExt};
use futures::task::SpawnExt;
use lusion::net::{
    task_outcome, Action, Event, NetServer, Relay, RelayAction, RelayEvent, Report, Serve,
    ServeError,
};
use romio::tcp::TcpListener;
use romio::uds::UnixStream;
use std::sync::Arc;

type Unused = fn(u64) -> Result<(), String>;

fn unused(_conn: u64) -> Result<(), String> {
    Ok(())
}

fn start(pool_size: usize, address: &str) -> (Serve, Arc<Unused>, String) {
    let server = NetServer::new()
        .pool_size(pool_size)
        .connect_handler(unused as Unused);
    let listening = server
        .serve(vec![address.to_owned()])
        .expect("a configured server starts");
    (listening.loop_state, listening.handler, listening.address)
}

/// The echo handler: relays the stream into itself through a small buffer.
async fn echo(stream: UnixStream) -> Result<u64, String> {
    let (mut reader, mut writer) = stream.split();
    let mut machine = Relay::with_capacity(4);
    let mut action = machine.first_action();
    loop {
        action = match action {
            RelayAction::Read(max) => {
                let mut buf = vec![0u8; max];
                match reader.read(&mut buf).await {
                    Ok(n) => {
                        buf.truncate(n);
                        machine.step(RelayEvent::Read(buf))
                    }
                    Err(e) => machine.step(RelayEvent::ReadFailed(e.to_string())),
                }
            }
            RelayAction::Write => match writer.write(machine.pending()).await {
                Ok(n) => machine.step(RelayEvent::Wrote(n)),
                Err(e) => machine.step(RelayEvent::WriteFailed(e.to_string())),
            },
            RelayAction::Flush => match writer.flush().await {
                Ok(()) => machine.step(RelayEvent::Flushed),
                Err(e) => machine.step(RelayEvent::FlushFailed(e.to_string())),
            },
            RelayAction::Finish(outcome) => return outcome.map_err(|e| format!("{:?}", e)),
            RelayAction::Ignore => return Err("event out of turn".to_owned()),
        };
    }
}

/// Runs the accept loop over connections that have already arrived, with a
/// pool of the size that the loop asks for, until the last one has been
/// handed to the pool. Gives back the pool and, for each connection, the
/// handle of its handler.
fn dispatch_all(
    serve: Serve,
    arrived: Vec<UnixStream>,
) -> (ThreadPool, Vec<RemoteHandle<Result<u64, String>>>) {
    dispatch_all_but(serve, arrived, None)
}

/// As `dispatch_all`, with a handler that fails on the connection `broken`
/// without touching it.
fn dispatch_all_but(
    mut serve: Serve,
    mut arrived: Vec<UnixStream>,
    broken: Option<u64>,
) -> (ThreadPool, Vec<RemoteHandle<Result<u64, String>>>) {
    arrived.reverse();
    let mut pool: Option<ThreadPool> = None;
    let mut accepted: Option<UnixStream> = None;
    let mut handles = Vec::new();
    let mut event = Event::Bound;
    loop {
        event = match serve.step(event) {
            Action::CreatePool(size) => match ThreadPool::builder().pool_size(size).create() {
                Ok(created) => {
                    pool = Some(created);
                    Event::PoolReady
                }
                Err(e) => Event::PoolFailed(e.to_string()),
            },
            Action::Accept => match arrived.pop() {
                Some(stream) => {
                    accepted = Some(stream);
                    Event::Accepted(handles.len() as u64)
                }
                None => Event::ListenerClosed,
            },
            Action::Dispatch(conn) => {
                assert_eq!(conn, handles.len() as u64);
                let stream = accepted.take().expect("a connection was accepted");
                let workers = pool.as_mut().expect("the pool was created");
                let task = async move {
                    let outcome = if broken == Some(conn) {
                        Err("refused".to_owned())
                    } else {
                        echo(stream).await
                    };
                    let report = task_outcome(conn, outcome.clone().map(|_| ()));
                    match &outcome {
                        Ok(_) => assert_eq!(report, None),
                        Err(why) => assert_eq!(
                            report,
                            Some(Report {
                                conn,
                                message: format!("connect handler error: {}", why),
                            })
                        ),
                    }
                    outcome
                };
                match workers.spawn_with_handle(task) {
                    Ok(handle) => {
                        handles.push(handle);
                        Event::Spawned
                    }
                    Err(e) => Event::SpawnFailed(format!("{:?}", e)),
                }
            }
            Action::Finish(outcome) => {
                assert_eq!(outcome, Ok(()));
                assert!(serve.is_terminated());
                return (pool.expect("the pool was created"), handles);
            }
            Action::Ignore => panic!("no event was out of turn"),
        };
    }
}

/// Sends `message`, reads as many bytes back and closes the connection.
async fn exchange(mut stream: UnixStream, message: Vec<u8>) -> Vec<u8> {
    stream.write_all(&message).await.expect("the server reads");
    let mut echoed = vec![0u8; message.len()];
    stream
        .read_exact(&mut echoed)
        .await
        .expect("the server writes back");
    echoed
}

#[test]
fn client_gets_hello_back_and_the_handler_sees_the_end() {
    let (serve, _handler, _address) = start(2, "127.0.0.1:0");
    let (near, far) = UnixStream::pair().expect("a connected pair");
    let (_pool, mut handles) = dispatch_all(serve, vec![far]);
    assert_eq!(handles.len(), 1);
    let handler = handles.pop().expect("one handler");
    let (echoed, outcome) = block_on(join(exchange(near, b"hello".to_vec()), handler));
    assert_eq!(echoed, b"hello");
    assert_eq!(outcome, Ok(5));
}

#[test]
fn pool_of_one_takes_every_connection_and_each_gets_its_own_bytes() {
    let (serve, _handler, _address) = start(1, "127.0.0.1:0");
    let (near_a, far_a) = UnixStream::pair().expect("a connected pair");
    let (near_b, far_b) = UnixStream::pair().expect("a connected pair");
    let (near_c, far_c) = UnixStream::pair().expect("a connected pair");
    let (_pool, handles) = dispatch_all(serve, vec![far_a, far_b, far_c]);
    assert_eq!(handles.len(), 3);

    let clients = join3(
        exchange(near_a, b"first connection".to_vec()),
        exchange(near_b, vec![7u8; 5000]),
        exchange(near_c, Vec::new()),
    );
    let ((a, b, c), outcomes) = block_on(join(clients, join_all(handles)));
    assert_eq!(a, b"first connection");
    assert_eq!(b, vec![7u8; 5000]);
    assert_eq!(c, Vec::<u8>::new());
    assert_eq!(outcomes, vec![Ok(16), Ok(5000), Ok(0)]);
}

#[test]
fn failed_handler_leaves_later_connections_alone() {
    let (serve, _handler, _address) = start(1, "127.0.0.1:0");
    let (_near_a, far_a) = UnixStream::pair().expect("a connected pair");
    let (near_b, far_b) = UnixStream::pair().expect("a connected pair");
    let (_pool, handles) = dispatch_all_but(serve, vec![far_a, far_b], Some(0));
    assert_eq!(handles.len(), 2);
    let (echoed, outcomes) = block_on(join(
        exchange(near_b, b"still served".to_vec()),
        join_all(handles),
    ));
    assert_eq!(echoed, b"still served");
    assert_eq!(outcomes, vec![Err("refused".to_owned()), Ok(12)]);
}

#[test]
fn ephemeral_port_is_bound_and_a_second_bind_of_it_is_fatal() {
    let (mut first, _handler, address) = start(1, "0.0.0.0:0");
    let listener = TcpListener::bind(&address.parse().expect("a socket address"))
        .expect("an ephemeral port can be bound");
    let taken = listener.local_addr().expect("a bound address").to_string();
    assert!(!taken.ends_with(":0"));
    assert_eq!(first.step(Event::Bound), Action::CreatePool(1));

    let (mut second, _handler, again) = start(1, &taken);
    assert_eq!(again, taken);
    let failure = TcpListener::bind(&again.parse().expect("a socket address"))
        .map(|_| ())
        .expect_err("the port is taken");
    assert_eq!(
        second.step(Event::BindFailed(failure.to_string())),
        Action::Finish(Err(ServeError::Bind(failure.to_string())))
    );
    assert!(second.is_terminated());
}
